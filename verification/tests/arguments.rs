use arcdna::{encode_arguments, CircuitConfig, ErrorCode, WireArg, MAX_WIDTH};
use arcium_anchor::prelude::{ArgumentList, ArgumentRef};

fn block(tag: u8) -> [u8; 32] {
    let mut bytes = [tag; 32];
    bytes[0] = tag.wrapping_add(1);
    bytes[31] = tag.wrapping_mul(3);
    bytes
}

fn blocks(first: u8, count: usize) -> Vec<[u8; 32]> {
    (0..count).map(|i| block(first.wrapping_add(i as u8))).collect()
}

fn config(width: usize, dynamic_threshold: bool) -> CircuitConfig {
    CircuitConfig { circuit: 1, width, dynamic_threshold }
}

/// What each argument of a list stands for, read from the list itself.
fn resolve(list: &ArgumentList) -> Vec<WireArg> {
    list.args
        .iter()
        .map(|arg| match arg {
            ArgumentRef::X25519Pubkey(i) => WireArg::X25519Pubkey(list.byte_arrays[*i as usize]),
            ArgumentRef::PlaintextU128(i) => WireArg::PlaintextU128(list.values_128_bit[*i as usize]),
            ArgumentRef::EncryptedU64(i) => WireArg::EncryptedU64(list.byte_arrays[*i as usize]),
            _ => panic!("an argument of a kind that a request never holds"),
        })
        .collect()
}

#[test]
fn arguments_stand_in_the_fixed_order() {
    let key = block(200);
    let nonce = 0x0102_0304_0506_0708_090a_0b0c_0d0e_0f10u128;
    let user = blocks(10, 4);
    let target = blocks(50, 4);
    let threshold = block(99);
    let list = encode_arguments(&config(4, true), key, nonce, &user, &target, Some(threshold))
        .expect("inputs of the deployed widths");
    let expected = vec![
        WireArg::X25519Pubkey(key),
        WireArg::PlaintextU128(nonce),
        WireArg::EncryptedU64(user[0]),
        WireArg::EncryptedU64(user[1]),
        WireArg::EncryptedU64(user[2]),
        WireArg::EncryptedU64(user[3]),
        WireArg::EncryptedU64(target[0]),
        WireArg::EncryptedU64(target[1]),
        WireArg::EncryptedU64(target[2]),
        WireArg::EncryptedU64(target[3]),
        WireArg::EncryptedU64(threshold),
    ];
    assert_eq!(resolve(&list), expected);
}

#[test]
fn argument_list_holds_exactly_the_inputs() {
    let key = block(1);
    let user = blocks(10, 8);
    let target = blocks(50, 8);
    let threshold = block(99);
    let list = encode_arguments(&config(8, true), key, 77, &user, &target, Some(threshold))
        .expect("inputs of the deployed widths");
    assert_eq!(list.args.len(), 2 + 8 + 8 + 1);
    assert_eq!(list.byte_arrays.len(), 1 + 8 + 8 + 1);
    assert_eq!(list.byte_arrays[0], key);
    assert_eq!(&list.byte_arrays[1..9], &user[..]);
    assert_eq!(&list.byte_arrays[9..17], &target[..]);
    assert_eq!(list.byte_arrays[17], threshold);
    assert_eq!(list.values_128_bit, vec![77u128]);
    assert!(list.plaintext_numbers.is_empty());
    assert!(list.accounts.is_empty());
    assert!(matches!(list.args[0], ArgumentRef::X25519Pubkey(0)));
    assert!(matches!(list.args[1], ArgumentRef::PlaintextU128(0)));
    assert!(matches!(list.args[2], ArgumentRef::EncryptedU64(1)));
    assert!(matches!(list.args[10], ArgumentRef::EncryptedU64(9)));
    assert!(matches!(list.args[18], ArgumentRef::EncryptedU64(17)));
}

#[test]
fn built_in_threshold_takes_no_slot() {
    let key = block(1);
    let user = blocks(10, 4);
    let target = blocks(50, 4);
    let list = encode_arguments(&config(4, false), key, 5, &user, &target, None)
        .expect("inputs of the deployed widths");
    let resolved = resolve(&list);
    assert_eq!(resolved.len(), 10);
    assert_eq!(resolved[0], WireArg::X25519Pubkey(key));
    assert_eq!(resolved[1], WireArg::PlaintextU128(5));
    assert_eq!(resolved[5], WireArg::EncryptedU64(user[3]));
    assert_eq!(resolved[9], WireArg::EncryptedU64(target[3]));
}

#[test]
fn threshold_is_refused_where_the_circuit_takes_none() {
    let user = blocks(10, 4);
    let target = blocks(50, 4);
    let encoded = encode_arguments(&config(4, false), block(1), 5, &user, &target, Some(block(9)));
    assert_eq!(encoded.err(), Some(ErrorCode::MalformedArgument));
}

#[test]
fn missing_threshold_is_refused_where_the_circuit_takes_one() {
    let user = blocks(10, 4);
    let target = blocks(50, 4);
    let encoded = encode_arguments(&config(4, true), block(1), 5, &user, &target, None);
    assert_eq!(encoded.err(), Some(ErrorCode::MalformedArgument));
}

#[test]
fn fingerprint_of_the_wrong_width_is_refused() {
    let four = blocks(10, 4);
    let three = blocks(50, 3);
    let five = blocks(50, 5);
    let threshold = Some(block(9));
    let cfg = config(4, true);
    for (user, target) in [(&three, &four), (&four, &three), (&five, &four), (&four, &five)] {
        let encoded = encode_arguments(&cfg, block(1), 5, user, target, threshold);
        assert_eq!(encoded.err(), Some(ErrorCode::MalformedArgument));
    }
    let none: Vec<[u8; 32]> = Vec::new();
    let encoded = encode_arguments(&cfg, block(1), 5, &none, &none, threshold);
    assert_eq!(encoded.err(), Some(ErrorCode::MalformedArgument));
}

#[test]
fn widest_fingerprint_is_encoded_without_aliasing() {
    assert_eq!(MAX_WIDTH, 127);
    let key = block(250);
    let user: Vec<[u8; 32]> = (0..MAX_WIDTH).map(|i| [i as u8; 32]).collect();
    let target: Vec<[u8; 32]> = (0..MAX_WIDTH).map(|i| [128 + i as u8; 32]).collect();
    let threshold = block(251);
    let list = encode_arguments(&config(MAX_WIDTH, true), key, 1, &user, &target, Some(threshold))
        .expect("the widest fingerprint a list can carry");
    let resolved = resolve(&list);
    assert_eq!(resolved.len(), 2 + 2 * MAX_WIDTH + 1);
    assert_eq!(resolved[0], WireArg::X25519Pubkey(key));
    for i in 0..MAX_WIDTH {
        assert_eq!(resolved[2 + i], WireArg::EncryptedU64(user[i]));
        assert_eq!(resolved[2 + MAX_WIDTH + i], WireArg::EncryptedU64(target[i]));
    }
    assert_eq!(resolved[2 + 2 * MAX_WIDTH], WireArg::EncryptedU64(threshold));
    assert!(matches!(list.args[2 + 2 * MAX_WIDTH], ArgumentRef::EncryptedU64(255)));
}

#[test]
fn width_beyond_the_widest_is_refused() {
    let user = blocks(0, MAX_WIDTH + 1);
    let target = blocks(0, MAX_WIDTH + 1);
    let encoded =
        encode_arguments(&config(MAX_WIDTH + 1, true), block(1), 1, &user, &target, Some(block(2)));
    assert_eq!(encoded.err(), Some(ErrorCode::MalformedArgument));
    let encoded = encode_arguments(&config(MAX_WIDTH + 1, false), block(1), 1, &user, &target, None);
    assert_eq!(encoded.err(), Some(ErrorCode::MalformedArgument));
}

#[test]
fn zero_width_circuit_takes_key_nonce_and_threshold() {
    let none: Vec<[u8; 32]> = Vec::new();
    let list = encode_arguments(&config(0, true), block(1), 9, &none, &none, Some(block(2)))
        .expect("inputs of the deployed widths");
    assert_eq!(
        resolve(&list),
        vec![
            WireArg::X25519Pubkey(block(1)),
            WireArg::PlaintextU128(9),
            WireArg::EncryptedU64(block(2)),
        ]
    );
}

#[test]
fn circuit_identifier_is_derived_from_the_name() {
    let cfg = CircuitConfig::for_circuit("compute_dna_similarity", 8, true);
    assert_eq!(cfg.circuit, 1017602590);
    assert_eq!(cfg.width, 8);
    assert!(cfg.dynamic_threshold);
    let other = CircuitConfig::for_circuit("add_together", 4, false);
    assert_eq!(other.circuit, 4005749700);
    assert_eq!(other.width, 4);
    assert!(!other.dynamic_threshold);
}
