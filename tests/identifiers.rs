use eth2::{BlockId, Hash256, PublicKeyBytes, StateId, ValidatorId};

const ROOT_HEX: &str = "abcdef0123456789abcdef0123456789abcdef0123456789abcdef0123456789";

fn root_bytes() -> [u8; 32] {
    let mut b = [0u8; 32];
    for i in 0..32 {
        let pair = &ROOT_HEX[2 * i..2 * i + 2];
        b[i] = u8::from_str_radix(pair, 16).unwrap();
    }
    b
}

#[test]
fn symbolic_tags_round_trip() {
    for id in [BlockId::Head, BlockId::Genesis, BlockId::Finalized, BlockId::Justified] {
        assert_eq!(BlockId::from_str(&id.to_string()), Ok(id));
    }
    for id in [StateId::Head, StateId::Genesis, StateId::Finalized, StateId::Justified] {
        assert_eq!(StateId::from_str(&id.to_string()), Ok(id));
    }
    assert_eq!(BlockId::Head.to_string(), "head");
    assert_eq!(StateId::Justified.to_string(), "justified");
}

#[test]
fn tags_are_case_sensitive() {
    assert!(BlockId::from_str("Head").is_err());
    assert!(StateId::from_str("FINALIZED").is_err());
}

#[test]
fn finalized_scenario() {
    let id = BlockId::from_str("finalized").unwrap();
    assert_eq!(id, BlockId::Finalized);
    assert_eq!(id.to_string(), "finalized");
}

#[test]
fn root_parses_from_hex() {
    let text = format!("0x{}", ROOT_HEX);
    assert_eq!(BlockId::from_str(&text), Ok(BlockId::Root(Hash256(root_bytes()))));
    assert_eq!(StateId::from_str(&text), Ok(StateId::Root(Hash256(root_bytes()))));
}

#[test]
fn root_accepts_uppercase_and_renders_lowercase() {
    let text = format!("0x{}", ROOT_HEX.to_uppercase());
    let id = BlockId::from_str(&text).unwrap();
    assert_eq!(id, BlockId::Root(Hash256(root_bytes())));
    assert_eq!(id.to_string(), format!("0x{}", ROOT_HEX));
}

#[test]
fn root_round_trips() {
    let id = StateId::Root(Hash256(root_bytes()));
    assert_eq!(StateId::from_str(&id.to_string()), Ok(id));
    let zero = BlockId::Root(Hash256([0u8; 32]));
    assert_eq!(zero.to_string(), format!("0x{}", "0".repeat(64)));
    assert_eq!(BlockId::from_str(&zero.to_string()), Ok(zero));
}

#[test]
fn short_root_is_rejected() {
    let text = format!("0x{}", &ROOT_HEX[..63]);
    let e = BlockId::from_str(&text).unwrap_err();
    assert!(e.contains("cannot be parsed as a root"));
    assert_eq!(e, format!("{} cannot be parsed as a root: invalid input length", text));
}

#[test]
fn non_hex_root_is_rejected() {
    let text = format!("0x{}g", &ROOT_HEX[..63]);
    assert_eq!(
        StateId::from_str(&text),
        Err(format!("{} cannot be parsed as a root: invalid character", text))
    );
}

#[test]
fn hex_prefix_is_never_numeric() {
    assert_eq!(
        BlockId::from_str("0x123"),
        Err("0x123 cannot be parsed as a root: invalid input length".to_string())
    );
    assert!(ValidatorId::from_str("0x123").unwrap_err().contains("public key"));
}

#[test]
fn slots_parse_from_decimal() {
    assert_eq!(BlockId::from_str("0"), Ok(BlockId::Slot(0)));
    assert_eq!(BlockId::from_str("007"), Ok(BlockId::Slot(7)));
    assert_eq!(StateId::from_str("1234"), Ok(StateId::Slot(1234)));
    assert_eq!(
        StateId::from_str("18446744073709551615"),
        Ok(StateId::Slot(u64::MAX))
    );
}

#[test]
fn slot_renders_decimal() {
    assert_eq!(BlockId::Slot(0).to_string(), "0");
    assert_eq!(BlockId::Slot(1234).to_string(), "1234");
    assert_eq!(StateId::Slot(u64::MAX).to_string(), "18446744073709551615");
    let id = StateId::Slot(9876543210);
    assert_eq!(StateId::from_str(&id.to_string()), Ok(id));
}

#[test]
fn bad_slots_are_rejected() {
    assert_eq!(
        BlockId::from_str("18446744073709551616"),
        Err("18446744073709551616 cannot be parsed as a parameter".to_string())
    );
    assert_eq!(BlockId::from_str("abc"), Err("abc cannot be parsed as a parameter".to_string()));
    assert_eq!(BlockId::from_str(""), Err(" cannot be parsed as a parameter".to_string()));
    assert_eq!(StateId::from_str("+5"), Err("+5 cannot be parsed as a slot".to_string()));
    assert_eq!(StateId::from_str("1x"), Err("1x cannot be parsed as a slot".to_string()));
}

#[test]
fn validator_index_parses_and_renders() {
    assert_eq!(ValidatorId::from_str("42"), Ok(ValidatorId::Index(42)));
    assert_eq!(ValidatorId::Index(42).to_string(), "42");
    let id = ValidatorId::Index(u64::MAX);
    assert_eq!(ValidatorId::from_str(&id.to_string()), Ok(id));
}

#[test]
fn validator_public_key_round_trips() {
    let mut key = [0u8; 48];
    for (i, b) in key.iter_mut().enumerate() {
        *b = (i * 5 + 1) as u8;
    }
    let id = ValidatorId::PublicKey(PublicKeyBytes(key));
    let text = id.to_string();
    assert_eq!(text.len(), 98);
    assert!(text.starts_with("0x0106"));
    assert_eq!(ValidatorId::from_str(&text), Ok(id));
}

#[test]
fn validator_errors_name_the_reason() {
    assert_eq!(
        ValidatorId::from_str("abc"),
        Err("abc cannot be parsed as a slot: invalid digit found in string".to_string())
    );
    assert_eq!(
        ValidatorId::from_str(""),
        Err(" cannot be parsed as a slot: cannot parse integer from empty string".to_string())
    );
    assert_eq!(
        ValidatorId::from_str("99999999999999999999"),
        Err(
            "99999999999999999999 cannot be parsed as a slot: number too large to fit in target type"
                .to_string()
        )
    );
    assert_eq!(
        ValidatorId::from_str("0x12"),
        Err("0x12 cannot be parsed as a public key: invalid input length".to_string())
    );
    let bad = format!("0x{}", "z".repeat(96));
    assert_eq!(
        ValidatorId::from_str(&bad),
        Err(format!("{} cannot be parsed as a public key: invalid character", bad))
    );
}

#[test]
fn validator_ids_take_no_tags() {
    assert!(ValidatorId::from_str("head").is_err());
}

#[test]
fn prefixed_hex_codec() {
    assert_eq!(eth2::encode_prefixed_hex(&[0x00, 0xab, 0x7f]), "0x00ab7f");
    assert_eq!(eth2::decode_prefixed_hex::<3>("0x00AB7f"), Some([0x00, 0xab, 0x7f]));
    assert_eq!(eth2::decode_prefixed_hex::<3>("00ab7f"), None);
    assert_eq!(eth2::decode_prefixed_hex::<2>("0x00ab7f"), None);
    assert_eq!(eth2::decode_prefixed_hex::<0>("0x"), Some([]));
}
