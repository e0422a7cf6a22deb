use txdecode::abi::{FunctionDescriptor, Param};
use txdecode::display::{format_value, group_digits, table_rows, Row};
use txdecode::value::DecodedValue;

fn word(tail: &[u8]) -> [u8; 32] {
    let mut w = [0u8; 32];
    w[32 - tail.len()..].copy_from_slice(tail);
    w
}

#[test]
fn test_format_address() {
    let addr = [0u8; 20];
    let formatted = format_value(&DecodedValue::Address(addr));
    assert!(formatted.contains("Zero Address"));
}

#[test]
fn test_format_uint() {
    let val = word(&1_000_000u32.to_be_bytes());
    let formatted = format_value(&DecodedValue::Uint(val, 256));
    assert!(formatted.contains("1_000_000"));
}

#[test]
fn zero_address_is_noted() {
    assert_eq!(
        format_value(&DecodedValue::Address([0u8; 20])),
        "0x0000000000000000000000000000000000000000 (Zero Address)"
    );
}

#[test]
fn address_is_shown_in_lower_case_hex() {
    let mut a = [0u8; 20];
    a[0] = 0x07;
    a[1] = 0x42;
    a[19] = 0xEB;
    assert_eq!(
        format_value(&DecodedValue::Address(a)),
        "0x07420000000000000000000000000000000000eb"
    );
}

#[test]
fn unsigned_integers_show_value_and_width() {
    assert_eq!(format_value(&DecodedValue::Uint(word(&[]), 8)), "0 (uint8)");
    assert_eq!(
        format_value(&DecodedValue::Uint(word(&999_999u32.to_be_bytes()), 256)),
        "999999 (uint256)"
    );
    assert_eq!(
        format_value(&DecodedValue::Uint(word(&1_000_000u32.to_be_bytes()), 256)),
        "1_000_000 (uint256)"
    );
    assert_eq!(
        format_value(&DecodedValue::Uint(word(&1234567890123u64.to_be_bytes()), 64)),
        "1_234_567_890_123 (uint64)"
    );
    assert_eq!(
        format_value(&DecodedValue::Uint([0xff; 32], 256)),
        "115_792_089_237_316_195_423_570_985_008_687_907_853_269_984_665_640_564_039_457_584_007_913_129_639_935 (uint256)"
    );
}

#[test]
fn digits_are_grouped_from_the_right() {
    assert_eq!(group_digits(""), "");
    assert_eq!(group_digits("1"), "1");
    assert_eq!(group_digits("123"), "123");
    assert_eq!(group_digits("1234"), "1_234");
    assert_eq!(group_digits("12345"), "12_345");
    assert_eq!(group_digits("123456"), "123_456");
    assert_eq!(group_digits("1234567"), "1_234_567");
}

#[test]
fn booleans_are_spelled_out() {
    assert_eq!(format_value(&DecodedValue::Bool(true)), "true");
    assert_eq!(format_value(&DecodedValue::Bool(false)), "false");
}

#[test]
fn byte_strings_are_cut_after_32_bytes() {
    assert_eq!(format_value(&DecodedValue::Bytes(vec![])), "0x");
    assert_eq!(format_value(&DecodedValue::Bytes(vec![0xab, 0x01])), "0xab01");
    let exactly: Vec<u8> = (0u8..32).collect();
    assert_eq!(
        format_value(&DecodedValue::Bytes(exactly)),
        "0x000102030405060708090a0b0c0d0e0f101112131415161718191a1b1c1d1e1f"
    );
    let longer: Vec<u8> = (0u8..33).collect();
    assert_eq!(
        format_value(&DecodedValue::Bytes(longer)),
        "0x000102030405060708090a0b0c0d0e0f101112131415161718191a1b1c1d1e1f... (33 bytes)"
    );
}

#[test]
fn other_values_are_shown_as_the_decoder_prints_them() {
    assert_eq!(format_value(&DecodedValue::String("hi \"x\"".to_string())), "String(\"hi \\\"x\\\"\")");
    assert_eq!(format_value(&DecodedValue::Int([0xff; 32], 256)), "Int(-1, 256)");
    assert_eq!(
        format_value(&DecodedValue::Array(vec![
            DecodedValue::Bool(true),
            DecodedValue::Uint(word(&[5]), 8)
        ])),
        "Array([Bool(true), Uint(5, 8)])"
    );
    assert_eq!(
        format_value(&DecodedValue::Tuple(vec![DecodedValue::Bytes(vec![1, 2])])),
        "Tuple([Bytes([1, 2])])"
    );
}

#[test]
fn rows_name_unnamed_parameters_by_position() {
    let func = FunctionDescriptor::new(
        "transfer".to_string(),
        vec![
            Param { name: "to".to_string(), ty: "address".to_string() },
            Param { name: String::new(), ty: "uint256".to_string() },
            Param { name: String::new(), ty: "bool".to_string() },
        ],
    );
    let values = vec![
        DecodedValue::Address([0u8; 20]),
        DecodedValue::Uint(word(&[42]), 256),
    ];
    assert_eq!(
        table_rows(&values, &func),
        vec![
            Row {
                parameter: "to".to_string(),
                ty: "address".to_string(),
                value: "0x0000000000000000000000000000000000000000 (Zero Address)".to_string(),
            },
            Row {
                parameter: "param1".to_string(),
                ty: "uint256".to_string(),
                value: "42 (uint256)".to_string(),
            },
        ]
    );
    assert_eq!(table_rows(&vec![], &func), vec![]);
}
