use txdecode::abi::{FunctionDescriptor, Param};
use txdecode::error::DecodeError;
use txdecode::signatures::{
    has_well_known_name, lookup_url, parse_signature, same_selector, selector, starts_with,
};

#[test]
fn test_selector_extraction() {
    let data = vec![0xa9, 0x05, 0x9c, 0xbb, 0x00, 0x00];
    let sel = selector(&data).unwrap();
    assert_eq!(sel, [0xa9, 0x05, 0x9c, 0xbb]);
}

#[test]
fn test_selector_too_short() {
    let data = vec![0xa9, 0x05];
    let result = selector(&data);
    assert!(result.is_err());
    assert_eq!(
        result.unwrap_err().message(),
        "data too short to extract selector"
    );
}

#[test]
fn test_parse_signature() {
    let func = parse_signature("transfer(address,uint256)").unwrap();
    assert_eq!(func.name, "transfer");
    assert_eq!(func.inputs.len(), 2);
}

#[test]
fn selector_of_exactly_four_bytes() {
    assert_eq!(selector(&[1, 2, 3, 4]), Ok([1, 2, 3, 4]));
}

#[test]
fn selector_of_three_bytes_is_malformed() {
    assert_eq!(selector(&[1, 2, 3]), Err(DecodeError::MalformedCalldata));
    assert_eq!(selector(&[]), Err(DecodeError::MalformedCalldata));
}

#[test]
fn selectors_are_compared_byte_by_byte() {
    assert!(same_selector(&[1, 2, 3, 4], &[1, 2, 3, 4]));
    assert!(!same_selector(&[1, 2, 3, 4], &[1, 2, 3, 5]));
    assert!(!same_selector(&[0, 2, 3, 4], &[1, 2, 3, 4]));
}

#[test]
fn parsed_signature_has_the_standard_selector() {
    let func = parse_signature("transfer(address,uint256)").unwrap();
    assert_eq!(func.selector, [0xa9, 0x05, 0x9c, 0xbb]);
    assert_eq!(func.inputs[0].ty, "address");
    assert_eq!(func.inputs[1].ty, "uint256");
    assert_eq!(func.signature(), "transfer(address,uint256)");
    let approve = parse_signature("approve(address,uint256)").unwrap();
    assert_eq!(approve.selector, [0x09, 0x5e, 0xa7, 0xb3]);
}

#[test]
fn parsed_signature_keeps_parameter_names() {
    let func = parse_signature("function balanceOf(address owner) view returns (uint256)").unwrap();
    assert_eq!(func.name, "balanceOf");
    assert_eq!(
        func.inputs,
        vec![Param { name: "owner".to_string(), ty: "address".to_string() }]
    );
    assert_eq!(func.selector, [0x70, 0xa0, 0x82, 0x31]);
}

#[test]
fn parsed_tuple_types_are_canonical() {
    let func = parse_signature("foo((uint256,address)[] items, bytes data)").unwrap();
    assert_eq!(func.inputs[0].ty, "(uint256,address)[]");
    assert_eq!(func.inputs[0].name, "items");
    assert_eq!(func.inputs[1].ty, "bytes");
    assert_eq!(func.signature(), "foo((uint256,address)[],bytes)");
    assert_eq!(func.selector, [0xcc, 0x8c, 0x4c, 0x7c]);
}

#[test]
fn signature_without_parameters() {
    let func = FunctionDescriptor::new("pause".to_string(), vec![]);
    assert_eq!(func.signature(), "pause()");
    assert_eq!(func, parse_signature("pause()").unwrap());
}

#[test]
fn malformed_signature_is_a_syntax_error() {
    match parse_signature("transfer(address,uint256") {
        Err(DecodeError::SignatureSyntaxError { signature, detail }) => {
            assert_eq!(signature, "transfer(address,uint256");
            assert!(!detail.is_empty());
        }
        other => panic!("unexpected: {:?}", other),
    }
    assert!(parse_signature("").is_err());
    assert!(parse_signature("()").is_err());
}

#[test]
fn syntax_error_message_names_the_text() {
    let message = parse_signature("not a signature").unwrap_err().message();
    assert!(message.starts_with("failed to parse signature 'not a signature': "));
}

#[test]
fn well_known_names_are_prefixes() {
    for text in [
        "transfer(address,uint256)",
        "approve(address,uint256)",
        "transferFrom(address,address,uint256)",
        "mint(uint256)",
        "burn(uint256)",
        "swap(uint256,uint256)",
        "swapExact(uint256)",
        "burnFrom(address,uint256)",
        "transfer",
    ] {
        assert!(has_well_known_name(text), "{}", text);
    }
    for text in [
        "many_msg_babbage(bytes1)",
        "balanceOf(address)",
        "Transfer(address,uint256)",
        "function transfer(address,uint256)",
        "transfe",
        "",
        " mint()",
    ] {
        assert!(!has_well_known_name(text), "{}", text);
    }
}

#[test]
fn prefix_test_counts_characters() {
    assert!(starts_with("héllo", "hé"));
    assert!(starts_with("abc", ""));
    assert!(starts_with("abc", "abc"));
    assert!(!starts_with("abc", "abcd"));
    assert!(!starts_with("abc", "b"));
}

#[test]
fn lookup_url_holds_the_selector_in_hex() {
    assert_eq!(
        lookup_url(&[0xa9, 0x05, 0x9c, 0xbb]),
        "https://www.4byte.directory/api/v1/signatures/?hex_signature=0xa9059cbb"
    );
    assert_eq!(
        lookup_url(&[0, 1, 0x0f, 0xf0]),
        "https://www.4byte.directory/api/v1/signatures/?hex_signature=0x00010ff0"
    );
}
