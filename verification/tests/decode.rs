use alloy::hex;
use txdecode::abi::{FunctionDescriptor, Param};
use txdecode::decode::{
    attempt, count_words, holds_letter, judge, run_trials, try_decode, DecodeResult, Trial,
};
use txdecode::error::DecodeError;
use txdecode::ranking::rank_candidates;
use txdecode::signatures::parse_signature;
use txdecode::value::DecodedValue;

const TRANSFER: &str = "a9059cbb0000000000000000000000000742d35cc6634c0532925a3b844bc9e7595f0beb00000000000000000000000000000000000000000000000000000000000f4240";

fn word(tail: &[u8]) -> [u8; 32] {
    let mut w = [0u8; 32];
    w[32 - tail.len()..].copy_from_slice(tail);
    w
}

fn recipient() -> [u8; 20] {
    let bytes = hex::decode("0742d35cc6634c0532925a3b844bc9e7595f0beb").unwrap();
    let mut a = [0u8; 20];
    a.copy_from_slice(&bytes);
    a
}

fn strings(items: &[&str]) -> Vec<String> {
    items.iter().map(|s| s.to_string()).collect()
}

#[test]
fn test_try_decode_transfer() {
    let sig = "transfer(address,uint256)";
    let func = parse_signature(sig).unwrap();

    let calldata = hex::decode(TRANSFER).unwrap();

    let decoded = try_decode(&func, &calldata).unwrap();
    assert_eq!(decoded.len(), 2);
}

#[test]
fn transfer_decodes_to_address_and_amount() {
    let func = parse_signature("transfer(address,uint256)").unwrap();
    let calldata = hex::decode(TRANSFER).unwrap();
    let decoded = try_decode(&func, &calldata).unwrap();
    assert_eq!(
        decoded,
        vec![
            DecodedValue::Address(recipient()),
            DecodedValue::Uint(word(&[0x0f, 0x42, 0x40]), 256),
        ]
    );
}

#[test]
fn two_parameters_need_two_words() {
    let func = parse_signature("transfer(address,uint256)").unwrap();
    let calldata =
        hex::decode("a9059cbb0000000000000000000000000742d35cc6634c0532925a3b844bc9e7595f0beb")
            .unwrap();
    match try_decode(&func, &calldata) {
        Err(DecodeError::DecodeLayout { detail }) => assert!(!detail.is_empty()),
        other => panic!("unexpected: {:?}", other),
    }
}

#[test]
fn truncated_calldata_is_refused_with_its_own_detail() {
    let func = parse_signature("transfer(address,uint256)").unwrap();
    for words in 0..2 {
        let mut calldata = func.selector.to_vec();
        calldata.extend_from_slice(&vec![0u8; 32 * words + 31 * words.min(1)]);
        assert_eq!(
            try_decode(&func, &calldata),
            Err(DecodeError::DecodeLayout {
                detail: "parameter data is shorter than one word for each declared parameter"
                    .to_string()
            })
        );
    }
    let mut enough = func.selector.to_vec();
    enough.extend_from_slice(&[0u8; 64]);
    assert!(try_decode(&func, &enough).is_ok());
}

fn unnamed(types: &[&str]) -> FunctionDescriptor {
    let inputs = types.iter().map(|ty| Param { name: String::new(), ty: ty.to_string() }).collect();
    FunctionDescriptor::new("f".to_string(), inputs)
}

#[test]
fn empty_tuples_take_no_words() {
    let func = unnamed(&["()", "()"]);
    assert_eq!(count_words(&func.inputs), 0);
    let mut calldata = func.selector.to_vec();
    assert_eq!(
        try_decode(&func, &calldata),
        Ok(vec![DecodedValue::Tuple(vec![]), DecodedValue::Tuple(vec![])])
    );
    calldata.extend_from_slice(&[0u8; 32]);
    assert_eq!(
        try_decode(&func, &calldata),
        Ok(vec![DecodedValue::Tuple(vec![]), DecodedValue::Tuple(vec![])])
    );
}

#[test]
fn parsed_empty_tuple_is_no_type_of_the_decoder() {
    let func = parse_signature("f(())").unwrap();
    assert_eq!(func.inputs[0].ty, "tuple");
    let mut calldata = func.selector.to_vec();
    calldata.extend_from_slice(&[0u8; 32]);
    assert!(matches!(try_decode(&func, &calldata), Err(DecodeError::DecodeLayout { .. })));
}

#[test]
fn words_are_counted_for_types_with_a_letter() {
    assert!(holds_letter("uint256"));
    assert!(holds_letter("(bool)[]"));
    assert!(holds_letter("Z"));
    assert!(!holds_letter("()"));
    assert!(!holds_letter("(())[3]"));
    assert!(!holds_letter(""));
    assert!(!holds_letter("é_$1"));
    let func = unnamed(&["address", "()", "bytes", "(uint8,bool)[2]", "()[]"]);
    assert_eq!(count_words(&func.inputs), 3);
}

#[test]
fn least_encodings_pass_the_word_count() {
    let cases: [(&[&str], usize); 6] = [
        (&["bytes"], 2),
        (&["uint8[]"], 2),
        (&["string", "bytes"], 4),
        (&["(uint8,bool)"], 2),
        (&["uint8[3]"], 3),
        (&["()", "uint8"], 1),
    ];
    for (types, words) in cases {
        let func = unnamed(types);
        let mut calldata = func.selector.to_vec();
        let mut body = vec![0u8; 32 * words];
        if types.len() == 1 && (types[0] == "bytes" || types[0] == "uint8[]") {
            body[31] = 0x20;
        }
        if types.len() == 2 && types[0] == "string" {
            body[31] = 0x40;
            body[63] = 0x60;
        }
        calldata.extend_from_slice(&body);
        assert!(try_decode(&func, &calldata).is_ok(), "{:?}", types);
    }
}

#[test]
fn selector_alone_decodes_against_no_parameters() {
    let func = parse_signature("pause()").unwrap();
    assert_eq!(try_decode(&func, &[0x84, 0x56, 0xcb, 0x59]), Ok(vec![]));
}

#[test]
fn calldata_without_selector_is_malformed() {
    let func = parse_signature("pause()").unwrap();
    assert_eq!(try_decode(&func, &[0x84, 0x56, 0xcb]), Err(DecodeError::MalformedCalldata));
    assert_eq!(try_decode(&func, &[]), Err(DecodeError::MalformedCalldata));
}

#[test]
fn unknown_type_is_a_layout_failure() {
    let func = FunctionDescriptor::new(
        "f".to_string(),
        vec![Param { name: String::new(), ty: "Widget".to_string() }],
    );
    let mut calldata = func.selector.to_vec();
    calldata.extend_from_slice(&[0u8; 32]);
    assert!(matches!(try_decode(&func, &calldata), Err(DecodeError::DecodeLayout { .. })));
}

#[test]
fn dynamic_values_are_decoded_item_by_item() {
    let func = parse_signature("f(bool,bytes,string,uint8[],(int256,bytes4)[2])").unwrap();
    let body = [
        "0000000000000000000000000000000000000000000000000000000000000001",
        "0000000000000000000000000000000000000000000000000000000000000120",
        "0000000000000000000000000000000000000000000000000000000000000160",
        "00000000000000000000000000000000000000000000000000000000000001a0",
        "ffffffffffffffffffffffffffffffffffffffffffffffffffffffffffffffff",
        "deadbeef00000000000000000000000000000000000000000000000000000000",
        "0000000000000000000000000000000000000000000000000000000000000002",
        "0102030400000000000000000000000000000000000000000000000000000000",
        "0000000000000000000000000000000000000000000000000000000000000003",
        "0000000000000000000000000000000000000000000000000000000000000003",
        "abcdef0000000000000000000000000000000000000000000000000000000000",
        "0000000000000000000000000000000000000000000000000000000000000002",
        "6869000000000000000000000000000000000000000000000000000000000000",
        "0000000000000000000000000000000000000000000000000000000000000002",
        "0000000000000000000000000000000000000000000000000000000000000007",
        "0000000000000000000000000000000000000000000000000000000000000009",
    ]
    .join("");
    let mut calldata = func.selector.to_vec();
    calldata.extend_from_slice(&hex::decode(&body).unwrap());
    let mut tag = [0u8; 32];
    tag[..4].copy_from_slice(&[0xde, 0xad, 0xbe, 0xef]);
    let mut tag2 = [0u8; 32];
    tag2[..4].copy_from_slice(&[1, 2, 3, 4]);
    assert_eq!(
        try_decode(&func, &calldata),
        Ok(vec![
            DecodedValue::Bool(true),
            DecodedValue::Bytes(vec![0xab, 0xcd, 0xef]),
            DecodedValue::String("hi".to_string()),
            DecodedValue::Array(vec![
                DecodedValue::Uint(word(&[7]), 8),
                DecodedValue::Uint(word(&[9]), 8),
            ]),
            DecodedValue::FixedArray(vec![
                DecodedValue::Tuple(vec![
                    DecodedValue::Int([0xff; 32], 256),
                    DecodedValue::FixedBytes(tag, 4),
                ]),
                DecodedValue::Tuple(vec![
                    DecodedValue::Int(word(&[2]), 256),
                    DecodedValue::FixedBytes(tag2, 4),
                ]),
            ]),
        ])
    );
}

#[test]
fn trial_of_a_fitting_candidate_succeeds() {
    let calldata = hex::decode(TRANSFER).unwrap();
    match attempt("transfer(address,uint256)", &calldata) {
        Trial::Success(DecodeResult { function, values }) => {
            assert_eq!(function.name, "transfer");
            assert_eq!(function.selector, [0xa9, 0x05, 0x9c, 0xbb]);
            assert_eq!(values.len(), 2);
        }
        other => panic!("unexpected: {:?}", other),
    }
}

#[test]
fn trial_of_a_malformed_candidate_is_a_parse_error() {
    let calldata = hex::decode(TRANSFER).unwrap();
    assert!(matches!(
        attempt("transfer(address,", &calldata),
        Trial::ParseError(DecodeError::SignatureSyntaxError { .. })
    ));
}

#[test]
fn trial_of_another_selector_is_refused() {
    let calldata = hex::decode(TRANSFER).unwrap();
    assert_eq!(attempt("swapExact(uint256)", &calldata), Trial::WrongSelector);
    assert_eq!(attempt("approve(address,uint256)", &calldata), Trial::WrongSelector);
    assert_eq!(attempt("transfer(address,uint256)", &[0xa9, 0x05, 0x9c]), Trial::WrongSelector);
}

#[test]
fn trial_that_does_not_fit_is_a_decode_error() {
    let calldata = hex::decode(TRANSFER).unwrap();
    assert!(matches!(
        attempt("transfer(bytes4[9],bytes5[6],int48[11])", &calldata),
        Trial::DecodeError(DecodeError::DecodeLayout { .. })
    ));
}

#[test]
fn judging_compares_the_stored_selector() {
    let calldata = hex::decode(TRANSFER).unwrap();
    let mut function = parse_signature("transfer(address,uint256)").unwrap();
    function.selector = [0, 0, 0, 0];
    assert_eq!(judge(function, &calldata), Trial::WrongSelector);
}

#[test]
fn first_fitting_candidate_wins() {
    let calldata = hex::decode(TRANSFER).unwrap();
    let order = strings(&[
        "broken(",
        "swapExact(uint256)",
        "transfer(bytes4[9],bytes5[6],int48[11])",
        "join_tg_invmru_haha_fd06787(address,bool)",
        "transfer(address,uint256)",
    ]);
    let decoded = run_trials(&order, &calldata).unwrap();
    assert_eq!(decoded.function.name, "join_tg_invmru_haha_fd06787");
    assert_eq!(
        decoded.values,
        vec![DecodedValue::Address(recipient()), DecodedValue::Bool(true)]
    );
}

#[test]
fn no_fitting_candidate_gives_nothing() {
    let calldata = hex::decode(TRANSFER).unwrap();
    assert_eq!(run_trials(&strings(&["broken(", "swapExact(uint256)"]), &calldata), None);
    assert_eq!(run_trials(&vec![], &calldata), None);
}

#[test]
fn ranking_puts_well_known_names_first_and_keeps_order() {
    let ranked = rank_candidates(&strings(&[
        "many_msg_babbage(bytes1)",
        "transfer(address,uint256)",
        "zzz()",
        "swapExact(uint256)",
        "aaa()",
        "burn(uint256)",
    ]));
    assert_eq!(
        ranked,
        strings(&[
            "transfer(address,uint256)",
            "swapExact(uint256)",
            "burn(uint256)",
            "many_msg_babbage(bytes1)",
            "zzz()",
            "aaa()",
        ])
    );
}

#[test]
fn ranking_keeps_every_candidate() {
    let candidates = strings(&["b()", "mint()", "b()", "a()", "mint()"]);
    let ranked = rank_candidates(&candidates);
    assert_eq!(ranked, strings(&["mint()", "mint()", "b()", "b()", "a()"]));
    assert_eq!(rank_candidates(&ranked), ranked);
    assert_eq!(rank_candidates(&vec![]), Vec::<String>::new());
}
