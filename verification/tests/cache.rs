use std::path::Path;
use txdecode::abi::{FunctionDescriptor, Param};
use txdecode::cache::{
    cache_dir_under, cache_path, normalize_address, read_cached_abi, render_cached_abi,
};
use txdecode::signatures::parse_signature;

#[test]
fn test_cache_path_normalization() {
    let address = "0xAbC123";
    let path = cache_path(&cache_dir_under("/home/user"), address);
    assert!(Path::new(&path).ends_with("0xabc123.json"));
}

#[test]
fn cache_dir_is_under_the_home_directory() {
    let dir = cache_dir_under("/home/user");
    assert_eq!(dir, "/home/user/.txdecode/cache");
    assert!(Path::new(&dir).ends_with(".txdecode/cache"));
}

#[test]
fn cache_path_is_exact() {
    assert_eq!(
        cache_path("/tmp/cache", "0xDAC17F958D2ee523a2206206994597C13D831ec7"),
        "/tmp/cache/0xdac17f958d2ee523a2206206994597c13d831ec7.json"
    );
}

#[test]
fn differently_cased_addresses_share_a_file() {
    let upper = cache_path("/c", "0xABCDEF0123456789ABCDEF0123456789ABCDEF01");
    let lower = cache_path("/c", "0xabcdef0123456789abcdef0123456789abcdef01");
    let mixed = cache_path("/c", "0XaBcDeF0123456789AbCdEf0123456789aBcDeF01");
    assert_eq!(upper, lower);
    assert_eq!(mixed, lower);
}

#[test]
fn normalizing_folds_ascii_letters_only() {
    assert_eq!(normalize_address("AZaz09@[`{"), "azaz09@[`{");
    assert_eq!(normalize_address(""), "");
    assert_eq!(normalize_address("0xABC"), normalize_address(&normalize_address("0xABC")));
}

#[test]
fn normalizing_other_text_follows_unicode() {
    assert_eq!(normalize_address("ÀB"), "àb");
    assert_eq!(normalize_address("ÀB"), "ÀB".to_lowercase());
}

#[test]
fn cached_abi_is_read_back_as_written() {
    let abi = vec![
        parse_signature("transfer(address to, uint256 amount)").unwrap(),
        parse_signature("foo((uint256,address)[] items, bytes)").unwrap(),
        FunctionDescriptor::new("pause".to_string(), vec![]),
    ];
    let text = render_cached_abi(&abi).unwrap();
    assert!(text.contains("\"transfer\""));
    assert!(text.contains('\n'));
    assert_eq!(read_cached_abi(&text), Some(abi));
}

#[test]
fn cache_round_trip_ignores_the_case_of_the_address() {
    let abi = vec![parse_signature("approve(address spender, uint256 amount)").unwrap()];
    let mut files: Vec<(String, String)> = Vec::new();
    files.push((
        cache_path("/c", "0xABCDEF0123456789ABCDEF0123456789ABCDEF01"),
        render_cached_abi(&abi).unwrap(),
    ));
    let wanted = cache_path("/c", "0xabcdef0123456789abcdef0123456789abcdef01");
    let found = files.iter().find(|(path, _)| *path == wanted).unwrap();
    assert_eq!(read_cached_abi(&found.1), Some(abi));
}

#[test]
fn text_that_is_no_list_of_functions_is_no_entry() {
    assert_eq!(read_cached_abi(""), None);
    assert_eq!(read_cached_abi("{}"), None);
    assert_eq!(read_cached_abi("[{\"type\":\"event\"}]"), None);
    assert_eq!(read_cached_abi("[]"), Some(vec![]));
}

#[test]
fn cache_file_with_nested_components_is_read() {
    let text = r#"[
      {
        "type": "function",
        "name": "transfer",
        "inputs": [
          { "name": "to", "type": "address", "internalType": "address" },
          { "name": "pair", "type": "tuple", "components": [
              { "name": "a", "type": "uint8" }, { "name": "b", "type": "bool[]" } ] }
        ],
        "outputs": [ { "name": "", "type": "bool" } ],
        "stateMutability": "nonpayable"
      }
    ]"#;
    let abi = read_cached_abi(text).unwrap();
    assert_eq!(abi.len(), 1);
    assert_eq!(abi[0].name, "transfer");
    assert_eq!(
        abi[0].inputs,
        vec![
            Param { name: "to".to_string(), ty: "address".to_string() },
            Param { name: "pair".to_string(), ty: "(uint8,bool[])".to_string() },
        ]
    );
    assert_eq!(abi[0], parse_signature("transfer(address to, (uint8,bool[]) pair)").unwrap());
}
