use namada_bridge::error::BridgeError;
use namada_bridge::request::{parse_request, read_request, split_on_delimiter, WalletRequest};

fn parsed(s: &str) -> WalletRequest {
    match parse_request(s) {
        Ok(r) => r,
        Err(e) => panic!("unexpected error {:?}", e),
    }
}

#[test]
fn two_fields_are_malformed() {
    let r = parse_request("/tmp/w::alias");
    assert!(matches!(r, Err(BridgeError::MalformedRequest)));
    assert_eq!(
        r.unwrap_err().message(),
        "Expected format wallet_path::alias::seed_phrase"
    );
}

#[test]
fn three_fields_are_read_in_order() {
    let r = parsed("/tmp/w::alice::park remain person");
    assert_eq!(r.storage_path, "/tmp/w");
    assert_eq!(r.alias, "alice");
    assert_eq!(r.mnemonic_phrase, "park remain person");
}

#[test]
fn four_fields_are_malformed() {
    assert!(matches!(parse_request("a::b::c::d"), Err(BridgeError::MalformedRequest)));
}

#[test]
fn empty_request_is_malformed() {
    assert!(matches!(parse_request(""), Err(BridgeError::MalformedRequest)));
}

#[test]
fn empty_fields_are_kept() {
    let r = parsed("::::");
    assert_eq!(r.storage_path, "");
    assert_eq!(r.alias, "");
    assert_eq!(r.mnemonic_phrase, "");
}

#[test]
fn delimiters_do_not_overlap() {
    assert_eq!(split_on_delimiter(":::"), vec!["".to_string(), ":".to_string()]);
    assert_eq!(
        split_on_delimiter("a:::b::c"),
        vec!["a".to_string(), ":b".to_string(), "c".to_string()]
    );
    let r = parsed("a:::b::c");
    assert_eq!(r.alias, ":b");
}

#[test]
fn split_matches_std_split() {
    for s in ["", "x", "::", "a::b", "a:b::c:", "é::ü::ß", "::::::", "a::::b"] {
        let ours = split_on_delimiter(s);
        let theirs: Vec<String> = s.split("::").map(|p| p.to_string()).collect();
        assert_eq!(ours, theirs, "input {:?}", s);
    }
}

#[test]
fn null_input_is_reported() {
    let r = read_request(None);
    assert!(matches!(r, Err(BridgeError::NullInput)));
    assert_eq!(r.unwrap_err().message(), "Error: input pointer was null");
}

#[test]
fn invalid_encoding_is_reported() {
    let r = read_request(Some(Err("bad byte".to_string())));
    assert_eq!(r.unwrap_err().message(), "Invalid UTF-8 input: bad byte");
}

#[test]
fn read_request_parses_text() {
    let r = read_request(Some(Ok("p::a::m"))).unwrap();
    assert_eq!(r.storage_path, "p");
    assert_eq!(r.alias, "a");
    assert_eq!(r.mnemonic_phrase, "m");
    assert!(matches!(read_request(Some(Ok("p::a"))), Err(BridgeError::MalformedRequest)));
}

#[test]
fn derived_names_and_dirs() {
    let r = parsed("/tmp/w::alice::x");
    assert_eq!(r.masp_dir(), "/tmp/w/masp");
    assert_eq!(r.wallet_dir(), "/tmp/w/sdk-wallet");
    assert_eq!(r.shielded_alias(), "alice_shielded");
    assert_eq!(r.payment_alias(), "alice_shielded_payment");
}

#[test]
fn dirs_of_empty_storage_path_stay_relative() {
    let r = parsed("::alice::x");
    assert_eq!(r.masp_dir(), "masp");
    assert_eq!(r.wallet_dir(), "sdk-wallet");
}

#[test]
fn dirs_of_storage_path_with_trailing_slash() {
    let r = parsed("/tmp/w/::alice::x");
    assert_eq!(r.masp_dir(), "/tmp/w/masp");
    assert_eq!(r.wallet_dir(), "/tmp/w/sdk-wallet");
}
