use namada_bridge::error::{BridgeError, NetworkStep, SdkStep, StorageDir};
use namada_bridge::log_debug;
use namada_bridge::outcome::{contain, host_text};
use namada_bridge::wallet::success_message;

#[test]
fn error_texts() {
    let d = || "why".to_string();
    let cases = vec![
        (
            BridgeError::StorageError { which: StorageDir::Wallet, dir: "/x".to_string(), detail: d() },
            "Could not create wallet dir '/x': why",
        ),
        (
            BridgeError::StorageError { which: StorageDir::Masp, dir: "/x/masp".to_string(), detail: d() },
            "Could not create masp dir \"/x/masp\": why",
        ),
        (BridgeError::MnemonicError { detail: d() }, "Bad mnemonic: why"),
        (BridgeError::RuntimeInitError { detail: d() }, "Failed to create runtime: why"),
        (BridgeError::NetworkError { step: NetworkStep::Url, detail: d() }, "Bad RPC URL: why"),
        (BridgeError::NetworkError { step: NetworkStep::Client, detail: d() }, "HTTP client error: why"),
        (BridgeError::SdkInitError { step: SdkStep::Init, detail: d() }, "Failed to init SDK: why"),
        (BridgeError::SdkInitError { step: SdkStep::ChainId, detail: d() }, "Bad chain ID: why"),
        (
            BridgeError::DerivationError { alias: "bob".to_string() },
            "derive_store_key_from_mnemonic_code returned None for alias 'bob'",
        ),
        (BridgeError::PersistenceError { detail: d() }, "Save error: why"),
        (BridgeError::InternalPanic { payload: d() }, "\u{1f4a5} Top-level panic: why"),
    ];
    for (e, text) in cases {
        assert_eq!(e.message(), text);
    }
}

#[test]
fn success_text_names_alias() {
    let m = success_message("alice");
    assert_eq!(m, "Derived & saved wallet 'alice'");
    assert!(m.contains("alice"));
}

#[test]
fn contain_passes_success_through() {
    assert_eq!(contain(Ok(Ok("done".to_string()))), "done");
}

#[test]
fn contain_reports_step_error() {
    assert_eq!(
        contain(Ok(Err(BridgeError::PersistenceError { detail: "disk full".to_string() }))),
        "Save error: disk full"
    );
}

#[test]
fn contain_reports_panic() {
    assert_eq!(contain(Err(Some("boom".to_string()))), "\u{1f4a5} Top-level panic: boom");
    assert_eq!(
        contain(Err(None)),
        "\u{1f4a5} Top-level panic: unknown panic payload"
    );
}

#[test]
fn host_text_refuses_nul() {
    assert_eq!(host_text("fine".to_string()), "fine");
    assert_eq!(host_text("".to_string()), "");
    assert_eq!(host_text("a\0b".to_string()), "Internal error: null byte in output");
}

#[test]
fn log_hook_accepts_any_text() {
    log_debug("namada", "starting");
}
