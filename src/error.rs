//! The failure taxonomy of the bridge and the text each failure is reported as.
//! Hosts branch on these texts, so each is fixed exactly.
use vstd::prelude::*;
use crate::text::{concat2, concat3, concat4};

verus! {

/// Which directory of the wallet store could not be created.
#[derive(Clone, Copy, Debug, PartialEq, Eq, Structural)]
pub enum StorageDir {
    /// The storage path itself.
    Wallet,
    /// The shielded-context directory beneath it.
    Masp,
}

/// Which part of building the RPC client failed.
#[derive(Clone, Copy, Debug, PartialEq, Eq, Structural)]
pub enum NetworkStep {
    /// The endpoint did not parse as a URL.
    Url,
    /// The HTTP client could not be built.
    Client,
}

/// Which part of setting up the SDK handle failed.
#[derive(Clone, Copy, Debug, PartialEq, Eq, Structural)]
pub enum SdkStep {
    /// The handle could not be initialised.
    Init,
    /// The chain identifier did not parse.
    ChainId,
}

/// Every way a call across the bridge can fail.
#[derive(Debug, Clone)]
pub enum BridgeError {
    /// The host handed over a null pointer.
    NullInput,
    /// The host's bytes were not valid text.
    InvalidEncoding { detail: String },
    /// The request did not have exactly three `::`-separated fields.
    MalformedRequest,
    /// A directory of the wallet store could not be created.
    StorageError { which: StorageDir, dir: String, detail: String },
    /// The mnemonic phrase was rejected.
    MnemonicError { detail: String },
    /// The execution context could not be built.
    RuntimeInitError { detail: String },
    /// The RPC client could not be built.
    NetworkError { step: NetworkStep, detail: String },
    /// The SDK execution handle could not be set up.
    SdkInitError { step: SdkStep, detail: String },
    /// The transparent key derivation for this alias produced no key.
    DerivationError { alias: String },
    /// The wallet store could not be saved.
    PersistenceError { detail: String },
    /// A panic was caught at the boundary, or a step that cannot fail in a sound
    /// wallet store did fail.
    InternalPanic { payload: String },
}

/// The text reported for a failure.
pub open spec fn error_text(e: BridgeError) -> Seq<char> {
    match e {
        BridgeError::NullInput => "Error: input pointer was null"@,
        BridgeError::InvalidEncoding { detail } => "Invalid UTF-8 input: "@ + detail@,
        BridgeError::MalformedRequest => "Expected format wallet_path::alias::seed_phrase"@,
        BridgeError::StorageError { which, dir, detail } => match which {
            StorageDir::Wallet => "Could not create wallet dir '"@ + dir@ + "': "@ + detail@,
            StorageDir::Masp => "Could not create masp dir \""@ + dir@ + "\": "@ + detail@,
        },
        BridgeError::MnemonicError { detail } => "Bad mnemonic: "@ + detail@,
        BridgeError::RuntimeInitError { detail } => "Failed to create runtime: "@ + detail@,
        BridgeError::NetworkError { step, detail } => match step {
            NetworkStep::Url => "Bad RPC URL: "@ + detail@,
            NetworkStep::Client => "HTTP client error: "@ + detail@,
        },
        BridgeError::SdkInitError { step, detail } => match step {
            SdkStep::Init => "Failed to init SDK: "@ + detail@,
            SdkStep::ChainId => "Bad chain ID: "@ + detail@,
        },
        BridgeError::DerivationError { alias } =>
            "derive_store_key_from_mnemonic_code returned None for alias '"@ + alias@ + "'"@,
        BridgeError::PersistenceError { detail } => "Save error: "@ + detail@,
        BridgeError::InternalPanic { payload } => "\u{1f4a5} Top-level panic: "@ + payload@,
    }
}

/// The fixed opening that names a failure's class in its text.
pub open spec fn class_prefix(e: BridgeError) -> Seq<char> {
    match e {
        BridgeError::NullInput => "Error: input pointer was null"@,
        BridgeError::InvalidEncoding { .. } => "Invalid UTF-8 input: "@,
        BridgeError::MalformedRequest => "Expected format wallet_path::alias::seed_phrase"@,
        BridgeError::StorageError { which, .. } => match which {
            StorageDir::Wallet => "Could not create wallet dir '"@,
            StorageDir::Masp => "Could not create masp dir \""@,
        },
        BridgeError::MnemonicError { .. } => "Bad mnemonic: "@,
        BridgeError::RuntimeInitError { .. } => "Failed to create runtime: "@,
        BridgeError::NetworkError { step, .. } => match step {
            NetworkStep::Url => "Bad RPC URL: "@,
            NetworkStep::Client => "HTTP client error: "@,
        },
        BridgeError::SdkInitError { step, .. } => match step {
            SdkStep::Init => "Failed to init SDK: "@,
            SdkStep::ChainId => "Bad chain ID: "@,
        },
        BridgeError::DerivationError { .. } =>
            "derive_store_key_from_mnemonic_code returned None for alias '"@,
        BridgeError::PersistenceError { .. } => "Save error: "@,
        BridgeError::InternalPanic { .. } => "\u{1f4a5} Top-level panic: "@,
    }
}

/// Every failure's text opens with the fixed text of its class, whatever the
/// details it carries, so a host can tell the class by the opening alone.
pub proof fn failure_text_opens_with_class(e: BridgeError)
    ensures
        class_prefix(e).len() <= error_text(e).len(),
        error_text(e).take(class_prefix(e).len() as int) == class_prefix(e),
{
    let p = class_prefix(e);
    let t = error_text(e);
    assert(t.take(p.len() as int) =~= p);
}

impl BridgeError {
    /// The human-readable text handed to the host for this failure.
    pub fn message(&self) -> (r: String)
        ensures
            r@ == error_text(*self),
    {
        match self {
            BridgeError::NullInput => "Error: input pointer was null".to_owned(),
            BridgeError::InvalidEncoding { detail } => concat2("Invalid UTF-8 input: ", detail.as_str()),
            BridgeError::MalformedRequest => "Expected format wallet_path::alias::seed_phrase".to_owned(),
            BridgeError::StorageError { which, dir, detail } => match which {
                StorageDir::Wallet => concat4(
                    "Could not create wallet dir '",
                    dir.as_str(),
                    "': ",
                    detail.as_str(),
                ),
                StorageDir::Masp => concat4(
                    "Could not create masp dir \"",
                    dir.as_str(),
                    "\": ",
                    detail.as_str(),
                ),
            },
            BridgeError::MnemonicError { detail } => concat2("Bad mnemonic: ", detail.as_str()),
            BridgeError::RuntimeInitError { detail } => concat2("Failed to create runtime: ", detail.as_str()),
            BridgeError::NetworkError { step, detail } => match step {
                NetworkStep::Url => concat2("Bad RPC URL: ", detail.as_str()),
                NetworkStep::Client => concat2("HTTP client error: ", detail.as_str()),
            },
            BridgeError::SdkInitError { step, detail } => match step {
                SdkStep::Init => concat2("Failed to init SDK: ", detail.as_str()),
                SdkStep::ChainId => concat2("Bad chain ID: ", detail.as_str()),
            },
            BridgeError::DerivationError { alias } => concat3(
                "derive_store_key_from_mnemonic_code returned None for alias '",
                alias.as_str(),
                "'",
            ),
            BridgeError::PersistenceError { detail } => concat2("Save error: ", detail.as_str()),
            BridgeError::InternalPanic { payload } => concat2("\u{1f4a5} Top-level panic: ", payload.as_str()),
        }
    }
}

} // verus!
