//! The derivation pipeline as a state machine: each call hands back the next
//! action for the caller to perform, and the caller reports how it went.
//! Storage, the environment, the execution context, the network and the wallet
//! store are driven by the caller; the order of steps and every decision are here.
use vstd::prelude::*;
use crate::error::{BridgeError, NetworkStep, SdkStep, StorageDir};
use crate::mnemonic::{check_phrase, phrase_rejection};
use crate::request::{
    masp_dir_of, payment_alias_of, read_request, request_fields, shielded_alias_of, wallet_dir_of,
    WalletRequest,
};
use crate::text::concat3;

verus! {

/// The RPC endpoint the SDK context is bound to.
pub const RPC_URL: &'static str = "https://rpc.namada.tududes.com";

/// The chain the SDK context is bound to.
pub const CHAIN_ID: &'static str = "namada.5f5de2dd1b88cba30586420";

/// The step the pipeline waits on.
#[derive(Clone, Copy, Debug, PartialEq, Eq, Structural)]
pub enum Stage {
    CreateStorageDir,
    CreateMaspDir,
    SetMaspParamsDir,
    StartRuntime,
    ParseRpcUrl,
    ConnectRpc,
    InitSdk,
    BindChain,
    DeriveTransparentKey,
    DeriveSpendingKey,
    FindViewingKey,
    InsertPaymentAddress,
    SaveWallet,
    Finished,
}

/// What the caller is asked to do next.
#[derive(Debug)]
pub enum Action {
    /// Create this directory and its parents; an existing one is fine.
    CreateDir { path: String },
    /// Point the shielded-pool parameters at this directory.
    SetMaspParamsDir { value: String },
    /// Build the single-threaded execution context.
    StartRuntime,
    /// Parse this RPC endpoint.
    ParseRpcUrl { url: String },
    /// Build the HTTP client for the parsed endpoint.
    ConnectRpc,
    /// Initialise the SDK handle over these stores.
    InitSdk { wallet_dir: String, masp_dir: String },
    /// Bind the SDK handle to this chain.
    BindChain { chain_id: String },
    /// Derive and store the transparent key under this alias, empty passphrase.
    DeriveTransparentKey { alias: String },
    /// Derive and store the shielded spending key under this alias.
    DeriveSpendingKey { alias: String },
    /// Look up the viewing key of the spending key stored under this alias.
    FindViewingKey { alias: String },
    /// Find a diversifier for that viewing key and store the payment address.
    InsertPaymentAddress { alias: String },
    /// Save the wallet store to disk.
    SaveWallet,
    /// The call is over, with this outcome.
    Finish { outcome: Result<String, BridgeError> },
}

/// How the caller's attempt at an action went.
#[derive(Debug)]
pub enum Event {
    Done,
    /// The transparent key derivation produced no key.
    Declined,
    Failed { detail: String },
}

/// The step that follows a step that went well.
pub open spec fn next_stage(s: Stage) -> Stage {
    match s {
        Stage::CreateStorageDir => Stage::CreateMaspDir,
        Stage::CreateMaspDir => Stage::SetMaspParamsDir,
        Stage::SetMaspParamsDir => Stage::StartRuntime,
        Stage::StartRuntime => Stage::ParseRpcUrl,
        Stage::ParseRpcUrl => Stage::ConnectRpc,
        Stage::ConnectRpc => Stage::InitSdk,
        Stage::InitSdk => Stage::BindChain,
        Stage::BindChain => Stage::DeriveTransparentKey,
        Stage::DeriveTransparentKey => Stage::DeriveSpendingKey,
        Stage::DeriveSpendingKey => Stage::FindViewingKey,
        Stage::FindViewingKey => Stage::InsertPaymentAddress,
        Stage::InsertPaymentAddress => Stage::SaveWallet,
        Stage::SaveWallet => Stage::Finished,
        Stage::Finished => Stage::Finished,
    }
}

/// `a` is the action that performs step `s` of request `req`.
pub open spec fn action_fits(a: Action, s: Stage, req: WalletRequest) -> bool {
    match s {
        Stage::CreateStorageDir => a matches Action::CreateDir { path } && path@
            == req.storage_path@,
        Stage::CreateMaspDir => a matches Action::CreateDir { path } && path@ == masp_dir_of(
            req.storage_path@,
        ),
        Stage::SetMaspParamsDir => a matches Action::SetMaspParamsDir { value } && value@
            == masp_dir_of(req.storage_path@),
        Stage::StartRuntime => a is StartRuntime,
        Stage::ParseRpcUrl => a matches Action::ParseRpcUrl { url } && url@ == RPC_URL@,
        Stage::ConnectRpc => a is ConnectRpc,
        Stage::InitSdk => a matches Action::InitSdk { wallet_dir, masp_dir } && wallet_dir@
            == wallet_dir_of(req.storage_path@) && masp_dir@ == masp_dir_of(req.storage_path@),
        Stage::BindChain => a matches Action::BindChain { chain_id } && chain_id@ == CHAIN_ID@,
        Stage::DeriveTransparentKey => a matches Action::DeriveTransparentKey { alias } && alias@
            == req.alias@,
        Stage::DeriveSpendingKey => a matches Action::DeriveSpendingKey { alias } && alias@
            == shielded_alias_of(req.alias@),
        Stage::FindViewingKey => a matches Action::FindViewingKey { alias } && alias@
            == shielded_alias_of(req.alias@),
        Stage::InsertPaymentAddress => a matches Action::InsertPaymentAddress { alias } && alias@
            == payment_alias_of(req.alias@),
        Stage::SaveWallet => a is SaveWallet,
        Stage::Finished => false,
    }
}

/// What a declined or failed step reports as its cause.
pub open spec fn cause_of(ev: Event) -> Seq<char> {
    match ev {
        Event::Failed { detail } => detail@,
        _ => "declined"@,
    }
}

/// `e` is the failure reported when step `s` of `req` went wrong with `ev`.
/// The transparent key step reports the alias it produced no key for. The
/// shielded steps (spending key, viewing key, payment address) cannot fail in a
/// sound wallet store, so their failure is reported as an internal one.
pub open spec fn failure_fits(e: BridgeError, s: Stage, ev: Event, req: WalletRequest) -> bool {
    let cause = cause_of(ev);
    match s {
        Stage::CreateStorageDir => e matches BridgeError::StorageError { which, dir, detail }
            && which == StorageDir::Wallet && dir@ == req.storage_path@ && detail@ == cause,
        Stage::CreateMaspDir | Stage::SetMaspParamsDir => e matches BridgeError::StorageError {
            which,
            dir,
            detail,
        } && which == StorageDir::Masp && dir@ == masp_dir_of(req.storage_path@) && detail@
            == cause,
        Stage::StartRuntime => e matches BridgeError::RuntimeInitError { detail } && detail@
            == cause,
        Stage::ParseRpcUrl => e matches BridgeError::NetworkError { step, detail } && step
            == NetworkStep::Url && detail@ == cause,
        Stage::ConnectRpc => e matches BridgeError::NetworkError { step, detail } && step
            == NetworkStep::Client && detail@ == cause,
        Stage::InitSdk => e matches BridgeError::SdkInitError { step, detail } && step
            == SdkStep::Init && detail@ == cause,
        Stage::BindChain => e matches BridgeError::SdkInitError { step, detail } && step
            == SdkStep::ChainId && detail@ == cause,
        Stage::SaveWallet => e matches BridgeError::PersistenceError { detail } && detail@
            == cause,
        Stage::DeriveTransparentKey => e matches BridgeError::DerivationError { alias } && alias@
            == req.alias@,
        _ => e matches BridgeError::InternalPanic { payload } && payload@ == cause,
    }
}

/// The success text, naming the alias.
pub open spec fn success_text(alias: Seq<char>) -> Seq<char> {
    "Derived & saved wallet '"@ + alias + "'"@
}

/// Steps that come after the phrase check and before the end.
pub open spec fn past_phrase_check(s: Stage) -> bool {
    s != Stage::CreateStorageDir && s != Stage::CreateMaspDir && s != Stage::SetMaspParamsDir
        && s != Stage::Finished
}

/// Actions that come after the phrase check: the execution context, the network,
/// the wallet store, and a successful end.
pub open spec fn needs_accepted_phrase(a: Action) -> bool {
    !(a is CreateDir || a is SetMaspParamsDir || a matches Action::Finish { outcome: Err(_) })
}

/// One derivation request on its way through the pipeline.
pub struct Derivation {
    stage: Stage,
    request: WalletRequest,
    mnemonic: Option<bip39::Mnemonic>,
}

impl Derivation {
    /// Every step past the phrase check holds the mnemonic of an accepted phrase.
    #[verifier::type_invariant]
    spec fn phrase_checked(self) -> bool {
        past_phrase_check(self.stage) ==> self.mnemonic is Some && phrase_rejection(
            self.request.mnemonic_phrase@,
        ) is None
    }
}

/// The action performing step `s` of `req`.
fn action_for(s: Stage, req: &WalletRequest) -> (r: Action)
    requires
        s != Stage::Finished,
    ensures
        action_fits(r, s, *req),
{
    match s {
        Stage::CreateStorageDir => Action::CreateDir { path: req.storage_path.clone() },
        Stage::CreateMaspDir => Action::CreateDir { path: req.masp_dir() },
        Stage::SetMaspParamsDir => Action::SetMaspParamsDir { value: req.masp_dir() },
        Stage::StartRuntime => Action::StartRuntime,
        Stage::ParseRpcUrl => Action::ParseRpcUrl { url: RPC_URL.to_owned() },
        Stage::ConnectRpc => Action::ConnectRpc,
        Stage::InitSdk => Action::InitSdk { wallet_dir: req.wallet_dir(), masp_dir: req.masp_dir() },
        Stage::BindChain => Action::BindChain { chain_id: CHAIN_ID.to_owned() },
        Stage::DeriveTransparentKey => Action::DeriveTransparentKey { alias: req.alias.clone() },
        Stage::DeriveSpendingKey => Action::DeriveSpendingKey { alias: req.shielded_alias() },
        Stage::FindViewingKey => Action::FindViewingKey { alias: req.shielded_alias() },
        Stage::InsertPaymentAddress => Action::InsertPaymentAddress { alias: req.payment_alias() },
        _ => Action::SaveWallet,
    }
}

/// The failure for step `s` of `req` that went wrong with `ev`.
fn failure_for(s: Stage, ev: Event, req: &WalletRequest) -> (r: BridgeError)
    requires
        !(ev is Done),
    ensures
        failure_fits(r, s, ev, *req),
{
    let cause = match ev {
        Event::Failed { detail } => detail,
        _ => "declined".to_owned(),
    };
    match s {
        Stage::CreateStorageDir => BridgeError::StorageError {
            which: StorageDir::Wallet,
            dir: req.storage_path.clone(),
            detail: cause,
        },
        Stage::CreateMaspDir | Stage::SetMaspParamsDir => BridgeError::StorageError {
            which: StorageDir::Masp,
            dir: req.masp_dir(),
            detail: cause,
        },
        Stage::StartRuntime => BridgeError::RuntimeInitError { detail: cause },
        Stage::ParseRpcUrl => BridgeError::NetworkError { step: NetworkStep::Url, detail: cause },
        Stage::ConnectRpc => BridgeError::NetworkError { step: NetworkStep::Client, detail: cause },
        Stage::InitSdk => BridgeError::SdkInitError { step: SdkStep::Init, detail: cause },
        Stage::BindChain => BridgeError::SdkInitError { step: SdkStep::ChainId, detail: cause },
        Stage::SaveWallet => BridgeError::PersistenceError { detail: cause },
        Stage::DeriveTransparentKey => BridgeError::DerivationError { alias: req.alias.clone() },
        _ => BridgeError::InternalPanic { payload: cause },
    }
}

/// The success text for `alias`.
pub fn success_message(alias: &str) -> (r: String)
    ensures
        r@ == success_text(alias@),
{
    concat3("Derived & saved wallet '", alias, "'")
}

impl Derivation {
    /// The step the pipeline waits on.
    pub closed spec fn stage(self) -> Stage {
        self.stage
    }

    /// The request being served.
    pub closed spec fn request(self) -> WalletRequest {
        self.request
    }

    /// The phrase was accepted and its mnemonic is held.
    pub closed spec fn has_mnemonic(self) -> bool {
        self.mnemonic is Some
    }

    /// A fresh pipeline for `request`, waiting on its first step.
    pub fn new(request: WalletRequest) -> (r: Derivation)
        ensures
            r.stage() == Stage::CreateStorageDir,
            r.request() == request,
            !r.has_mnemonic(),
    {
        Derivation { stage: Stage::CreateStorageDir, request, mnemonic: None }
    }

    /// Reads what the host handed over and, only when it is a request of three
    /// fields, starts a pipeline for it together with its first action. Any other
    /// input ends the call at once: no directory, environment, network or store
    /// action is ever handed out for it.
    pub fn begin(input: Option<Result<&str, String>>) -> (r: Result<(Derivation, Action), BridgeError>)
        ensures
            match input {
                None => r matches Err(e) && e == BridgeError::NullInput,
                Some(Err(d)) => r matches Err(e) && e == BridgeError::InvalidEncoding { detail: d },
                Some(Ok(s)) => match r {
                    Ok((d, a)) => {
                        &&& request_fields(s@) == Some(
                            (
                                d.request().storage_path@,
                                d.request().alias@,
                                d.request().mnemonic_phrase@,
                            ),
                        )
                        &&& d.stage() == Stage::CreateStorageDir
                        &&& action_fits(a, Stage::CreateStorageDir, d.request())
                    },
                    Err(e) => request_fields(s@) is None && e == BridgeError::MalformedRequest,
                },
            },
    {
        let request = read_request(input)?;
        let d = Derivation::new(request);
        let a = d.current_action();
        Ok((d, a))
    }

    /// The pipeline has produced its outcome.
    pub fn is_finished(&self) -> (r: bool)
        ensures
            r == (self.stage() == Stage::Finished),
    {
        self.stage == Stage::Finished
    }

    /// The request being served.
    pub fn request_ref(&self) -> (r: &WalletRequest)
        ensures
            *r == self.request(),
    {
        &self.request
    }

    /// The accepted mnemonic, once the phrase has been checked.
    pub fn mnemonic(&self) -> (r: Option<&bip39::Mnemonic>)
        ensures
            r is Some == self.has_mnemonic(),
    {
        match &self.mnemonic {
            Some(m) => Some(m),
            None => None,
        }
    }

    /// The action for the step the pipeline waits on.
    pub fn current_action(&self) -> (r: Action)
        requires
            self.stage() != Stage::Finished,
        ensures
            action_fits(r, self.stage(), self.request()),
            needs_accepted_phrase(r) ==> phrase_rejection(self.request().mnemonic_phrase@) is None,
    {
        proof {
            use_type_invariant(self);
        }
        action_for(self.stage, &self.request)
    }

    /// Takes the caller's report on the current action and hands back the next one.
    /// A step that went well moves on; the phrase is checked once the directories
    /// and the parameter location are in place; any declined or failed step ends
    /// the call with the failure of that step; a saved wallet ends it with success.
    pub fn advance(&mut self, ev: Event) -> (r: Action)
        requires
            old(self).stage() != Stage::Finished,
        ensures
            final(self).request() == old(self).request(),
            old(self).has_mnemonic() ==> final(self).has_mnemonic(),
            needs_accepted_phrase(r) ==> phrase_rejection(old(self).request().mnemonic_phrase@) is None,
            ({
                let s = old(self).stage();
                let req = old(self).request();
                if !(ev is Done) {
                    &&& final(self).stage() == Stage::Finished
                    &&& r matches Action::Finish { outcome: Err(e) } && failure_fits(e, s, ev, req)
                } else if s == Stage::SaveWallet {
                    &&& final(self).stage() == Stage::Finished
                    &&& r matches Action::Finish { outcome: Ok(m) } && m@ == success_text(req.alias@)
                } else if s == Stage::SetMaspParamsDir && phrase_rejection(
                    req.mnemonic_phrase@,
                ) is Some {
                    &&& final(self).stage() == Stage::Finished
                    &&& r matches Action::Finish { outcome: Err(BridgeError::MnemonicError { detail }) }
                        && Some(detail@) == phrase_rejection(req.mnemonic_phrase@)
                } else {
                    &&& final(self).stage() == next_stage(s)
                    &&& action_fits(r, next_stage(s), req)
                    &&& s == Stage::SetMaspParamsDir ==> final(self).has_mnemonic()
                }
            }),
    {
        proof {
            use_type_invariant(&*self);
        }
        let s = self.stage;
        if !matches!(ev, Event::Done) {
            let e = failure_for(s, ev, &self.request);
            self.stage = Stage::Finished;
            return Action::Finish { outcome: Err(e) };
        }
        if s == Stage::SaveWallet {
            self.stage = Stage::Finished;
            return Action::Finish { outcome: Ok(success_message(self.request.alias.as_str())) };
        }
        if s == Stage::SetMaspParamsDir {
            match check_phrase(self.request.mnemonic_phrase.as_str()) {
                Ok(m) => {
                    self.mnemonic = Some(m);
                },
                Err(detail) => {
                    self.stage = Stage::Finished;
                    return Action::Finish {
                        outcome: Err(BridgeError::MnemonicError { detail }),
                    };
                },
            }
        }
        let next = match s {
            Stage::CreateStorageDir => Stage::CreateMaspDir,
            Stage::CreateMaspDir => Stage::SetMaspParamsDir,
            Stage::SetMaspParamsDir => Stage::StartRuntime,
            Stage::StartRuntime => Stage::ParseRpcUrl,
            Stage::ParseRpcUrl => Stage::ConnectRpc,
            Stage::ConnectRpc => Stage::InitSdk,
            Stage::InitSdk => Stage::BindChain,
            Stage::BindChain => Stage::DeriveTransparentKey,
            Stage::DeriveTransparentKey => Stage::DeriveSpendingKey,
            Stage::DeriveSpendingKey => Stage::FindViewingKey,
            Stage::FindViewingKey => Stage::InsertPaymentAddress,
            _ => Stage::SaveWallet,
        };
        self.stage = next;
        action_for(next, &self.request)
    }
}

} // verus!
