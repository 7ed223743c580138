//! Failure containment: every way a call can end becomes one text for the host.
use vstd::prelude::*;
use crate::error::{error_text, BridgeError};
use crate::wallet::success_text;
use vstd::string::StrSliceExecFns;

verus! {

/// Payload text used when a caught panic carried no text.
pub const UNKNOWN_PANIC: &'static str = "unknown panic payload";

/// Text handed over instead of one that holds a NUL, which the host cannot receive.
pub const NUL_IN_OUTPUT: &'static str = "Internal error: null byte in output";

/// The text for a call that returned `Ok(r)` or panicked with `Err(payload)`.
pub open spec fn contained_text(
    run: Result<Result<Seq<char>, BridgeError>, Option<Seq<char>>>,
) -> Seq<char> {
    match run {
        Ok(Ok(m)) => m,
        Ok(Err(e)) => error_text(e),
        Err(Some(p)) => "\u{1f4a5} Top-level panic: "@ + p,
        Err(None) => "\u{1f4a5} Top-level panic: "@ + UNKNOWN_PANIC@,
    }
}

/// The views of a call's outcome.
pub open spec fn run_view(
    run: Result<Result<String, BridgeError>, Option<String>>,
) -> Result<Result<Seq<char>, BridgeError>, Option<Seq<char>>> {
    match run {
        Ok(Ok(m)) => Ok(Ok(m@)),
        Ok(Err(e)) => Ok(Err(e)),
        Err(Some(p)) => Err(Some(p@)),
        Err(None) => Err(None),
    }
}

/// Turns the outcome of a call, or the payload of a panic caught around it, into
/// the one text handed back: an error reported by a step wins over everything
/// downstream of it, a panic over a success that was never reached.
pub fn contain(run: Result<Result<String, BridgeError>, Option<String>>) -> (r: String)
    ensures
        r@ == contained_text(run_view(run)),
{
    match run {
        Ok(Ok(m)) => m,
        Ok(Err(e)) => e.message(),
        Err(Some(payload)) => BridgeError::InternalPanic { payload }.message(),
        Err(None) => BridgeError::InternalPanic { payload: UNKNOWN_PANIC.to_owned() }.message(),
    }
}

/// `s` holds a NUL character.
pub open spec fn has_nul(s: Seq<char>) -> bool {
    exists|i: int| 0 <= i < s.len() && s[i] == '\0'
}

/// `s` when the host can receive it, else the fixed internal-error text.
pub fn host_text(s: String) -> (r: String)
    ensures
        r@ == if has_nul(s@) {
            NUL_IN_OUTPUT@
        } else {
            s@
        },
{
    let n = s.as_str().unicode_len();
    let mut i: usize = 0;
    while i < n
        invariant
            n == s@.len(),
            i <= n,
            forall|j: int| 0 <= j < i ==> s@[j] != '\0',
        decreases n - i,
    {
        if s.as_str().get_char(i) == '\0' {
            return NUL_IN_OUTPUT.to_owned();
        }
        i = i + 1;
    }
    s
}

/// A finished derivation's text either names the requested alias, right after
/// the fixed opening of the success text, or is the text of one failure.
pub proof fn finished_text_names_alias_or_failure(
    alias: Seq<char>,
    outcome: Result<Seq<char>, BridgeError>,
)
    requires
        outcome matches Ok(m) ==> m == success_text(alias),
    ensures
        outcome is Ok ==> contained_text(Ok(outcome)).subrange(24, 24 + alias.len() as int)
            == alias,
        outcome matches Err(e) ==> contained_text(Ok(outcome)) == error_text(e),
{
    reveal_strlit("Derived & saved wallet '");
    assert(success_text(alias).subrange(24, 24 + alias.len() as int) =~= alias);
}

} // verus!
