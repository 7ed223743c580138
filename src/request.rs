//! The host's derivation request: `storage_path::alias::mnemonic_phrase`.
use vstd::prelude::*;
use vstd::string::StrSliceExecFns;
use crate::error::BridgeError;
use crate::text::{concat2, concat3};

verus! {

broadcast use vstd::string::group_string_axioms;

/// A `::` delimiter starts at position `i` of `s`.
pub open spec fn delim_at(s: Seq<char>, i: int) -> bool {
    0 <= i && i + 1 < s.len() && s[i] == ':' && s[i + 1] == ':'
}

/// The first position at or after `i` where a delimiter starts, or `s.len()`.
pub open spec fn find_delim(s: Seq<char>, i: int) -> int
    decreases s.len() - i,
{
    if i < 0 || i + 1 >= s.len() {
        s.len() as int
    } else if delim_at(s, i) {
        i
    } else {
        find_delim(s, i + 1)
    }
}

/// The fields of `s` between delimiters, matched left to right without overlap.
pub open spec fn split_fields(s: Seq<char>) -> Seq<Seq<char>>
    decreases s.len(),
{
    let k = find_delim(s, 0);
    if 0 <= k && k + 2 <= s.len() {
        seq![s.take(k)] + split_fields(s.skip(k + 2))
    } else {
        seq![s]
    }
}

/// A parsed derivation request.
#[derive(Debug, Clone)]
pub struct WalletRequest {
    /// Directory that roots the wallet store.
    pub storage_path: String,
    /// Name of the transparent key entry.
    pub alias: String,
    /// Space-separated mnemonic words.
    pub mnemonic_phrase: String,
}

/// The request that text `s` stands for: its three fields, when it has exactly three.
pub open spec fn request_fields(s: Seq<char>) -> Option<(Seq<char>, Seq<char>, Seq<char>)> {
    let f = split_fields(s);
    if f.len() == 3 {
        Some((f[0], f[1], f[2]))
    } else {
        None
    }
}

fn chars_of(s: &str) -> (r: Vec<char>)
    ensures
        r@ == s@,
{
    let n = s.unicode_len();
    let mut out: Vec<char> = Vec::new();
    let mut i: usize = 0;
    while i < n
        invariant
            n == s@.len(),
            i <= n,
            out@ == s@.take(i as int),
        decreases n - i,
    {
        out.push(s.get_char(i));
        i = i + 1;
        assert(out@ =~= s@.take(i as int));
    }
    assert(out@ =~= s@);
    out
}

/// Splits `s` on every `::`, left to right.
pub fn split_on_delimiter(s: &str) -> (r: Vec<String>)
    ensures
        r@.len() == split_fields(s@).len(),
        forall|j: int| 0 <= j < r@.len() ==> #[trigger] r@[j]@ == split_fields(s@)[j],
{
    let cs = chars_of(s);
    let n = cs.len();
    let mut fields: Vec<String> = Vec::new();
    let mut start: usize = 0;
    let mut i: usize = 0;
    let ghost done: Seq<Seq<char>> = Seq::empty();
    assert(s@.subrange(0, n as int) =~= s@);
    assert(done + split_fields(s@) =~= split_fields(s@));
    while i < n && n - i >= 2
        invariant
            n == s@.len(),
            cs@ == s@,
            start <= i <= n,
            fields@.len() == done.len(),
            forall|j: int| 0 <= j < done.len() ==> #[trigger] fields@[j]@ == done[j],
            split_fields(s@) == done + split_fields(s@.subrange(start as int, n as int)),
            find_delim(s@.subrange(start as int, n as int), 0) == find_delim(
                s@.subrange(start as int, n as int),
                i - start,
            ),
        decreases n - i,
    {
        let ghost t = s@.subrange(start as int, n as int);
        if cs[i] == ':' && cs[i + 1] == ':' {
            let piece = s.substring_char(start, i).to_owned();
            proof {
                let k = (i - start) as int;
                assert(delim_at(t, k));
                assert(find_delim(t, k) == k);
                assert(t.take(k) =~= s@.subrange(start as int, i as int));
                assert(t.skip(k + 2) =~= s@.subrange(i + 2, n as int));
                assert(split_fields(t) == seq![t.take(k)] + split_fields(t.skip(k + 2)));
                done = done.push(piece@);
                assert(split_fields(s@) =~= done + split_fields(s@.subrange(i + 2, n as int)));
            }
            fields.push(piece);
            i = i + 2;
            start = i;
        } else {
            i = i + 1;
        }
    }
    let last = s.substring_char(start, n).to_owned();
    proof {
        let t = s@.subrange(start as int, n as int);
        assert(find_delim(t, i - start) == t.len());
        assert(split_fields(t) == seq![t]);
        done = done.push(last@);
        assert(split_fields(s@) =~= done);
    }
    fields.push(last);
    fields
}

/// Parses `storage_path::alias::mnemonic_phrase`; any other number of fields is malformed.
pub fn parse_request(s: &str) -> (r: Result<WalletRequest, BridgeError>)
    ensures
        match r {
            Ok(req) => request_fields(s@) == Some(
                (req.storage_path@, req.alias@, req.mnemonic_phrase@),
            ),
            Err(e) => request_fields(s@) is None && e == BridgeError::MalformedRequest,
        },
{
    let mut parts = split_on_delimiter(s);
    if parts.len() != 3 {
        return Err(BridgeError::MalformedRequest);
    }
    let ghost f = split_fields(s@);
    assert(parts@[0]@ == f[0] && parts@[1]@ == f[1] && parts@[2]@ == f[2]);
    let mnemonic_phrase = parts.pop().unwrap();
    let alias = parts.pop().unwrap();
    let storage_path = parts.pop().unwrap();
    Ok(WalletRequest { storage_path, alias, mnemonic_phrase })
}

/// Reads what the host handed over: no text at all, bytes that are not text
/// (with the decoder's complaint), or a request to parse.
pub fn read_request(input: Option<Result<&str, String>>) -> (r: Result<WalletRequest, BridgeError>)
    ensures
        match input {
            None => r == Err::<WalletRequest, BridgeError>(BridgeError::NullInput),
            Some(Err(d)) => r == Err::<WalletRequest, BridgeError>(
                BridgeError::InvalidEncoding { detail: d },
            ),
            Some(Ok(s)) => match r {
                Ok(req) => request_fields(s@) == Some(
                    (req.storage_path@, req.alias@, req.mnemonic_phrase@),
                ),
                Err(e) => request_fields(s@) is None && e == BridgeError::MalformedRequest,
            },
        },
{
    match input {
        None => Err(BridgeError::NullInput),
        Some(Err(detail)) => Err(BridgeError::InvalidEncoding { detail }),
        Some(Ok(s)) => parse_request(s),
    }
}

/// `name` beneath directory `base`: a separator is put between them unless
/// `base` is empty or already ends in one.
pub open spec fn join_path(base: Seq<char>, name: Seq<char>) -> Seq<char> {
    if base.len() == 0 || base.last() == '/' {
        base + name
    } else {
        base + "/"@ + name
    }
}

/// The directory of the shielded-pool context under a storage path.
pub open spec fn masp_dir_of(storage_path: Seq<char>) -> Seq<char> {
    join_path(storage_path, "masp"@)
}

/// The directory of the wallet store under a storage path.
pub open spec fn wallet_dir_of(storage_path: Seq<char>) -> Seq<char> {
    join_path(storage_path, "sdk-wallet"@)
}

/// `name` beneath directory `base`.
pub fn join_dir(base: &str, name: &str) -> (r: String)
    ensures
        r@ == join_path(base@, name@),
{
    let n = base.unicode_len();
    if n == 0 || base.get_char(n - 1) == '/' {
        concat2(base, name)
    } else {
        concat3(base, "/", name)
    }
}

/// The alias under which the shielded spending key is stored.
pub open spec fn shielded_alias_of(alias: Seq<char>) -> Seq<char> {
    alias + "_shielded"@
}

/// The alias under which the shielded payment address is stored.
pub open spec fn payment_alias_of(alias: Seq<char>) -> Seq<char> {
    shielded_alias_of(alias) + "_payment"@
}

impl WalletRequest {
    /// `storage_path/masp`.
    pub fn masp_dir(&self) -> (r: String)
        ensures
            r@ == masp_dir_of(self.storage_path@),
    {
        join_dir(self.storage_path.as_str(), "masp")
    }

    /// `storage_path/sdk-wallet`.
    pub fn wallet_dir(&self) -> (r: String)
        ensures
            r@ == wallet_dir_of(self.storage_path@),
    {
        join_dir(self.storage_path.as_str(), "sdk-wallet")
    }

    /// `alias_shielded`.
    pub fn shielded_alias(&self) -> (r: String)
        ensures
            r@ == shielded_alias_of(self.alias@),
    {
        concat2(self.alias.as_str(), "_shielded")
    }

    /// `alias_shielded_payment`.
    pub fn payment_alias(&self) -> (r: String)
        ensures
            r@ == payment_alias_of(self.alias@),
    {
        concat3(self.alias.as_str(), "_shielded", "_payment")
    }
}

} // verus!
