//! Mnemonic phrases: generation of fresh ones and checking of given ones,
//! both through the `bip39` crate with its English wordlist.
use vstd::prelude::*;

verus! {

#[verifier::external_type_specification]
#[verifier::external_body]
pub struct ExMnemonic(bip39::Mnemonic);

/// Text returned when generating a phrase failed.
pub const GENERATION_FAILED: &'static str = "Failed to generate seed phrase";

/// The shape of every entry of the English wordlist: three to eight lowercase
/// ASCII letters. This checks the shape only, not membership in the list.
pub open spec fn is_word(w: Seq<char>) -> bool {
    &&& 3 <= w.len() <= 8
    &&& forall|i: int| 0 <= i < w.len() ==> 'a' <= #[trigger] w[i] <= 'z'
}

/// The words of `ws` joined by single spaces.
pub open spec fn join_words(ws: Seq<Seq<char>>) -> Seq<char>
    decreases ws.len(),
{
    if ws.len() == 0 {
        Seq::empty()
    } else if ws.len() == 1 {
        ws[0]
    } else {
        join_words(ws.drop_last()) + seq![' '] + ws.last()
    }
}

/// `s` is `n` entries of the English wordlist separated by single spaces.
pub open spec fn is_phrase(s: Seq<char>, n: nat) -> bool {
    exists|ws: Seq<Seq<char>>|
        #![trigger join_words(ws)]
        ws.len() == n && (forall|i: int|
            0 <= i < ws.len() ==> is_word(#[trigger] ws[i]) && in_english_list(ws[i]))
            && join_words(ws) == s
}

/// `word` is an entry of the English wordlist.
pub uninterp spec fn in_english_list(word: Seq<char>) -> bool;

/// Relies on `bip39::Language::English.wordmap()` and `WordMap::get_bits`: the
/// word map holds exactly the entries of the English wordlist, each with its
/// position, so the lookup finds a word if and only if it is on the list.
#[verifier::external_body]
fn english_lookup(word: &str) -> (r: bool)
    ensures
        r == in_english_list(word@),
{
    bip39::Language::English.wordmap().get_bits(word).is_some()
}

/// Whether `word` is an entry of the English wordlist, as hosts offering word
/// completion or checking a typed phrase word by word need to know.
pub fn is_english_word(word: &str) -> (r: bool)
    ensures
        r == in_english_list(word@),
{
    english_lookup(word)
}

/// Why the English wordlist and checksum reject a phrase, or `None` when they accept it.
pub uninterp spec fn phrase_rejection(phrase: Seq<char>) -> Option<Seq<char>>;

/// Relies on `bip39::Mnemonic::from_phrase` with `Language::English`: it accepts or
/// rejects a phrase by its words and checksum alone, and a rejection is reported by
/// the debug text of its `ErrorKind`.
#[verifier::external_body]
fn mnemonic_from_phrase(phrase: &str) -> (r: Result<bip39::Mnemonic, String>)
    ensures
        match r {
            Ok(_) => phrase_rejection(phrase@) is None,
            Err(e) => phrase_rejection(phrase@) == Some(e@),
        },
{
    match bip39::Mnemonic::from_phrase(phrase, bip39::Language::English) {
        Ok(m) => Ok(m),
        Err(e) => Err(format!("{:?}", e)),
    }
}

/// The English phrase that encodes `entropy` with its checksum.
pub uninterp spec fn english_phrase_of(entropy: Seq<u8>) -> Seq<char>;

/// Relies on `rand_core::OsRng::try_fill_bytes`: it fills the buffer from the
/// operating system's random source, or reports that the source failed, and
/// does not panic.
#[verifier::external_body]
fn draw_entropy(len: usize) -> (r: Option<Vec<u8>>)
    ensures
        r matches Some(v) ==> v@.len() == len,
{
    let mut bytes = vec![0u8; len];
    match rand_core::RngCore::try_fill_bytes(&mut rand_core::OsRng, &mut bytes) {
        Ok(()) => Some(bytes),
        Err(_) => None,
    }
}

/// Relies on `bip39::Mnemonic::from_entropy` with `Language::English`: 16 or 32
/// bytes are a valid key size (128 or 256 bits, `MnemonicType::for_key_size`), and
/// each eleven bits of entropy and checksum become one entry of the English
/// wordlist (`Language::wordlist`, from which `Language::wordmap` is built), joined
/// by single spaces: 12 or 24 words, each of three to eight lowercase ASCII letters.
/// `Mnemonic::from_phrase` accepts the phrase it builds.
#[verifier::external_body]
fn english_phrase_from_entropy(entropy: &Vec<u8>) -> (r: String)
    requires
        entropy@.len() == 16 || entropy@.len() == 32,
    ensures
        r@ == english_phrase_of(entropy@),
        is_phrase(r@, (entropy@.len() * 3 / 4) as nat),
        phrase_rejection(r@) is None,
{
    bip39::Mnemonic::from_entropy(entropy, bip39::Language::English)
        .expect("16 or 32 bytes")
        .into_phrase()
}

/// Checks a phrase against the English wordlist and its checksum.
pub fn check_phrase(phrase: &str) -> (r: Result<bip39::Mnemonic, String>)
    ensures
        r is Ok <==> phrase_rejection(phrase@) is None,
        r matches Err(e) ==> phrase_rejection(phrase@) == Some(e@),
{
    mnemonic_from_phrase(phrase)
}

/// The reply for a draw of entropy: the English phrase of 16 or 32 drawn bytes,
/// or the fixed failure text when the draw failed or has another length.
pub fn seed_phrase_from(drawn: Option<Vec<u8>>) -> (r: String)
    ensures
        match drawn {
            Some(v) => if v@.len() == 16 || v@.len() == 32 {
                &&& r@ == english_phrase_of(v@)
                &&& is_phrase(r@, (v@.len() * 3 / 4) as nat)
                &&& phrase_rejection(r@) is None
            } else {
                r@ == GENERATION_FAILED@
            },
            None => r@ == GENERATION_FAILED@,
        },
{
    match drawn {
        Some(v) => if v.len() == 16 || v.len() == 32 {
            english_phrase_from_entropy(&v)
        } else {
            GENERATION_FAILED.to_owned()
        },
        None => GENERATION_FAILED.to_owned(),
    }
}

/// A fresh 12-word phrase that the phrase check accepts, or exactly the failure
/// text when the random source failed.
pub fn generate_seed_phrase() -> (r: String)
    ensures
        r@ == GENERATION_FAILED@ || (is_phrase(r@, 12) && phrase_rejection(r@) is None),
{
    seed_phrase_from(draw_entropy(16))
}

/// A fresh 24-word phrase that the phrase check accepts, or exactly the failure
/// text when the random source failed.
pub fn generate_seed_phrase_24() -> (r: String)
    ensures
        r@ == GENERATION_FAILED@ || (is_phrase(r@, 24) && phrase_rejection(r@) is None),
{
    seed_phrase_from(draw_entropy(32))
}

} // verus!
