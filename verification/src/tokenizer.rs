//! The tokenizer handle: a profile paired with a reference to that profile's
//! shared vocabulary store, and the three operations `encode`, `decode` and
//! `count` over it. The byte-pair-encoding engine itself is the `bpe_openai`
//! crate; it is reached only through the trusted wrappers in this module, and
//! its results are named by the uninterpreted specification functions below.

use vstd::prelude::*;

use bpe_openai::Tokenizer as BpeTokenizer;

use crate::profile::{profile_of_name, Profile, UnknownProfile};

verus! {

#[verifier::external_type_specification]
#[verifier::external_body]
pub struct ExBpeTokenizer(BpeTokenizer);

/// The token sequence that the profile with identity `profile` produces for
/// `text`: a pure function of the profile's fixed vocabulary and merge rules
/// and of the text alone.
pub uninterp spec fn tokens_of(profile: int, text: Seq<char>) -> Seq<u32>;

/// The text that the profile with identity `profile` reconstructs from
/// `tokens` whose identifiers all lie in the store's range: the concatenation
/// of each token's bytes when that concatenation is valid UTF-8, and no value
/// otherwise.
pub uninterp spec fn decoded_of(profile: int, tokens: Seq<u32>) -> Option<Seq<char>>;

/// The Unicode normalization (form C) that the profile with identity
/// `profile` applies to `text` before encoding, for a profile that
/// normalizes.
pub uninterp spec fn norm_of(profile: int, text: Seq<char>) -> Seq<char>;

/// The number of entries in the vocabulary of the profile with identity
/// `profile`; token identifiers are valid exactly below it.
pub uninterp spec fn vocab_size(profile: int) -> int;

/// Whether every identifier in `tokens` lies in the vocabulary range of the
/// profile with identity `profile`.
pub open spec fn tokens_in_range(profile: int, tokens: Seq<u32>) -> bool {
    forall|i: int| 0 <= i < tokens.len() ==> (tokens[i] as int) < vocab_size(profile)
}

/// A tokenizer handle: the resolved profile together with a non-owning
/// reference to that profile's vocabulary store. The store outlives every
/// handle, so a handle is cheap to create, duplicate and discard.
pub struct Tokenizer {
    profile: Profile,
    store: &'static BpeTokenizer,
}

impl Tokenizer {
    /// The profile this handle was built for.
    pub closed spec fn profile(&self) -> Profile {
        self.profile
    }

    /// Resolves a model name to a handle on that profile's shared store.
    /// Succeeds exactly on the supported names; any other name is returned
    /// unchanged inside `UnknownProfile`.
    pub fn new(model: &str) -> (r: Result<Tokenizer, UnknownProfile>)
        ensures
            match profile_of_name(model@) {
                Some(p) => r matches Ok(t) && t.profile() == p,
                None => r matches Err(e) && e.name@ == model@,
            },
    {
        let name: String = model.to_owned();
        if name == "cl100k_base".to_owned() {
            Ok(cl100k_handle())
        } else if name == "o200k_base".to_owned() {
            Ok(o200k_handle())
        } else if name == "voyage3_base".to_owned() {
            Ok(voyage3_handle())
        } else {
            Err(UnknownProfile { name })
        }
    }

    /// Encodes the text into its token sequence under this handle's profile.
    /// The operation is total over UTF-8 text and deterministic: the result
    /// is exactly the profile's token sequence for the text, every identifier
    /// in it lies in the vocabulary range, and decoding it reconstructs the
    /// text (for a normalizing profile, its normalized form).
    pub fn encode(&self, text: &str) -> (r: Vec<u32>)
        ensures
            r@ == tokens_of(self.profile().id(), text@),
            tokens_in_range(self.profile().id(), r@),
            text@.len() == 0 ==> r@.len() == 0,
            !self.profile().normalizes() ==> decoded_of(self.profile().id(), r@) == Some(text@),
            self.profile().normalizes() ==> decoded_of(self.profile().id(), r@) == Some(
                norm_of(self.profile().id(), text@),
            ),
    {
        encode_raw(self, text)
    }

    /// Decodes a token sequence back to text. Returns no value, rather than
    /// failing, when an identifier lies outside the vocabulary range or when
    /// the concatenated bytes are not valid UTF-8; otherwise returns exactly
    /// the profile's reconstruction of the sequence.
    pub fn decode(&self, tokens: &[u32]) -> (r: Option<String>)
        ensures
            tokens_in_range(self.profile().id(), tokens@) ==> match r {
                Some(s) => decoded_of(self.profile().id(), tokens@) == Some(s@),
                None => decoded_of(self.profile().id(), tokens@) is None,
            },
            !tokens_in_range(self.profile().id(), tokens@) ==> r is None,
    {
        let n = vocab_size_raw(self);
        let mut i: usize = 0;
        while i < tokens.len()
            invariant
                0 <= i <= tokens@.len(),
                n == vocab_size(self.profile().id()),
                forall|j: int| 0 <= j < i ==> (tokens@[j] as int) < vocab_size(self.profile().id()),
            decreases tokens@.len() - i,
        {
            if tokens[i] as usize >= n {
                return None;
            }
            i += 1;
        }
        decode_raw(self, tokens)
    }

    /// Counts the tokens of the text under this handle's profile without
    /// materializing the sequence: the result equals the length of
    /// `encode` on the same text.
    pub fn count(&self, text: &str) -> (r: usize)
        ensures
            r == tokens_of(self.profile().id(), text@).len(),
            text@.len() == 0 ==> r == 0,
    {
        count_raw(self, text)
    }
}

/// Relies on bpe_openai::Tokenizer::encode: splits the text with the
/// profile's pre-tokenization patterns (after normalizing it for a profile
/// built with normalization) and byte-pair encodes each piece with the
/// profile's fixed merge ranking, so the result is a function of the profile
/// and the text alone; every produced identifier comes from the store's
/// dictionary; the pieces cover the whole text, and bpe documents that
/// decoding a produced encoding yields back the encoded bytes, so decoding
/// the result reconstructs the (normalized) text; an empty text has no
/// pieces and encodes to the empty sequence.
#[verifier::external_body]
fn encode_raw(t: &Tokenizer, text: &str) -> (r: Vec<u32>)
    ensures
        r@ == tokens_of(t.profile().id(), text@),
        tokens_in_range(t.profile().id(), r@),
        text@.len() == 0 ==> r@.len() == 0,
        !t.profile().normalizes() ==> decoded_of(t.profile().id(), r@) == Some(text@),
        t.profile().normalizes() ==> decoded_of(t.profile().id(), r@) == Some(
            norm_of(t.profile().id(), text@),
        ),
{
    t.store.encode(text)
}

/// Relies on bpe_openai::Tokenizer::decode: concatenates each token's bytes
/// from the store and returns the text exactly when that concatenation is
/// valid UTF-8. The byte lookup is unchecked, so every identifier must lie
/// in the vocabulary range.
#[verifier::external_body]
fn decode_raw(t: &Tokenizer, tokens: &[u32]) -> (r: Option<String>)
    requires
        tokens_in_range(t.profile().id(), tokens@),
    ensures
        match r {
            Some(s) => decoded_of(t.profile().id(), tokens@) == Some(s@),
            None => decoded_of(t.profile().id(), tokens@) is None,
        },
{
    t.store.decode(tokens)
}

/// Relies on bpe_openai::Tokenizer::count: walks the same pre-tokenization
/// pieces as encode and takes the length of each piece's byte-pair encoding
/// without materializing it, so the result is the length of the encoding of
/// the same text; an empty text has no pieces and counts zero.
#[verifier::external_body]
fn count_raw(t: &Tokenizer, text: &str) -> (r: usize)
    ensures
        r == tokens_of(t.profile().id(), text@).len(),
        text@.len() == 0 ==> r == 0,
{
    t.store.count(text)
}

/// Count consistency: a token count that meets `count`'s contract for a
/// profile and a text equals the length of a token sequence that meets
/// `encode`'s contract for the same profile and text.
pub proof fn lemma_count_consistent(profile: int, text: Seq<char>, c: nat, toks: Seq<u32>)
    requires
        c == tokens_of(profile, text).len(),
        toks == tokens_of(profile, text),
    ensures
        c == toks.len(),
{
}

/// Determinism: two token sequences that meet `encode`'s contract for the
/// same profile and the same text are identical; no hidden state enters the
/// result.
pub proof fn lemma_encode_deterministic(profile: int, text: Seq<char>, r1: Seq<u32>, r2: Seq<u32>)
    requires
        r1 == tokens_of(profile, text),
        r2 == tokens_of(profile, text),
    ensures
        r1 == r2,
{
}

/// Relies on bpe::byte_pair_encoding::BytePairEncoding::num_tokens: the
/// number of entries in the store's token dictionary, fixed per profile.
#[verifier::external_body]
fn vocab_size_raw(t: &Tokenizer) -> (r: usize)
    ensures
        r == vocab_size(t.profile().id()),
{
    t.store.bpe.num_tokens()
}

/// Relies on bpe_openai::cl100k_base: returns the process-wide cl100k_base
/// store, built at most once behind a one-time-initialization lock and shared
/// read-only thereafter.
#[verifier::external_body]
fn cl100k_handle() -> (t: Tokenizer)
    ensures
        t.profile() == Profile::Cl100kBase,
{
    Tokenizer { profile: Profile::Cl100kBase, store: bpe_openai::cl100k_base() }
}

/// Relies on bpe_openai::o200k_base: returns the process-wide o200k_base
/// store, built at most once behind a one-time-initialization lock and shared
/// read-only thereafter.
#[verifier::external_body]
fn o200k_handle() -> (t: Tokenizer)
    ensures
        t.profile() == Profile::O200kBase,
{
    Tokenizer { profile: Profile::O200kBase, store: bpe_openai::o200k_base() }
}

/// Relies on bpe_openai::voyage3_base: returns the process-wide voyage3_base
/// store, built at most once behind a one-time-initialization lock and shared
/// read-only thereafter. This store is built with Unicode normalization
/// (form C) switched on.
#[verifier::external_body]
fn voyage3_handle() -> (t: Tokenizer)
    ensures
        t.profile() == Profile::Voyage3Base,
{
    Tokenizer { profile: Profile::Voyage3Base, store: bpe_openai::voyage3_base() }
}

} // verus!
