//! Folding: the transliteration that turns a word into its lookup key.

use vstd::prelude::*;

verus! {

/// The folded spelling of `word`: what `deunicode::deunicode` returns for it.
pub uninterp spec fn folded(word: Seq<char>) -> Seq<char>;

/// The key under which a word's synonyms stand in the folded region: the
/// UTF-8 bytes of its folded spelling.
pub open spec fn folded_key_of(word: Seq<char>) -> Seq<u8> {
    vstd::utf8::encode_utf8(folded(word))
}

/// Calls `deunicode::deunicode`. The transliteration is table-driven and
/// depends on the input alone, so the result is named by [`folded`];
/// nothing else is claimed of it.
#[verifier::external_body]
fn fold_word(word: &str) -> (out: String)
    ensures
        out@ == folded(word@),
{
    deunicode::deunicode(word)
}

/// The folded-region key of `word`.
pub fn folded_key(word: &str) -> (key: Vec<u8>)
    ensures
        key@ == folded_key_of(word@),
{
    let spelling = fold_word(word);
    let bytes = spelling.as_str().as_bytes();
    vstd::slice::slice_to_vec(bytes)
}

} // verus!
