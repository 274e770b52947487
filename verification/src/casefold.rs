use vstd::prelude::*;

verus! {

/// The character sequence that `str::to_lowercase` yields for `s`. Lowercase
/// conversion is a fixed function of the characters alone, so it gets a name
/// here rather than a transcription of the Unicode tables.
pub uninterp spec fn lower_of(s: Seq<char>) -> Seq<char>;

/// Relies on str::to_lowercase: the result is determined by the characters of
/// the input alone, and an empty input stays empty.
#[verifier::external_body]
pub(crate) fn lowercase(s: &str) -> (r: String)
    ensures
        r@ == lower_of(s@),
        s@.len() == 0 ==> r@.len() == 0,
{
    s.to_lowercase()
}

} // verus!
