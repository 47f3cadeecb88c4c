//! Unicode normalization of the text before it is typed.

use unicode_normalization::UnicodeNormalization;
use vstd::prelude::*;
use vstd::std_specs::iter::IteratorSpec;

verus! {

/// The characters of `text` in Unicode Normalization Form C, as the
/// `unicode_normalization` crate computes it.
pub uninterp spec fn nfc_of(text: Seq<char>) -> Seq<char>;

/// Whether every character of `text` comes before U+0300, the first combining
/// mark: Basic Latin, Latin-1, Latin Extended, IPA and spacing modifiers.
pub open spec fn before_combining_marks(text: Seq<char>) -> bool {
    forall|i: int| 0 <= i < text.len() ==> (#[trigger] text[i] as u32) < 0x300
}

/// Calls `UnicodeNormalization::nfc` of the `unicode_normalization` crate on
/// `text` and collects the characters it yields. Trusted: the result is claimed
/// to be `nfc_of(text@)`, a value determined by the text alone, and to be the
/// text itself when every character comes before U+0300. The crate's NFC quick
/// check table (`tables::qc_nfc`) marks no character below U+0300 as `No` or
/// `Maybe`, and all of them are starters (combining class 0), so `is_nfc_quick`
/// answers `Yes` ("definitely normalized") for such a text, which NFC leaves
/// unchanged. Nothing more is
/// said of what Normalization Form C is.
#[verifier::external_body]
pub(crate) fn nfc_chars(text: &str) -> (r: Vec<char>)
    ensures
        r@ == nfc_of(text@),
        before_combining_marks(text@) ==> r@ == text@,
{
    text.nfc().collect()
}

/// The characters of `text`, and whether all of them come before U+0300.
pub fn chars_before_combining_marks(text: &str) -> (r: (Vec<char>, bool))
    ensures
        r.0@ == text@,
        r.1 == before_combining_marks(text@),
{
    let mut out: Vec<char> = Vec::new();
    let mut settled = true;
    let mut it = text.chars();
    loop
        invariant
            out@ + it.remaining() == text@,
            it.obeys_prophetic_iter_laws(),
            settled == before_combining_marks(out@),
            it.decrease() is Some,
        ensures
            out@ == text@,
            settled == before_combining_marks(out@),
        decreases it.decrease()->0,
    {
        let ghost before = it.remaining();
        match it.next() {
            Some(c) => {
                assert(before.len() > 0);
                assert(out@.push(c) + it.remaining() =~= out@ + before);
                proof {
                    if settled && (c as u32) < 0x300 {
                        assert forall|i: int| 0 <= i < out@.push(c).len() implies (
                        #[trigger] out@.push(c)[i] as u32) < 0x300 by {
                            if i < out@.len() {
                                assert(out@.push(c)[i] == out@[i]);
                            }
                        }
                    }
                    if !settled {
                        let j = choose|j: int| 0 <= j < out@.len() && !((#[trigger] out@[j] as u32) < 0x300);
                        assert(out@.push(c)[j] == out@[j]);
                    }
                    if (c as u32) >= 0x300 {
                        assert(out@.push(c)[out@.len() as int] == c);
                    }
                }
                settled = settled && (c as u32) < 0x300;
                out.push(c);
            },
            None => {
                assert(before.len() == 0);
                assert(out@ =~= text@);
                break;
            },
        }
    }
    (out, settled)
}

} // verus!
