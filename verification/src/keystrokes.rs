//! The key events that type a piece of text through the portal.
//!
//! Characters up to U+007F are typed as one press and release of their keysym.
//! Any other character goes through the Ctrl+Shift+U Unicode input sequence,
//! so that it does not depend on the active keyboard layout: Control and Shift
//! are held while `u` is tapped, then the lowercase hexadecimal digits of the
//! code point are tapped, and Return confirms; a short pause follows so that
//! the compose state is left before the next character.

use crate::digits::{numeral, numeral_of};
use crate::keysym::{keysym_for_char, keysym_of, XK_RETURN};
use vstd::prelude::*;

verus! {

/// Keysym of the left Control key (`XK_Control_L`).
pub const XK_CONTROL_L: u32 = 0xFFE3;

/// Keysym of the left Shift key (`XK_Shift_L`).
pub const XK_SHIFT_L: u32 = 0xFFE1;

/// Keysym of the `u` key, which opens Unicode input while Control and Shift are held.
pub const XK_U: u32 = 0x75;

/// Milliseconds to wait after a Unicode input sequence.
pub const UNICODE_INPUT_PAUSE_MS: u64 = 8;

/// Highest code point that is typed by its own keysym rather than by Unicode input.
pub const ASCII_MAX: u32 = 0x7F;

/// Whether a key event presses or releases the key.
#[derive(Clone, Copy, Debug, PartialEq, Eq, Structural)]
pub enum KeyDirection {
    Pressed,
    Released,
}

/// Which step of typing a key event belongs to; it decides the wording of the
/// error when the portal refuses the event.
#[derive(Clone, Copy, Debug, PartialEq, Eq, Structural)]
pub enum StrokeContext {
    /// A plain tap of a key.
    Plain,
    /// Pressing Control at the start of Unicode input.
    PressControl,
    /// Pressing Shift at the start of Unicode input.
    PressShift,
    /// Releasing Shift after `u` was tapped.
    ReleaseShift,
    /// Releasing Control after `u` was tapped.
    ReleaseControl,
    /// Tapping the hexadecimal digit at `index` of the code point.
    HexDigit { index: usize, digit: char },
}

/// One step of typing: a key event sent to the portal, or a pause.
#[derive(Clone, Copy, Debug, PartialEq, Eq, Structural)]
pub enum Stroke {
    Key { keysym: u32, direction: KeyDirection, context: StrokeContext },
    Pause { millis: u64 },
}

/// A key event as a value.
pub open spec fn key(keysym: u32, direction: KeyDirection, context: StrokeContext) -> Stroke {
    Stroke::Key { keysym, direction, context }
}

/// Press and release of `keysym`.
pub open spec fn tap(keysym: u32, context: StrokeContext) -> Seq<Stroke> {
    seq![key(keysym, KeyDirection::Pressed, context), key(keysym, KeyDirection::Released, context)]
}

/// Taps of the digits in `digits`, each labelled with its position.
pub open spec fn hex_digit_strokes(digits: Seq<char>) -> Seq<Stroke>
    decreases digits.len(),
{
    if digits.len() == 0 {
        Seq::empty()
    } else {
        let i = digits.len() - 1;
        hex_digit_strokes(digits.drop_last()) + tap(
            keysym_of(digits.last()),
            StrokeContext::HexDigit { index: i as usize, digit: digits.last() },
        )
    }
}

/// The Ctrl+Shift+U sequence that types `ch` by its code point.
pub open spec fn unicode_input_strokes(ch: char) -> Seq<Stroke> {
    seq![
        key(XK_CONTROL_L, KeyDirection::Pressed, StrokeContext::PressControl),
        key(XK_SHIFT_L, KeyDirection::Pressed, StrokeContext::PressShift),
    ] + tap(XK_U, StrokeContext::Plain) + seq![
        key(XK_SHIFT_L, KeyDirection::Released, StrokeContext::ReleaseShift),
        key(XK_CONTROL_L, KeyDirection::Released, StrokeContext::ReleaseControl),
    ] + hex_digit_strokes(numeral(ch as nat, 16)) + tap(XK_RETURN, StrokeContext::Plain) + seq![
        Stroke::Pause { millis: UNICODE_INPUT_PAUSE_MS },
    ]
}

/// The strokes that type one character.
pub open spec fn char_strokes(ch: char) -> Seq<Stroke> {
    if (ch as u32) > ASCII_MAX {
        unicode_input_strokes(ch)
    } else {
        tap(keysym_of(ch), StrokeContext::Plain)
    }
}

/// The strokes that type `text`, character after character.
pub open spec fn text_strokes(text: Seq<char>) -> Seq<Stroke>
    decreases text.len(),
{
    if text.len() == 0 {
        Seq::empty()
    } else {
        text_strokes(text.drop_last()) + char_strokes(text.last())
    }
}

/// Appends a press and a release of `keysym` to `out`.
fn push_tap(out: &mut Vec<Stroke>, keysym: u32, context: StrokeContext)
    ensures
        final(out)@ == old(out)@ + tap(keysym, context),
{
    out.push(Stroke::Key { keysym, direction: KeyDirection::Pressed, context });
    out.push(Stroke::Key { keysym, direction: KeyDirection::Released, context });
    assert(final(out)@ =~= old(out)@ + tap(keysym, context));
}

/// Appends the Ctrl+Shift+U sequence that types `ch` to `out`.
fn push_unicode_input(out: &mut Vec<Stroke>, ch: char)
    ensures
        final(out)@ == old(out)@ + unicode_input_strokes(ch),
{
    let ghost start = out@;
    out.push(Stroke::Key {
        keysym: XK_CONTROL_L,
        direction: KeyDirection::Pressed,
        context: StrokeContext::PressControl,
    });
    out.push(Stroke::Key {
        keysym: XK_SHIFT_L,
        direction: KeyDirection::Pressed,
        context: StrokeContext::PressShift,
    });
    push_tap(out, XK_U, StrokeContext::Plain);
    out.push(Stroke::Key {
        keysym: XK_SHIFT_L,
        direction: KeyDirection::Released,
        context: StrokeContext::ReleaseShift,
    });
    out.push(Stroke::Key {
        keysym: XK_CONTROL_L,
        direction: KeyDirection::Released,
        context: StrokeContext::ReleaseControl,
    });
    let ghost prefix = out@;
    let digits = numeral_of(ch as u64, 16);
    let mut i: usize = 0;
    while i < digits.len()
        invariant
            0 <= i <= digits.len(),
            digits@ == numeral(ch as nat, 16),
            out@ == prefix + hex_digit_strokes(digits@.subrange(0, i as int)),
        decreases digits.len() - i,
    {
        let digit = digits[i];
        let keysym = keysym_for_char(digit);
        proof {
            let sub = digits@.subrange(0, i as int + 1);
            assert(sub.drop_last() =~= digits@.subrange(0, i as int));
            assert(sub.last() == digit);
        }
        push_tap(out, keysym.unwrap(), StrokeContext::HexDigit { index: i, digit });
        proof {
            let sub = digits@.subrange(0, i as int + 1);
            assert(out@ =~= prefix + hex_digit_strokes(sub));
        }
        i = i + 1;
    }
    assert(digits@.subrange(0, digits@.len() as int) =~= digits@);
    push_tap(out, XK_RETURN, StrokeContext::Plain);
    out.push(Stroke::Pause { millis: UNICODE_INPUT_PAUSE_MS });
    assert(out@ =~= start + unicode_input_strokes(ch));
}

/// Appends the strokes that type `ch` to `out`.
pub fn push_char_strokes(out: &mut Vec<Stroke>, ch: char)
    ensures
        final(out)@ == old(out)@ + char_strokes(ch),
{
    if (ch as u32) > ASCII_MAX {
        push_unicode_input(out, ch);
    } else {
        let keysym = keysym_for_char(ch);
        push_tap(out, keysym.unwrap(), StrokeContext::Plain);
    }
}

/// The strokes that type the characters of `text` in order.
pub fn strokes_for_chars(text: &[char]) -> (r: Vec<Stroke>)
    ensures
        r@ == text_strokes(text@),
{
    let mut out: Vec<Stroke> = Vec::new();
    let mut i: usize = 0;
    while i < text.len()
        invariant
            0 <= i <= text.len(),
            out@ == text_strokes(text@.subrange(0, i as int)),
        decreases text.len() - i,
    {
        proof {
            let sub = text@.subrange(0, i as int + 1);
            assert(sub.drop_last() =~= text@.subrange(0, i as int));
            assert(sub.last() == text@[i as int]);
        }
        push_char_strokes(&mut out, text[i]);
        i = i + 1;
    }
    assert(text@.subrange(0, text@.len() as int) =~= text@);
    out
}

/// How a stroke changes the number of times the key `k` is held down.
pub open spec fn stroke_delta(stroke: Stroke, k: u32) -> int {
    match stroke {
        Stroke::Key { keysym, direction, .. } => if keysym != k {
            0
        } else {
            match direction {
                KeyDirection::Pressed => 1,
                KeyDirection::Released => -1,
            }
        },
        Stroke::Pause { .. } => 0,
    }
}

/// How many times the key `k` is held down after `strokes`: presses minus
/// releases.
pub open spec fn held_count(strokes: Seq<Stroke>, k: u32) -> int
    decreases strokes.len(),
{
    if strokes.len() == 0 {
        0
    } else {
        held_count(strokes.drop_last(), k) + stroke_delta(strokes.last(), k)
    }
}

/// The key `k` is never released more often than it was pressed, at any point
/// of `strokes`, and it is not held down at the end.
pub open spec fn keys_balanced(strokes: Seq<Stroke>, k: u32) -> bool {
    &&& held_count(strokes, k) == 0
    &&& forall|i: int| 0 <= i <= strokes.len() ==> held_count(#[trigger] strokes.take(i), k) >= 0
}

/// The held count of two sequences one after the other adds up.
pub proof fn lemma_held_count_concat(a: Seq<Stroke>, b: Seq<Stroke>, k: u32)
    ensures
        held_count(a + b, k) == held_count(a, k) + held_count(b, k),
    decreases b.len(),
{
    if b.len() == 0 {
        assert(a + b =~= a);
    } else {
        assert((a + b).drop_last() =~= a + b.drop_last());
        assert((a + b).last() == b.last());
        lemma_held_count_concat(a, b.drop_last(), k);
    }
}

/// Balanced sequences one after the other are balanced.
pub proof fn lemma_balanced_concat(a: Seq<Stroke>, b: Seq<Stroke>, k: u32)
    requires
        keys_balanced(a, k),
        keys_balanced(b, k),
    ensures
        keys_balanced(a + b, k),
{
    lemma_held_count_concat(a, b, k);
    assert forall|i: int| 0 <= i <= (a + b).len() implies held_count(#[trigger] (a + b).take(i), k)
        >= 0 by {
        if i <= a.len() {
            assert((a + b).take(i) =~= a.take(i));
        } else {
            let j = i - a.len();
            assert((a + b).take(i) =~= a + b.take(j));
            assert(a.take(a.len() as int) =~= a);
            lemma_held_count_concat(a, b.take(j), k);
            assert(held_count(b.take(j), k) >= 0);
        }
    }
}

/// The empty sequence is balanced.
proof fn lemma_empty_balanced(k: u32)
    ensures
        keys_balanced(Seq::<Stroke>::empty(), k),
{
    assert forall|i: int| 0 <= i <= 0 implies held_count(
        #[trigger] Seq::<Stroke>::empty().take(i),
        k,
    ) >= 0 by {
        assert(Seq::<Stroke>::empty().take(i) =~= Seq::<Stroke>::empty());
    }
}

/// A tap is balanced.
proof fn lemma_tap_balanced(keysym: u32, context: StrokeContext, k: u32)
    ensures
        keys_balanced(tap(keysym, context), k),
{
    let t = tap(keysym, context);
    let d = stroke_delta(t[0], k);
    assert(held_count(t.take(0), k) == 0) by {
        assert(t.take(0) =~= Seq::<Stroke>::empty());
    }
    assert(held_count(t.take(1), k) == d) by {
        assert(t.take(1).drop_last() =~= t.take(0));
    }
    assert(held_count(t.take(2), k) == 0) by {
        assert(t.take(2).drop_last() =~= t.take(1));
    }
    assert(t.take(2) =~= t);
    assert(d >= 0);
    assert forall|i: int| 0 <= i <= t.len() implies held_count(#[trigger] t.take(i), k) >= 0 by {
        if i == 0 {
        } else if i == 1 {
        } else {
        }
    }
}

/// The taps of hexadecimal digits are balanced.
proof fn lemma_hex_digits_balanced(digits: Seq<char>, k: u32)
    ensures
        keys_balanced(hex_digit_strokes(digits), k),
    decreases digits.len(),
{
    if digits.len() == 0 {
        lemma_empty_balanced(k);
    } else {
        let i = digits.len() - 1;
        lemma_hex_digits_balanced(digits.drop_last(), k);
        lemma_tap_balanced(
            keysym_of(digits.last()),
            StrokeContext::HexDigit { index: i as usize, digit: digits.last() },
            k,
        );
        lemma_balanced_concat(
            hex_digit_strokes(digits.drop_last()),
            tap(
                keysym_of(digits.last()),
                StrokeContext::HexDigit { index: i as usize, digit: digits.last() },
            ),
            k,
        );
    }
}

/// Holding Control and Shift around a tap of `u` is balanced.
proof fn lemma_unicode_prefix_balanced(k: u32)
    ensures
        keys_balanced(
            seq![
                key(XK_CONTROL_L, KeyDirection::Pressed, StrokeContext::PressControl),
                key(XK_SHIFT_L, KeyDirection::Pressed, StrokeContext::PressShift),
            ] + tap(XK_U, StrokeContext::Plain) + seq![
                key(XK_SHIFT_L, KeyDirection::Released, StrokeContext::ReleaseShift),
                key(XK_CONTROL_L, KeyDirection::Released, StrokeContext::ReleaseControl),
            ],
            k,
        ),
{
    let m = seq![
        key(XK_CONTROL_L, KeyDirection::Pressed, StrokeContext::PressControl),
        key(XK_SHIFT_L, KeyDirection::Pressed, StrokeContext::PressShift),
    ] + tap(XK_U, StrokeContext::Plain) + seq![
        key(XK_SHIFT_L, KeyDirection::Released, StrokeContext::ReleaseShift),
        key(XK_CONTROL_L, KeyDirection::Released, StrokeContext::ReleaseControl),
    ];
    let c = stroke_delta(m[0], k);
    let sh = stroke_delta(m[1], k);
    let u = stroke_delta(m[2], k);
    assert(held_count(m.take(0), k) == 0) by {
        assert(m.take(0) =~= Seq::<Stroke>::empty());
    }
    assert(held_count(m.take(1), k) == c) by {
        assert(m.take(1).drop_last() =~= m.take(0));
    }
    assert(held_count(m.take(2), k) == c + sh) by {
        assert(m.take(2).drop_last() =~= m.take(1));
    }
    assert(held_count(m.take(3), k) == c + sh + u) by {
        assert(m.take(3).drop_last() =~= m.take(2));
    }
    assert(held_count(m.take(4), k) == c + sh) by {
        assert(m.take(4).drop_last() =~= m.take(3));
    }
    assert(held_count(m.take(5), k) == c) by {
        assert(m.take(5).drop_last() =~= m.take(4));
    }
    assert(held_count(m.take(6), k) == 0) by {
        assert(m.take(6).drop_last() =~= m.take(5));
    }
    assert(m.take(6) =~= m);
    assert(c >= 0 && sh >= 0 && u >= 0);
    assert forall|i: int| 0 <= i <= m.len() implies held_count(#[trigger] m.take(i), k) >= 0 by {
        if i == 0 {
        } else if i == 1 {
        } else if i == 2 {
        } else if i == 3 {
        } else if i == 4 {
        } else if i == 5 {
        } else {
        }
    }
}

/// A pause is balanced.
proof fn lemma_pause_balanced(k: u32)
    ensures
        keys_balanced(seq![Stroke::Pause { millis: UNICODE_INPUT_PAUSE_MS }], k),
{
    let p = seq![Stroke::Pause { millis: UNICODE_INPUT_PAUSE_MS }];
    assert(held_count(p.take(0), k) == 0) by {
        assert(p.take(0) =~= Seq::<Stroke>::empty());
    }
    assert(held_count(p.take(1), k) == 0) by {
        assert(p.take(1).drop_last() =~= p.take(0));
    }
    assert(p.take(1) =~= p);
    assert forall|i: int| 0 <= i <= p.len() implies held_count(#[trigger] p.take(i), k) >= 0 by {
        if i == 0 {
        } else {
        }
    }
}

/// The strokes of one character are balanced.
pub proof fn lemma_char_strokes_balanced(ch: char, k: u32)
    ensures
        keys_balanced(char_strokes(ch), k),
{
    if (ch as u32) > ASCII_MAX {
        let m = seq![
            key(XK_CONTROL_L, KeyDirection::Pressed, StrokeContext::PressControl),
            key(XK_SHIFT_L, KeyDirection::Pressed, StrokeContext::PressShift),
        ] + tap(XK_U, StrokeContext::Plain) + seq![
            key(XK_SHIFT_L, KeyDirection::Released, StrokeContext::ReleaseShift),
            key(XK_CONTROL_L, KeyDirection::Released, StrokeContext::ReleaseControl),
        ];
        let h = hex_digit_strokes(numeral(ch as nat, 16));
        let r = tap(XK_RETURN, StrokeContext::Plain);
        let p = seq![Stroke::Pause { millis: UNICODE_INPUT_PAUSE_MS }];
        lemma_unicode_prefix_balanced(k);
        lemma_hex_digits_balanced(numeral(ch as nat, 16), k);
        lemma_tap_balanced(XK_RETURN, StrokeContext::Plain, k);
        lemma_pause_balanced(k);
        lemma_balanced_concat(m, h, k);
        lemma_balanced_concat(m + h, r, k);
        lemma_balanced_concat(m + h + r, p, k);
        assert(unicode_input_strokes(ch) =~= m + h + r + p);
    } else {
        lemma_tap_balanced(keysym_of(ch), StrokeContext::Plain, k);
    }
}

/// The strokes of a whole text are balanced.
pub proof fn lemma_text_strokes_balanced(text: Seq<char>, k: u32)
    ensures
        keys_balanced(text_strokes(text), k),
    decreases text.len(),
{
    if text.len() == 0 {
        lemma_empty_balanced(k);
    } else {
        lemma_text_strokes_balanced(text.drop_last(), k);
        lemma_char_strokes_balanced(text.last(), k);
        lemma_balanced_concat(text_strokes(text.drop_last()), char_strokes(text.last()), k);
    }
}

} // verus!
