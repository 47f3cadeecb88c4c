//! Properties that hold of every state and every text.

use crate::authorization::{
    available, delete_everywhere_step, init_step, known_token, not_granted_text, send_gate,
    session_started_step, set_authorized_step, store_deletion, EffectView, PortalView,
};
use crate::digits::{
    digit_char, lemma_digit_round_trip, lemma_numeral_round_trip, numeral, numeral_value,
};
use crate::keysym::keysym_of;
use crate::keystrokes::{
    char_strokes, hex_digit_strokes, keys_balanced, lemma_text_strokes_balanced, text_strokes,
    KeyDirection, Stroke, StrokeContext,
};
use vstd::prelude::*;

verus! {

/// Revoking forgets the authorization: afterwards no token is in memory, the
/// flag is cleared, typing is unavailable and refused on Wayland for want of
/// authorization, and the application stays attached as it was.
pub proof fn law_revocation_forgets(s: PortalView, stored: Option<Seq<char>>, wayland: bool)
    ensures
        ({
            let after = delete_everywhere_step(s, stored).0;
            &&& after.token is None
            &&& !after.authorized
            &&& after.app_attached == s.app_attached
            &&& !available(after, wayland)
            &&& wayland ==> send_gate(after, wayland) == Err::<(), Seq<char>>(not_granted_text())
        }),
{
}

/// Revoking twice does nothing the second time, once the settings no longer
/// hold a token: no event, no store deletion, no settings write.
pub proof fn law_revocation_idempotent(s: PortalView, stored: Option<Seq<char>>)
    ensures
        ({
            let after = delete_everywhere_step(s, stored).0;
            delete_everywhere_step(after, None) == (after, Seq::<EffectView>::empty())
        }),
{
    let after = delete_everywhere_step(s, stored).0;
    let again = delete_everywhere_step(after, None);
    assert(again.1 =~= Seq::<EffectView>::empty());
}

/// A session started with a restore token grants authorization: the token is
/// kept in memory, typing becomes available on Wayland, and the token is written
/// to the settings exactly when an application is attached.
pub proof fn law_grant_keeps_token(s: PortalView, token: Seq<char>, wayland: bool)
    ensures
        ({
            let (after, effects) = session_started_step(s, Some(token));
            &&& after.token == Some(token)
            &&& after.authorized
            &&& available(after, wayland) == wayland
            &&& wayland ==> send_gate(after, wayland) == Ok::<(), Seq<char>>(())
            &&& effects.contains(EffectView::SaveTokenSetting(Some(token))) == s.app_attached
        }),
{
    let (after, effects) = session_started_step(s, Some(token));
    if s.app_attached {
        assert(effects.last() == EffectView::SaveTokenSetting(Some(token)));
    } else {
        assert(forall|i: int| 0 <= i < effects.len() ==> effects[i] is EmitAuthChanged);
    }
}

/// The change event is emitted exactly when the flag changes while an
/// application is attached, and setting the same value again emits nothing.
pub proof fn law_event_on_change_only(s: PortalView, value: bool)
    ensures
        (set_authorized_step(s, value).1.len() > 0) == (s.authorized != value && s.app_attached),
        ({
            let once = set_authorized_step(s, value).0;
            set_authorized_step(once, value) == (once, Seq::<EffectView>::empty())
        }),
{
    let once = set_authorized_step(s, value).0;
    assert(set_authorized_step(once, value).0 == once);
}

/// Without an attached application, revoking neither emits an event nor
/// touches the settings: its only effect can be the store deletion.
pub proof fn law_detached_touches_no_settings(s: PortalView, stored: Option<Seq<char>>)
    requires
        !s.app_attached,
    ensures
        forall|i: int|
            0 <= i < delete_everywhere_step(s, stored).1.len() ==> (#[trigger] delete_everywhere_step(
                s,
                stored,
            ).1[i]) is DeleteStoreEntry,
{
    let effects = delete_everywhere_step(s, stored).1;
    assert(set_authorized_step(s, false).1 =~= Seq::<EffectView>::empty());
    assert(effects =~= store_deletion(known_token(s, stored)));
}

/// Typing is offered exactly when it would be attempted.
pub proof fn law_available_matches_send(s: PortalView, wayland: bool)
    ensures
        available(s, wayland) == (send_gate(s, wayland) is Ok),
{
}

/// Start-up outside Wayland leaves the state untouched and asks for nothing.
pub proof fn law_init_outside_wayland(s: PortalView, stored: Option<Seq<char>>)
    ensures
        init_step(s, false, stored) == (s, Seq::<EffectView>::empty()),
{
}

/// The hexadecimal digits typed in Unicode input denote exactly the code point
/// of the character.
pub proof fn law_unicode_digits_denote_code_point(ch: char)
    ensures
        numeral_value(numeral(ch as nat, 16), 16) == ch as nat,
{
    lemma_numeral_round_trip(ch as nat, 16);
}

/// The digits of a hexadecimal numeral are lowercase: `0`-`9` and `a`-`f`.
pub proof fn law_hex_digits_lowercase(n: nat)
    ensures
        forall|i: int|
            0 <= i < numeral(n, 16).len() ==> ('0' <= #[trigger] numeral(n, 16)[i] <= '9' || 'a'
                <= numeral(n, 16)[i] <= 'f'),
    decreases n,
{
    if n < 16 {
        lemma_digit_round_trip(n);
        assert(n % 16 == n);
    } else {
        assert(n / 16 < n);
        law_hex_digits_lowercase(n / 16);
        lemma_digit_round_trip(n % 16);
        let s = numeral(n, 16);
        let head = numeral(n / 16, 16);
        assert(s =~= head.push(digit_char(n % 16)));
        assert forall|i: int| 0 <= i < s.len() implies ('0' <= #[trigger] s[i] <= '9' || 'a' <= s[i]
            <= 'f') by {
            if i < head.len() {
                assert(s[i] == head[i]);
            }
        }
    }
}

/// Distinct characters have distinct keysyms, except carriage return and line
/// feed, which both are Return.
pub proof fn law_keysyms_distinguish_chars(a: char, b: char)
    requires
        a != b,
        !((a == '\n' || a == '\r') && (b == '\n' || b == '\r')),
    ensures
        keysym_of(a) != keysym_of(b),
{
    assert(a as u32 != b as u32);
}

/// Typing a text never leaves a key held down: for every key, at every point of
/// the strokes it has been released no more often than pressed, and at the end
/// as often as pressed.
pub proof fn law_every_key_released(text: Seq<char>, k: u32)
    ensures
        keys_balanced(text_strokes(text), k),
{
    lemma_text_strokes_balanced(text, k);
}

/// The keysym of every character: Return for line feed and carriage return,
/// Tab and BackSpace for their characters, the code point itself for every other
/// character of ISO-8859-1, and the code point plus `0x0100_0000` above it.
pub proof fn law_keysym_values(c: char)
    ensures
        (c == '\n' || c == '\r') ==> keysym_of(c) == 0xFF0D,
        c == '\t' ==> keysym_of(c) == 0xFF09,
        c == '\u{8}' ==> keysym_of(c) == 0xFF08,
        (c as u32) <= 0xFF && c != '\n' && c != '\r' && c != '\t' && c != '\u{8}' ==> keysym_of(c)
            == c as u32,
        (c as u32) > 0xFF ==> keysym_of(c) == 0x0100_0000 + (c as u32),
{
}

/// A started session with a restore token sets the flag, keeps the token in
/// memory, and yields exactly: the change event when the flag was clear and an
/// application is attached, then the settings write when an application is
/// attached. Nothing is deleted. A session without a restore token changes
/// nothing.
pub proof fn law_session_started_effects(s: PortalView, token: Seq<char>)
    ensures
        session_started_step(s, Some(token)).0 == (PortalView {
            token: Some(token),
            authorized: true,
            app_attached: s.app_attached,
        }),
        session_started_step(s, Some(token)).1 == (if !s.authorized && s.app_attached {
            seq![EffectView::EmitAuthChanged(true)]
        } else {
            Seq::<EffectView>::empty()
        }) + (if s.app_attached {
            seq![EffectView::SaveTokenSetting(Some(token))]
        } else {
            Seq::<EffectView>::empty()
        }),
        forall|i: int|
            0 <= i < session_started_step(s, Some(token)).1.len() ==> !(
            #[trigger] session_started_step(s, Some(token)).1[i] is DeleteStoreEntry),
        session_started_step(s, None) == (s, Seq::<EffectView>::empty()),
{
    let e = session_started_step(s, Some(token)).1;
    assert forall|i: int| 0 <= i < e.len() implies !(#[trigger] e[i] is DeleteStoreEntry) by {
        if s.app_attached && !s.authorized {
            assert(e =~= seq![
                EffectView::EmitAuthChanged(true),
                EffectView::SaveTokenSetting(Some(token)),
            ]);
        } else if s.app_attached {
            assert(e =~= seq![EffectView::SaveTokenSetting(Some(token))]);
        } else {
            assert(e =~= Seq::<EffectView>::empty());
        }
    }
}

/// Typing two texts one after the other gives the strokes of the first followed
/// by those of the second: every character is typed, once, in order.
pub proof fn law_text_strokes_concat(a: Seq<char>, b: Seq<char>)
    ensures
        text_strokes(a + b) == text_strokes(a) + text_strokes(b),
    decreases b.len(),
{
    if b.len() == 0 {
        assert(a + b =~= a);
        assert(text_strokes(b) =~= Seq::<Stroke>::empty());
        assert(text_strokes(a) + text_strokes(b) =~= text_strokes(a));
    } else {
        law_text_strokes_concat(a, b.drop_last());
        assert((a + b).drop_last() =~= a + b.drop_last());
        assert((a + b).last() == b.last());
        assert(text_strokes(a) + text_strokes(b) =~= text_strokes(a) + text_strokes(b.drop_last())
            + char_strokes(b.last()));
    }
}

/// Typing one more character appends its strokes.
pub proof fn law_text_strokes_push(a: Seq<char>, c: char)
    ensures
        text_strokes(a.push(c)) == text_strokes(a) + char_strokes(c),
        text_strokes(seq![c]) == char_strokes(c),
{
    assert(a.push(c).drop_last() =~= a);
    assert(seq![c].drop_last() =~= Seq::<char>::empty());
    assert(seq![c].last() == c);
    assert(text_strokes(Seq::<char>::empty()) =~= Seq::<Stroke>::empty());
    assert(text_strokes(seq![c]) == text_strokes(Seq::<char>::empty()) + char_strokes(c));
    assert(Seq::<Stroke>::empty() + char_strokes(c) =~= char_strokes(c));
}

/// A character up to U+007F is typed as a press and then a release of its
/// keysym, and nothing else.
pub proof fn law_ascii_char_strokes(c: char)
    requires
        (c as u32) <= 0x7F,
    ensures
        char_strokes(c) == seq![
            Stroke::Key {
                keysym: keysym_of(c),
                direction: KeyDirection::Pressed,
                context: StrokeContext::Plain,
            },
            Stroke::Key {
                keysym: keysym_of(c),
                direction: KeyDirection::Released,
                context: StrokeContext::Plain,
            },
        ],
{
}

/// A text of characters up to U+007F is typed as two key events per
/// character: the press and the release of the `i`-th character's keysym at
/// positions `2 i` and `2 i + 1`.
pub proof fn law_ascii_text_strokes(text: Seq<char>)
    requires
        forall|i: int| 0 <= i < text.len() ==> (#[trigger] text[i] as u32) <= 0x7F,
    ensures
        text_strokes(text).len() == 2 * text.len(),
        forall|i: int|
            0 <= i < text.len() ==> #[trigger] text_strokes(text)[2 * i] == (Stroke::Key {
                keysym: keysym_of(text[i]),
                direction: KeyDirection::Pressed,
                context: StrokeContext::Plain,
            }) && text_strokes(text)[2 * i + 1] == (Stroke::Key {
                keysym: keysym_of(text[i]),
                direction: KeyDirection::Released,
                context: StrokeContext::Plain,
            }),
    decreases text.len(),
{
    if text.len() > 0 {
        let init = text.drop_last();
        assert forall|i: int| 0 <= i < init.len() implies (#[trigger] init[i] as u32) <= 0x7F by {
            assert(init[i] == text[i]);
        }
        law_ascii_text_strokes(init);
        law_ascii_char_strokes(text.last());
        let whole = text_strokes(text);
        let head = text_strokes(init);
        assert(whole == head + char_strokes(text.last()));
        assert forall|i: int| 0 <= i < text.len() implies #[trigger] whole[2 * i] == (Stroke::Key {
            keysym: keysym_of(text[i]),
            direction: KeyDirection::Pressed,
            context: StrokeContext::Plain,
        }) && whole[2 * i + 1] == (Stroke::Key {
            keysym: keysym_of(text[i]),
            direction: KeyDirection::Released,
            context: StrokeContext::Plain,
        }) by {
            if i < init.len() {
                assert(init[i] == text[i]);
                assert(whole[2 * i] == head[2 * i]);
                assert(whole[2 * i + 1] == head[2 * i + 1]);
            } else {
                assert(i == init.len());
            }
        }
    }
}

/// The key event of the `j`-th digit `c` of a code point typed in Unicode
/// input: its code point as keysym, labelled with `j` and the digit.
pub open spec fn digit_key(j: int, c: char, direction: KeyDirection) -> Stroke {
    Stroke::Key {
        keysym: c as u32,
        direction,
        context: StrokeContext::HexDigit { index: j as usize, digit: c },
    }
}

/// Whether `c` is a lowercase hexadecimal digit.
pub open spec fn is_lower_hex(c: char) -> bool {
    ('0' <= c <= '9') || ('a' <= c <= 'f')
}

proof fn lemma_hex_digit_strokes_are_taps(d: Seq<char>)
    requires
        forall|i: int| 0 <= i < d.len() ==> is_lower_hex(#[trigger] d[i]),
    ensures
        hex_digit_strokes(d).len() == 2 * d.len(),
        forall|j: int|
            0 <= j < d.len() ==> #[trigger] hex_digit_strokes(d)[2 * j] == digit_key(
                j,
                d[j],
                KeyDirection::Pressed,
            ) && hex_digit_strokes(d)[2 * j + 1] == digit_key(j, d[j], KeyDirection::Released),
    decreases d.len(),
{
    if d.len() > 0 {
        let init = d.drop_last();
        assert forall|i: int| 0 <= i < init.len() implies is_lower_hex(#[trigger] init[i]) by {
            assert(init[i] == d[i]);
        }
        lemma_hex_digit_strokes_are_taps(init);
        let n = d.len() - 1;
        let last = d.last();
        assert(is_lower_hex(d[n]));
        assert(keysym_of(last) == last as u32);
        let head = hex_digit_strokes(init);
        let pair = crate::keystrokes::tap(
            keysym_of(last),
            StrokeContext::HexDigit { index: n as usize, digit: last },
        );
        let whole = hex_digit_strokes(d);
        assert(whole == head + pair);
        assert forall|j: int| 0 <= j < d.len() implies #[trigger] whole[2 * j] == digit_key(
            j,
            d[j],
            KeyDirection::Pressed,
        ) && whole[2 * j + 1] == digit_key(j, d[j], KeyDirection::Released) by {
            if j < n {
                assert(init[j] == d[j]);
                assert(whole[2 * j] == head[2 * j]);
                assert(whole[2 * j + 1] == head[2 * j + 1]);
            } else {
                assert(whole[2 * j] == pair[0]);
                assert(whole[2 * j + 1] == pair[1]);
            }
        }
    }
}

/// A character above U+007F is typed by holding Control and Shift around a tap
/// of `u`, then tapping the lowercase hexadecimal digits of its code point, most
/// significant first, each labelled with its position, then tapping Return and
/// pausing 8 ms; nothing else is sent. The digits tapped denote exactly the
/// code point.
pub proof fn law_unicode_input_strokes(ch: char)
    requires
        (ch as u32) > 0x7F,
    ensures
        ({
            let d = numeral(ch as nat, 16);
            let s = char_strokes(ch);
            &&& numeral_value(d, 16) == ch as nat
            &&& forall|i: int| 0 <= i < d.len() ==> is_lower_hex(#[trigger] d[i])
            &&& s.len() == 2 * d.len() + 9
            &&& s[0] == Stroke::Key {
                keysym: 0xFFE3,
                direction: KeyDirection::Pressed,
                context: StrokeContext::PressControl,
            }
            &&& s[1] == Stroke::Key {
                keysym: 0xFFE1,
                direction: KeyDirection::Pressed,
                context: StrokeContext::PressShift,
            }
            &&& s[2] == Stroke::Key {
                keysym: 0x75,
                direction: KeyDirection::Pressed,
                context: StrokeContext::Plain,
            }
            &&& s[3] == Stroke::Key {
                keysym: 0x75,
                direction: KeyDirection::Released,
                context: StrokeContext::Plain,
            }
            &&& s[4] == Stroke::Key {
                keysym: 0xFFE1,
                direction: KeyDirection::Released,
                context: StrokeContext::ReleaseShift,
            }
            &&& s[5] == Stroke::Key {
                keysym: 0xFFE3,
                direction: KeyDirection::Released,
                context: StrokeContext::ReleaseControl,
            }
            &&& forall|j: int|
                0 <= j < d.len() ==> #[trigger] s[6 + 2 * j] == digit_key(
                    j,
                    d[j],
                    KeyDirection::Pressed,
                ) && s[7 + 2 * j] == digit_key(j, d[j], KeyDirection::Released)
            &&& s[s.len() - 3] == Stroke::Key {
                keysym: 0xFF0D,
                direction: KeyDirection::Pressed,
                context: StrokeContext::Plain,
            }
            &&& s[s.len() - 2] == Stroke::Key {
                keysym: 0xFF0D,
                direction: KeyDirection::Released,
                context: StrokeContext::Plain,
            }
            &&& s[s.len() - 1] == Stroke::Pause { millis: 8 }
        }),
{
    let d = numeral(ch as nat, 16);
    lemma_numeral_round_trip(ch as nat, 16);
    law_hex_digits_lowercase(ch as nat);
    assert forall|i: int| 0 <= i < d.len() implies is_lower_hex(#[trigger] d[i]) by {
        assert('0' <= d[i] <= '9' || 'a' <= d[i] <= 'f');
    }
    lemma_hex_digit_strokes_are_taps(d);
    let h = hex_digit_strokes(d);
    let s = char_strokes(ch);
    let m = h.len();
    assert(s.len() == m + 9);
    assert forall|j: int| 0 <= j < d.len() implies #[trigger] s[6 + 2 * j] == digit_key(
        j,
        d[j],
        KeyDirection::Pressed,
    ) && s[7 + 2 * j] == digit_key(j, d[j], KeyDirection::Released) by {
        assert(s[6 + 2 * j] == h[2 * j]);
        assert(s[7 + 2 * j] == h[2 * j + 1]);
    }
}

/// Setting the flag to `value` changes only the flag, and the one effect it
/// may yield is the change event carrying `value`.
pub proof fn law_set_authorized_effect(s: PortalView, value: bool)
    ensures
        set_authorized_step(s, value).0 == (PortalView {
            token: s.token,
            authorized: value,
            app_attached: s.app_attached,
        }),
        set_authorized_step(s, value).1 == (if s.authorized != value && s.app_attached {
            seq![EffectView::EmitAuthChanged(value)]
        } else {
            Seq::<EffectView>::empty()
        }),
{
}

/// Revoking yields, in order: the change event when the flag was set and an
/// application is attached; the deletion from the permission store of the
/// token in memory, or else of the one in the settings (read only through an
/// attached application), unless there is none or it is empty; and the
/// removal of the token from the settings when they hold one and an
/// application is attached.
pub proof fn law_revocation_effects(s: PortalView, stored: Option<Seq<char>>)
    ensures
        ({
            let token = if s.token is Some {
                s.token
            } else if s.app_attached {
                stored
            } else {
                None
            };
            delete_everywhere_step(s, stored).1 == (if s.authorized && s.app_attached {
                seq![EffectView::EmitAuthChanged(false)]
            } else {
                Seq::<EffectView>::empty()
            }) + (if token is Some && token->0.len() > 0 {
                seq![EffectView::DeleteStoreEntry(token->0)]
            } else {
                Seq::<EffectView>::empty()
            }) + (if s.app_attached && stored is Some {
                seq![EffectView::SaveTokenSetting(None)]
            } else {
                Seq::<EffectView>::empty()
            })
        }),
{
}

/// Start-up on Wayland attaches the application; a token in the settings is
/// taken into memory and sets the flag, announcing the change when the flag
/// was clear. Nothing is written or deleted.
pub proof fn law_init_on_wayland(s: PortalView, stored: Option<Seq<char>>)
    ensures
        init_step(s, true, stored).0 == (PortalView {
            token: if stored is Some {
                stored
            } else {
                s.token
            },
            authorized: s.authorized || stored is Some,
            app_attached: true,
        }),
        init_step(s, true, stored).1 == (if stored is Some && !s.authorized {
            seq![EffectView::EmitAuthChanged(true)]
        } else {
            Seq::<EffectView>::empty()
        }),
{
}

} // verus!
