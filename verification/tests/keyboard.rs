use remote_desktop::digits::numeral_of;
use remote_desktop::keystrokes::{
    push_char_strokes, strokes_for_chars, KeyDirection, Stroke, StrokeContext, XK_CONTROL_L,
    XK_SHIFT_L, XK_U,
};
use remote_desktop::keysym::{keysym_for_char, XK_BACKSPACE, XK_RETURN, XK_TAB};
use remote_desktop::messages::{failure_message, stroke_failure_message, PortalFailure};
use remote_desktop::authorization::type_text_strokes;

fn key(keysym: u32, direction: KeyDirection, context: StrokeContext) -> Stroke {
    Stroke::Key { keysym, direction, context }
}

fn tap(keysym: u32, context: StrokeContext) -> Vec<Stroke> {
    vec![
        key(keysym, KeyDirection::Pressed, context),
        key(keysym, KeyDirection::Released, context),
    ]
}

fn unicode_input(hex: &str) -> Vec<Stroke> {
    let mut v = vec![
        key(XK_CONTROL_L, KeyDirection::Pressed, StrokeContext::PressControl),
        key(XK_SHIFT_L, KeyDirection::Pressed, StrokeContext::PressShift),
    ];
    v.extend(tap(XK_U, StrokeContext::Plain));
    v.push(key(XK_SHIFT_L, KeyDirection::Released, StrokeContext::ReleaseShift));
    v.push(key(XK_CONTROL_L, KeyDirection::Released, StrokeContext::ReleaseControl));
    for (index, digit) in hex.chars().enumerate() {
        v.extend(tap(digit as u32, StrokeContext::HexDigit { index, digit }));
    }
    v.extend(tap(XK_RETURN, StrokeContext::Plain));
    v.push(Stroke::Pause { millis: 8 });
    v
}

#[test]
fn keysym_of_special_keys() {
    assert_eq!(keysym_for_char('\n'), Some(0xFF0D));
    assert_eq!(keysym_for_char('\r'), Some(XK_RETURN));
    assert_eq!(keysym_for_char('\t'), Some(XK_TAB));
    assert_eq!(keysym_for_char('\u{8}'), Some(XK_BACKSPACE));
}

#[test]
fn keysym_of_latin1_is_code_point() {
    assert_eq!(keysym_for_char('a'), Some(0x61));
    assert_eq!(keysym_for_char(' '), Some(0x20));
    assert_eq!(keysym_for_char('~'), Some(0x7E));
    assert_eq!(keysym_for_char('é'), Some(0xE9));
    assert_eq!(keysym_for_char('\u{FF}'), Some(0xFF));
}

#[test]
fn keysym_of_higher_code_points_is_unicode_keysym() {
    assert_eq!(keysym_for_char('\u{100}'), Some(0x0100_0100));
    assert_eq!(keysym_for_char('€'), Some(0x0100_20AC));
    assert_eq!(keysym_for_char('\u{10FFFF}'), Some(0x0110_FFFF));
}

#[test]
fn numerals_in_decimal_and_hex() {
    assert_eq!(numeral_of(0, 10), vec!['0']);
    assert_eq!(numeral_of(1234, 10), vec!['1', '2', '3', '4']);
    assert_eq!(numeral_of(0x20AC, 16), vec!['2', '0', 'a', 'c']);
    assert_eq!(numeral_of(0x10FFFF, 16), vec!['1', '0', 'f', 'f', 'f', 'f']);
    assert_eq!(numeral_of(15, 16), vec!['f']);
    assert_eq!(numeral_of(16, 16), vec!['1', '0']);
}

#[test]
fn ascii_text_is_tapped_key_by_key() {
    let strokes = strokes_for_chars(&['H', 'i', '\n']);
    let mut expected = tap(0x48, StrokeContext::Plain);
    expected.extend(tap(0x69, StrokeContext::Plain));
    expected.extend(tap(XK_RETURN, StrokeContext::Plain));
    assert_eq!(strokes, expected);
}

#[test]
fn non_ascii_goes_through_unicode_input() {
    assert_eq!(strokes_for_chars(&['€']), unicode_input("20ac"));
    // Latin-1 above ASCII also uses Unicode input.
    assert_eq!(strokes_for_chars(&['é']), unicode_input("e9"));
}

#[test]
fn delete_char_is_ascii() {
    assert_eq!(strokes_for_chars(&['\u{7F}']), tap(0x7F, StrokeContext::Plain));
    assert_eq!(strokes_for_chars(&['\u{80}']), unicode_input("80"));
}

#[test]
fn push_char_strokes_appends() {
    let mut out = tap(0x61, StrokeContext::Plain);
    push_char_strokes(&mut out, 'b');
    let mut expected = tap(0x61, StrokeContext::Plain);
    expected.extend(tap(0x62, StrokeContext::Plain));
    assert_eq!(out, expected);
}

#[test]
fn empty_text_has_no_strokes() {
    assert!(strokes_for_chars(&[]).is_empty());
    assert!(type_text_strokes("").is_empty());
}

#[test]
fn text_is_normalized_before_typing() {
    // "e" followed by a combining acute accent composes to U+00E9.
    assert_eq!(type_text_strokes("e\u{301}"), unicode_input("e9"));
    let mut expected = tap(0x6F, StrokeContext::Plain);
    expected.extend(tap(0x6B, StrokeContext::Plain));
    assert_eq!(type_text_strokes("ok"), expected);
    // Already composed text is typed as it is.
    assert_eq!(type_text_strokes("\u{E9}"), unicode_input("e9"));
    // A Hangul syllable written as two jamo composes to one code point.
    assert_eq!(type_text_strokes("\u{1100}\u{1161}"), unicode_input("ac00"));
}

#[test]
fn every_key_is_released() {
    let strokes = type_text_strokes("a€\u{1F600}z");
    let mut held: std::collections::HashMap<u32, i64> = std::collections::HashMap::new();
    for s in &strokes {
        if let Stroke::Key { keysym, direction, .. } = s {
            let c = held.entry(*keysym).or_insert(0);
            match direction {
                KeyDirection::Pressed => *c += 1,
                KeyDirection::Released => *c -= 1,
            }
            assert!(*c >= 0);
        }
    }
    assert!(held.values().all(|c| *c == 0));
}

#[test]
fn stroke_failure_messages() {
    assert_eq!(
        stroke_failure_message(StrokeContext::Plain, KeyDirection::Pressed, "boom"),
        "Failed to send keysym press: boom"
    );
    assert_eq!(
        stroke_failure_message(StrokeContext::Plain, KeyDirection::Released, "boom"),
        "Failed to send keysym release: boom"
    );
    assert_eq!(
        stroke_failure_message(StrokeContext::PressControl, KeyDirection::Pressed, "e"),
        "unicode-input failed pressing Control: e"
    );
    assert_eq!(
        stroke_failure_message(StrokeContext::PressShift, KeyDirection::Pressed, "e"),
        "unicode-input failed pressing Shift: e"
    );
    assert_eq!(
        stroke_failure_message(StrokeContext::ReleaseShift, KeyDirection::Released, "e"),
        "unicode-input failed releasing Shift: e"
    );
    assert_eq!(
        stroke_failure_message(StrokeContext::ReleaseControl, KeyDirection::Released, "e"),
        "unicode-input failed releasing Control: e"
    );
    assert_eq!(
        stroke_failure_message(
            StrokeContext::HexDigit { index: 2, digit: 'a' },
            KeyDirection::Released,
            "gone"
        ),
        "unicode-input failed at hex digit #2 'a': Failed to send keysym release: gone"
    );
    assert_eq!(
        stroke_failure_message(
            StrokeContext::HexDigit { index: 12, digit: '0' },
            KeyDirection::Pressed,
            "x"
        ),
        "unicode-input failed at hex digit #12 '0': Failed to send keysym press: x"
    );
}

#[test]
fn portal_failure_messages() {
    assert_eq!(
        failure_message(PortalFailure::Connect, "no bus"),
        "Failed to connect to RemoteDesktop portal: no bus"
    );
    assert_eq!(
        failure_message(PortalFailure::RuntimeInit, "e"),
        "Failed to initialize portal runtime: e"
    );
    assert_eq!(
        failure_message(PortalFailure::CreateSession, "e"),
        "Failed to create RemoteDesktop session: e"
    );
    assert_eq!(
        failure_message(PortalFailure::RequestDevices, "e"),
        "Failed to request RemoteDesktop devices: e"
    );
    assert_eq!(
        failure_message(PortalFailure::DevicesDenied, "e"),
        "RemoteDesktop device request denied: e"
    );
    assert_eq!(
        failure_message(PortalFailure::Start, "e"),
        "Failed to start RemoteDesktop session: e"
    );
    assert_eq!(failure_message(PortalFailure::StartDenied, "Cancelled"), "portal-permission-denied: Cancelled");
    assert_eq!(
        failure_message(PortalFailure::CloseSession, "e"),
        "Failed to close RemoteDesktop session: e"
    );
    assert_eq!(
        failure_message(PortalFailure::DeleteEntry, "e"),
        "Failed to delete permission entry: e"
    );
}
