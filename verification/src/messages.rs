//! Error messages of the portal operations.

use crate::digits::{numeral, numeral_of};
use crate::keystrokes::{KeyDirection, StrokeContext};
use vstd::prelude::*;
use vstd::string::StringExecFns;

verus! {

/// The portal steps that can fail with an error reported by an outside call; the
/// message is a fixed prefix followed by that error's text.
#[derive(Clone, Copy, Debug, PartialEq, Eq, Structural)]
pub enum PortalFailure {
    /// The dedicated runtime for portal calls could not be built.
    RuntimeInit,
    /// No connection to the RemoteDesktop portal.
    Connect,
    /// The portal did not create a session.
    CreateSession,
    /// The device selection request failed.
    RequestDevices,
    /// The user or the portal denied the device selection.
    DevicesDenied,
    /// Starting the session failed.
    Start,
    /// The user or the portal denied starting the session.
    StartDenied,
    /// Closing the session failed.
    CloseSession,
    /// The permission store did not delete the entry.
    DeleteEntry,
}

/// The prefix that introduces the error text of `kind`.
pub open spec fn failure_prefix(kind: PortalFailure) -> Seq<char> {
    match kind {
        PortalFailure::RuntimeInit => "Failed to initialize portal runtime: "@,
        PortalFailure::Connect => "Failed to connect to RemoteDesktop portal: "@,
        PortalFailure::CreateSession => "Failed to create RemoteDesktop session: "@,
        PortalFailure::RequestDevices => "Failed to request RemoteDesktop devices: "@,
        PortalFailure::DevicesDenied => "RemoteDesktop device request denied: "@,
        PortalFailure::Start => "Failed to start RemoteDesktop session: "@,
        PortalFailure::StartDenied => "portal-permission-denied: "@,
        PortalFailure::CloseSession => "Failed to close RemoteDesktop session: "@,
        PortalFailure::DeleteEntry => "Failed to delete permission entry: "@,
    }
}

/// The message for a failure of `kind` whose outside error reads `detail`.
pub fn failure_message(kind: PortalFailure, detail: &str) -> (r: String)
    ensures
        r@ == failure_prefix(kind) + detail@,
{
    let mut r = match kind {
        PortalFailure::RuntimeInit => String::from_str("Failed to initialize portal runtime: "),
        PortalFailure::Connect => String::from_str("Failed to connect to RemoteDesktop portal: "),
        PortalFailure::CreateSession => String::from_str("Failed to create RemoteDesktop session: "),
        PortalFailure::RequestDevices => String::from_str(
            "Failed to request RemoteDesktop devices: ",
        ),
        PortalFailure::DevicesDenied => String::from_str("RemoteDesktop device request denied: "),
        PortalFailure::Start => String::from_str("Failed to start RemoteDesktop session: "),
        PortalFailure::StartDenied => String::from_str("portal-permission-denied: "),
        PortalFailure::CloseSession => String::from_str("Failed to close RemoteDesktop session: "),
        PortalFailure::DeleteEntry => String::from_str("Failed to delete permission entry: "),
    };
    r.append(detail);
    r
}

/// The message when sending a key event of a plain tap fails with `err`.
pub open spec fn send_failure_text(direction: KeyDirection, err: Seq<char>) -> Seq<char> {
    match direction {
        KeyDirection::Pressed => "Failed to send keysym press: "@ + err,
        KeyDirection::Released => "Failed to send keysym release: "@ + err,
    }
}

/// The message when the portal refuses a key event of `context` and `direction`
/// with the error text `err`.
pub open spec fn stroke_failure_text(
    context: StrokeContext,
    direction: KeyDirection,
    err: Seq<char>,
) -> Seq<char> {
    match context {
        StrokeContext::Plain => send_failure_text(direction, err),
        StrokeContext::PressControl => "unicode-input failed pressing Control: "@ + err,
        StrokeContext::PressShift => "unicode-input failed pressing Shift: "@ + err,
        StrokeContext::ReleaseShift => "unicode-input failed releasing Shift: "@ + err,
        StrokeContext::ReleaseControl => "unicode-input failed releasing Control: "@ + err,
        StrokeContext::HexDigit { index, digit } => "unicode-input failed at hex digit #"@
            + numeral(index as nat, 10) + " '"@ + seq![digit] + "': "@ + send_failure_text(
            direction,
            err,
        ),
    }
}

/// Calls `String::push` of std, which appends one character.
#[verifier::external_body]
fn push_char(s: &mut String, c: char)
    ensures
        final(s)@ == old(s)@.push(c),
{
    s.push(c);
}

/// The message for a plain tap whose event failed with `err`.
fn send_failure_message(direction: KeyDirection, err: &str) -> (r: String)
    ensures
        r@ == send_failure_text(direction, err@),
{
    let mut r = match direction {
        KeyDirection::Pressed => String::from_str("Failed to send keysym press: "),
        KeyDirection::Released => String::from_str("Failed to send keysym release: "),
    };
    r.append(err);
    r
}

/// The message reported when the portal refuses a key event of `context` and
/// `direction` with the error text `err`.
pub fn stroke_failure_message(context: StrokeContext, direction: KeyDirection, err: &str) -> (r:
    String)
    ensures
        r@ == stroke_failure_text(context, direction, err@),
{
    match context {
        StrokeContext::Plain => send_failure_message(direction, err),
        StrokeContext::PressControl => {
            let mut r = String::from_str("unicode-input failed pressing Control: ");
            r.append(err);
            r
        },
        StrokeContext::PressShift => {
            let mut r = String::from_str("unicode-input failed pressing Shift: ");
            r.append(err);
            r
        },
        StrokeContext::ReleaseShift => {
            let mut r = String::from_str("unicode-input failed releasing Shift: ");
            r.append(err);
            r
        },
        StrokeContext::ReleaseControl => {
            let mut r = String::from_str("unicode-input failed releasing Control: ");
            r.append(err);
            r
        },
        StrokeContext::HexDigit { index, digit } => {
            let mut r = String::from_str("unicode-input failed at hex digit #");
            let ghost head = r@;
            let decimal = numeral_of(index as u64, 10);
            let mut i: usize = 0;
            while i < decimal.len()
                invariant
                    0 <= i <= decimal.len(),
                    decimal@ == numeral(index as nat, 10),
                    r@ == head + decimal@.subrange(0, i as int),
                decreases decimal.len() - i,
            {
                push_char(&mut r, decimal[i]);
                assert(decimal@.subrange(0, i as int + 1) =~= decimal@.subrange(
                    0,
                    i as int,
                ).push(decimal@[i as int]));
                i = i + 1;
            }
            assert(decimal@.subrange(0, decimal@.len() as int) =~= decimal@);
            r.append(" '");
            push_char(&mut r, digit);
            r.append("': ");
            let tail = send_failure_message(direction, err);
            r.append(tail.as_str());
            assert(r@ =~= stroke_failure_text(context, direction, err@));
            r
        },
    }
}

} // verus!
