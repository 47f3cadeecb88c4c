//! Authorization state of the RemoteDesktop portal and the decisions taken on it.
//!
//! The portal grants keyboard access once the user accepts a prompt; it then hands
//! out a restore token, which is kept in memory and in the application's
//! settings so that later sessions open without a prompt. Whether access is
//! currently granted is a flag whose changes the application announces with the
//! `remote-desktop-auth-changed` event. The permission store of the desktop
//! portal keeps its own entry for the token.
//!
//! Everything that talks to the outside (the settings file, the event, the
//! portal over D-Bus) is described here as an `Effect` or as a step that asks
//! for an answer; the caller performs it and hands the answer back.

use crate::keystrokes::{strokes_for_chars, text_strokes, Stroke};
use crate::messages::{failure_message, failure_prefix, PortalFailure};
use crate::normalize::{before_combining_marks, chars_before_combining_marks, nfc_chars, nfc_of};
use vstd::prelude::*;
use vstd::string::StringExecFns;

verus! {

/// The authorization state kept in memory.
pub struct PortalState {
    /// The restore token handed out by the portal, if one is known.
    pub token: Option<String>,
    /// Whether keyboard access is currently granted.
    pub authorized: bool,
    /// Whether an application handle is attached, through which settings are
    /// read and written and events are emitted.
    pub app_attached: bool,
}

/// The mathematical value of a `PortalState`.
pub struct PortalView {
    pub token: Option<Seq<char>>,
    pub authorized: bool,
    pub app_attached: bool,
}

/// The characters of an optional string.
pub open spec fn opt_view(o: Option<String>) -> Option<Seq<char>> {
    match o {
        Some(s) => Some(s@),
        None => None,
    }
}

impl View for PortalState {
    type V = PortalView;

    open spec fn view(&self) -> PortalView {
        PortalView {
            token: opt_view(self.token),
            authorized: self.authorized,
            app_attached: self.app_attached,
        }
    }
}

/// Work on the outside that a decision asks the caller to do.
#[derive(Debug, PartialEq, Eq)]
pub enum Effect {
    /// Emit `remote-desktop-auth-changed` with the new value of the flag.
    EmitAuthChanged(bool),
    /// Write the restore token into the settings (`None` removes it).
    SaveTokenSetting(Option<String>),
    /// Ask the permission store to delete its entry for this token; the reply
    /// is only reported, never acted on.
    DeleteStoreEntry(String),
}

/// The mathematical value of an `Effect`.
pub enum EffectView {
    EmitAuthChanged(bool),
    SaveTokenSetting(Option<Seq<char>>),
    DeleteStoreEntry(Seq<char>),
}

impl View for Effect {
    type V = EffectView;

    open spec fn view(&self) -> EffectView {
        match self {
            Effect::EmitAuthChanged(v) => EffectView::EmitAuthChanged(*v),
            Effect::SaveTokenSetting(t) => EffectView::SaveTokenSetting(opt_view(*t)),
            Effect::DeleteStoreEntry(t) => EffectView::DeleteStoreEntry(t@),
        }
    }
}

/// The values of a sequence of effects.
pub open spec fn effects_view(v: Seq<Effect>) -> Seq<EffectView> {
    v.map_values(|e: Effect| e@)
}

/// The values of an optional effect, as a sequence of length at most one.
pub open spec fn opt_effects(e: Option<Effect>) -> Seq<EffectView> {
    match e {
        Some(x) => seq![x@],
        None => Seq::empty(),
    }
}

/// Name of the event that announces a change of the authorization flag.
pub const AUTH_CHANGED_EVENT: &'static str = "remote-desktop-auth-changed";

/// Table of the permission store that holds the portal's remote desktop grants.
pub const PERMISSION_TABLE: &'static str = "remote-desktop";

/// Seconds that a permission store call may take before it counts as timed out.
pub const STORE_TIMEOUT_SECS: u64 = 2;

/// Text of the error when typing is asked for outside a Wayland session.
pub open spec fn not_wayland_text() -> Seq<char> {
    "not running on Wayland"@
}

/// Text of the error when typing is asked for without authorization.
pub open spec fn not_granted_text() -> Seq<char> {
    "authorization not granted"@
}

/// Text of the error when a session may not prompt and no valid token exists.
pub open spec fn permission_missing_text() -> Seq<char> {
    "portal-permission-not-granted"@
}

// ---------------------------------------------------------------------------
// The state machine, as spec functions on views
// ---------------------------------------------------------------------------

/// The state with the flag set to `value`, and the event emitted when the flag
/// changes while an application is attached.
pub open spec fn set_authorized_step(s: PortalView, value: bool) -> (PortalView, Seq<EffectView>) {
    (
        PortalView { authorized: value, ..s },
        if s.authorized != value && s.app_attached {
            seq![EffectView::EmitAuthChanged(value)]
        } else {
            Seq::empty()
        },
    )
}

/// The token that the settings give, where `stored` is what they hold: none
/// while no application is attached.
pub open spec fn token_setting_of(s: PortalView, stored: Option<Seq<char>>) -> Option<Seq<char>> {
    if s.app_attached {
        stored
    } else {
        None
    }
}

/// The token in memory, or else the one in the settings.
pub open spec fn known_token(s: PortalView, stored: Option<Seq<char>>) -> Option<Seq<char>> {
    if s.token is Some {
        s.token
    } else {
        token_setting_of(s, stored)
    }
}

/// The deletion of the permission store's entry for `token`: none for no token
/// or for the empty one.
pub open spec fn store_deletion(token: Option<Seq<char>>) -> Seq<EffectView> {
    match token {
        Some(t) => if t.len() > 0 {
            seq![EffectView::DeleteStoreEntry(t)]
        } else {
            Seq::empty()
        },
        None => Seq::empty(),
    }
}

/// Forgetting the authorization everywhere: the flag is cleared, the permission
/// store's entry for the known token is deleted, and the token leaves memory
/// and the settings.
pub open spec fn delete_everywhere_step(s: PortalView, stored: Option<Seq<char>>) -> (
    PortalView,
    Seq<EffectView>,
) {
    let setting = token_setting_of(s, stored);
    let cleared = set_authorized_step(s, false);
    let settings_effects = if setting is Some {
        seq![EffectView::SaveTokenSetting(None)]
    } else {
        Seq::empty()
    };
    (
        PortalView { token: None, ..cleared.0 },
        cleared.1 + store_deletion(known_token(s, stored)) + settings_effects,
    )
}

/// A session that the portal started and that came with `restore_token`: the
/// flag is set and the token is kept in memory and in the settings.
pub open spec fn session_started_step(s: PortalView, restore_token: Option<Seq<char>>) -> (
    PortalView,
    Seq<EffectView>,
) {
    match restore_token {
        Some(t) => {
            let granted = set_authorized_step(s, true);
            let save = if s.app_attached {
                seq![EffectView::SaveTokenSetting(Some(t))]
            } else {
                Seq::empty()
            };
            (PortalView { token: Some(t), ..granted.0 }, granted.1 + save)
        },
        None => (s, Seq::empty()),
    }
}

/// Attaching an application at start-up on Wayland: a token found in the
/// settings is taken into memory and grants authorization until the permission
/// store is asked about it.
pub open spec fn init_step(s: PortalView, wayland: bool, stored: Option<Seq<char>>) -> (
    PortalView,
    Seq<EffectView>,
) {
    if !wayland {
        (s, Seq::empty())
    } else {
        let attached = PortalView { app_attached: true, ..s };
        match stored {
            Some(t) => {
                let granted = set_authorized_step(attached, true);
                (PortalView { token: Some(t), ..granted.0 }, granted.1)
            },
            None => (attached, Seq::empty()),
        }
    }
}

/// Whether typing is possible: on Wayland, with authorization.
pub open spec fn available(s: PortalView, wayland: bool) -> bool {
    wayland && s.authorized
}

/// What `send_type_text` answers before any portal call.
pub open spec fn send_gate(s: PortalView, wayland: bool) -> Result<(), Seq<char>> {
    if !wayland {
        Err(not_wayland_text())
    } else if !s.authorized {
        Err(not_granted_text())
    } else {
        Ok(())
    }
}

// ---------------------------------------------------------------------------
// Executable operations
// ---------------------------------------------------------------------------

impl PortalState {
    /// The state before anything is known: no token, no authorization, no
    /// application.
    pub fn new() -> (s: PortalState)
        ensures
            s@ == (PortalView { token: None, authorized: false, app_attached: false }),
    {
        PortalState { token: None, authorized: false, app_attached: false }
    }
}

/// A copy of an optional string.
fn clone_opt(o: &Option<String>) -> (r: Option<String>)
    ensures
        opt_view(r) == opt_view(*o),
{
    match o {
        Some(s) => Some(s.clone()),
        None => None,
    }
}

/// Appends an optional effect.
fn push_opt(out: &mut Vec<Effect>, e: Option<Effect>)
    ensures
        effects_view(final(out)@) == effects_view(old(out)@) + opt_effects(e),
{
    match e {
        Some(x) => {
            out.push(x);
            assert(effects_view(final(out)@) =~= effects_view(old(out)@) + seq![x@]);
        },
        None => {
            assert(effects_view(final(out)@) =~= effects_view(old(out)@) + Seq::<
                EffectView,
            >::empty());
        },
    }
}

/// Keeps `token` in memory.
pub fn set_token_memory(state: &mut PortalState, token: &str)
    ensures
        final(state)@ == (PortalView { token: Some(token@), ..old(state)@ }),
{
    state.token = Some(String::from_str(token));
}

/// Forgets the token kept in memory.
pub fn delete_token_memory(state: &mut PortalState)
    ensures
        final(state)@ == (PortalView { token: None, ..old(state)@ }),
{
    state.token = None;
}

/// The token kept in memory.
pub fn get_token_memory(state: &PortalState) -> (r: Option<String>)
    ensures
        opt_view(r) == state@.token,
{
    clone_opt(&state.token)
}

/// Writing `token` into the settings: possible only through an attached
/// application.
pub fn set_token_setting(state: &PortalState, token: &str) -> (r: Option<Effect>)
    ensures
        opt_effects(r) == if state.app_attached {
            seq![EffectView::SaveTokenSetting(Some(token@))]
        } else {
            Seq::empty()
        },
        r is Some == state.app_attached,
        r is Some ==> r->0@ == EffectView::SaveTokenSetting(Some(token@)),
{
    if state.app_attached {
        Some(Effect::SaveTokenSetting(Some(String::from_str(token))))
    } else {
        None
    }
}

/// Removing the token from the settings: possible only through an attached
/// application.
pub fn delete_token_setting(state: &PortalState) -> (r: Option<Effect>)
    ensures
        opt_effects(r) == if state.app_attached {
            seq![EffectView::SaveTokenSetting(None)]
        } else {
            Seq::empty()
        },
        r is Some == state.app_attached,
        r is Some ==> r->0@ == EffectView::SaveTokenSetting(None),
{
    if state.app_attached {
        Some(Effect::SaveTokenSetting(None))
    } else {
        None
    }
}

/// The token that the settings give, where `stored` is what the settings
/// hold; without an attached application there is none.
pub fn get_token_setting(state: &PortalState, stored: Option<String>) -> (r: Option<String>)
    ensures
        opt_view(r) == token_setting_of(state@, opt_view(stored)),
{
    if state.app_attached {
        stored
    } else {
        None
    }
}

/// Sets the authorization flag; a change is announced when an application is
/// attached.
pub fn set_authorized(state: &mut PortalState, value: bool) -> (r: Option<Effect>)
    ensures
        final(state)@ == set_authorized_step(old(state)@, value).0,
        opt_effects(r) == set_authorized_step(old(state)@, value).1,
        r is Some == (old(state).authorized != value && old(state).app_attached),
        r is Some ==> r->0@ == EffectView::EmitAuthChanged(value),
{
    let previous = state.authorized;
    state.authorized = value;
    if previous != value && state.app_attached {
        let r = Some(Effect::EmitAuthChanged(value));
        assert(seq![EffectView::EmitAuthChanged(value)] =~= set_authorized_step(
            old(state)@,
            value,
        ).1);
        r
    } else {
        None
    }
}

/// Whether keyboard access is granted.
pub fn get_authorized(state: &PortalState) -> (r: bool)
    ensures
        r == state.authorized,
{
    state.authorized
}

/// The deletion of the permission store's entry for `token`; the store is not
/// asked about the empty token.
pub fn delete_token_store(token: &str) -> (r: Option<Effect>)
    ensures
        opt_effects(r) == store_deletion(Some(token@)),
        r is Some == (token@.len() > 0),
        r is Some ==> r->0@ == EffectView::DeleteStoreEntry(token@),
{
    if token.is_empty() {
        None
    } else {
        let r = Some(Effect::DeleteStoreEntry(String::from_str(token)));
        assert(seq![EffectView::DeleteStoreEntry(token@)] =~= store_deletion(Some(token@)));
        r
    }
}

/// Forgets the authorization everywhere, `stored` being what the settings hold.
pub fn delete_token_everywhere(state: &mut PortalState, stored: Option<String>) -> (r: Vec<Effect>)
    ensures
        (final(state)@, effects_view(r@)) == delete_everywhere_step(old(state)@, opt_view(stored)),
{
    let ghost s0 = state@;
    let token_memory = get_token_memory(state);
    let token_setting = get_token_setting(state, stored);
    let has_setting = token_setting.is_some();
    let token = match token_memory {
        Some(t) => Some(t),
        None => token_setting,
    };
    assert(opt_view(token) == known_token(s0, opt_view(stored)));
    let mut effects: Vec<Effect> = Vec::new();
    let emitted = set_authorized(state, false);
    push_opt(&mut effects, emitted);
    let ghost after_flag = effects_view(effects@);
    match token {
        Some(t) => {
            let deletion = delete_token_store(t.as_str());
            push_opt(&mut effects, deletion);
        },
        None => {
            assert(effects_view(effects@) =~= after_flag + store_deletion(None));
        },
    }
    delete_token_memory(state);
    if has_setting {
        let removal = delete_token_setting(state);
        push_opt(&mut effects, removal);
    }
    assert(effects_view(effects@) =~= delete_everywhere_step(s0, opt_view(stored)).1);
    effects
}

/// What validating the known token asks for next.
#[derive(Debug, PartialEq, Eq)]
pub enum Validation {
    /// No token is known: the authorization was forgotten everywhere, with
    /// these effects.
    Cleared(Vec<Effect>),
    /// Ask the permission store whether it still holds this token, then hand
    /// the answer to `validate_token_store_finish`.
    Lookup(String),
}

/// Starts checking that the permission store still holds the known token (the
/// one in memory, else the one in the settings). Without a token, the
/// authorization is forgotten everywhere at once.
pub fn validate_token_store(state: &mut PortalState, stored: Option<String>) -> (r: Validation)
    ensures
        match known_token(old(state)@, opt_view(stored)) {
            None => r matches Validation::Cleared(effects) && (final(state)@, effects_view(
                effects@,
            )) == delete_everywhere_step(old(state)@, opt_view(stored)),
            Some(t) => r matches Validation::Lookup(token) && token@ == t && final(state)@ == old(
                state,
            )@,
        },
{
    let token = match get_token_memory(state) {
        Some(t) => Some(t),
        None => get_token_setting(state, clone_opt(&stored)),
    };
    match token {
        Some(t) => Validation::Lookup(t),
        None => Validation::Cleared(delete_token_everywhere(state, stored)),
    }
}

/// Finishes the check that `validate_token_store` started. `lookup` is the
/// store's answer, or the error that kept the question from being asked, in
/// which case nothing changes. A token that the store no longer holds makes
/// the authorization be forgotten everywhere.
pub fn validate_token_store_finish(
    state: &mut PortalState,
    lookup: Result<bool, String>,
    stored: Option<String>,
) -> (r: Vec<Effect>)
    ensures
        lookup == Ok::<bool, String>(false) ==> (final(state)@, effects_view(r@))
            == delete_everywhere_step(old(state)@, opt_view(stored)),
        lookup != Ok::<bool, String>(false) ==> final(state)@ == old(state)@ && r@.len() == 0,
{
    match lookup {
        Ok(false) => delete_token_everywhere(state, stored),
        _ => Vec::new(),
    }
}

/// The answer of the portal's permission store to a call, made with a time
/// limit of two seconds.
#[derive(Debug, PartialEq, Eq)]
pub enum StoreReply {
    /// The call returned normally.
    Answered,
    /// The call failed with this error text.
    Failed(String),
    /// No answer came within the time limit.
    TimedOut,
}

/// Whether the store holds `token` can be told without asking it: the empty
/// token is never there. `None` means that the store must be asked.
pub fn exists_token_store(token: &str) -> (r: Option<bool>)
    ensures
        r == (if token@.len() == 0 {
            Some(false)
        } else {
            None::<bool>
        }),
{
    if token.is_empty() {
        Some(false)
    } else {
        None
    }
}

/// Whether the store holds the token, from its reply to a lookup: any failure
/// counts as "not held".
pub fn exists_token_store_reply(reply: &StoreReply) -> (r: bool)
    ensures
        r == (reply is Answered),
{
    match reply {
        StoreReply::Answered => true,
        _ => false,
    }
}

/// Text of the error when the store does not answer a deletion in time.
pub open spec fn delete_timeout_text() -> Seq<char> {
    "PermissionStore.Delete timed out"@
}

/// The outcome of a deletion from the store's reply.
pub fn delete_token_store_reply(reply: &StoreReply) -> (r: Result<(), String>)
    ensures
        match reply {
            StoreReply::Answered => r is Ok,
            StoreReply::Failed(e) => r matches Err(m) && m@ == failure_prefix(
                PortalFailure::DeleteEntry,
            ) + e@,
            StoreReply::TimedOut => r matches Err(m) && m@ == delete_timeout_text(),
        },
{
    match reply {
        StoreReply::Answered => Ok(()),
        StoreReply::Failed(e) => Err(failure_message(PortalFailure::DeleteEntry, e.as_str())),
        StoreReply::TimedOut => Err(String::from_str("PermissionStore.Delete timed out")),
    }
}

/// How a session may go on after the token check that precedes it.
#[derive(Debug, PartialEq, Eq)]
pub enum SessionGate {
    /// Select the keyboard, passing this restore token, and start the session.
    Proceed(Option<String>),
    /// Ask the permission store whether it holds this token, then hand the
    /// answer to `open_session_after_lookup`.
    Lookup(String),
    /// Give up: the session may not go ahead.
    Denied(Denial),
}

/// A refused session: the authorization was forgotten everywhere, with
/// `effects`, and the session fails with `error`.
#[derive(Debug, PartialEq, Eq)]
pub struct Denial {
    pub effects: Vec<Effect>,
    pub error: String,
}

/// A refusal after forgetting the authorization everywhere.
fn deny(state: &mut PortalState, stored: Option<String>) -> (r: Denial)
    ensures
        r.error@ == permission_missing_text(),
        (final(state)@, effects_view(r.effects@)) == delete_everywhere_step(
            old(state)@,
            opt_view(stored),
        ),
{
    let effects = delete_token_everywhere(state, stored);
    Denial { effects, error: String::from_str("portal-permission-not-granted") }
}

/// Decides whether a new session may go ahead. A session that may prompt the
/// user always may, with the token in memory; one that may not needs a token
/// that the permission store still holds.
pub fn open_session_gate(state: &mut PortalState, allow_prompt: bool, stored: Option<String>) -> (r:
    SessionGate)
    ensures
        allow_prompt ==> (r matches SessionGate::Proceed(t) && opt_view(t) == old(state)@.token
            && final(state)@ == old(state)@),
        !allow_prompt && old(state)@.token is None ==> (r matches SessionGate::Denied(d)
            && d.error@ == permission_missing_text() && (final(state)@, effects_view(d.effects@))
            == delete_everywhere_step(old(state)@, opt_view(stored))),
        !allow_prompt && old(state)@.token is Some ==> (r matches SessionGate::Lookup(t)
            && Some(t@) == old(state)@.token && final(state)@ == old(state)@),
{
    let token = get_token_memory(state);
    if allow_prompt {
        return SessionGate::Proceed(token);
    }
    match token {
        None => SessionGate::Denied(deny(state, stored)),
        Some(t) => SessionGate::Lookup(t),
    }
}

/// Goes on with a session whose `token` the permission store was asked about:
/// if the store holds it the session proceeds with it as restore token,
/// otherwise the authorization is forgotten everywhere and the session is
/// refused.
pub fn open_session_after_lookup(
    state: &mut PortalState,
    token: String,
    exists: bool,
    stored: Option<String>,
) -> (r: Result<String, Denial>)
    ensures
        exists ==> (r matches Ok(t) && t@ == token@ && final(state)@ == old(state)@),
        !exists ==> (r matches Err(d) && d.error@ == permission_missing_text() && (
        final(state)@,
        effects_view(d.effects@),
        ) == delete_everywhere_step(old(state)@, opt_view(stored))),
{
    if exists {
        Ok(token)
    } else {
        Err(deny(state, stored))
    }
}

/// Records a session that the portal started: a restore token in its answer
/// grants authorization and is kept in memory and in the settings.
pub fn open_session_started(state: &mut PortalState, restore_token: Option<String>) -> (r: Vec<
    Effect,
>)
    ensures
        (final(state)@, effects_view(r@)) == session_started_step(
            old(state)@,
            opt_view(restore_token),
        ),
{
    let mut effects: Vec<Effect> = Vec::new();
    match restore_token {
        Some(t) => {
            let ghost s0 = state@;
            let emitted = set_authorized(state, true);
            push_opt(&mut effects, emitted);
            set_token_memory(state, t.as_str());
            let save = set_token_setting(state, t.as_str());
            push_opt(&mut effects, save);
            assert(effects_view(effects@) =~= session_started_step(s0, Some(t@)).1);
        },
        None => {
            assert(effects_view(effects@) =~= Seq::<EffectView>::empty());
        },
    }
    effects
}

/// Where the current thread stands with respect to an async runtime.
#[derive(Clone, Copy, Debug, PartialEq, Eq, Structural)]
pub enum RuntimeContext {
    /// The thread is not inside a runtime.
    Outside,
    /// The thread belongs to a multi-threaded runtime.
    MultiThread,
    /// The thread belongs to a runtime of another flavour.
    OtherFlavor,
}

/// How portal calls are driven to completion from blocking code.
#[derive(Clone, Copy, Debug, PartialEq, Eq, Structural)]
pub enum PortalBridge {
    /// Leave the worker's slot to others and block on the current runtime.
    BlockInPlace,
    /// Block on the library's own runtime, built on first use.
    DedicatedRuntime,
}

/// Text of the error when blocking is impossible on the current runtime.
pub open spec fn single_thread_text() -> Seq<char> {
    "remote desktop requires a multi-thread Tokio runtime"@
}

/// Chooses how to block on a portal call: blocking inside a runtime's worker
/// is only allowed on a multi-threaded runtime.
pub fn block_on_portal(context: RuntimeContext) -> (r: Result<PortalBridge, String>)
    ensures
        context == RuntimeContext::Outside ==> r == Ok::<PortalBridge, String>(
            PortalBridge::DedicatedRuntime,
        ),
        context == RuntimeContext::MultiThread ==> r == Ok::<PortalBridge, String>(
            PortalBridge::BlockInPlace,
        ),
        context == RuntimeContext::OtherFlavor ==> (r matches Err(e) && e@
            == single_thread_text()),
{
    match context {
        RuntimeContext::MultiThread => Ok(PortalBridge::BlockInPlace),
        RuntimeContext::OtherFlavor => Err(
            String::from_str("remote desktop requires a multi-thread Tokio runtime"),
        ),
        RuntimeContext::Outside => Ok(PortalBridge::DedicatedRuntime),
    }
}

/// The strokes that type `text` once it is put in Normalization Form C, so that
/// precomposed characters go out as single code points.
pub fn type_text_strokes(text: &str) -> (r: Vec<Stroke>)
    ensures
        r@ == text_strokes(nfc_of(text@)),
        before_combining_marks(text@) ==> r@ == text_strokes(text@),
{
    let (own, settled) = chars_before_combining_marks(text);
    let normalized = nfc_chars(text);
    if settled {
        // Such text is already in Normalization Form C: it is typed from its
        // own characters.
        strokes_for_chars(own.as_slice())
    } else {
        strokes_for_chars(normalized.as_slice())
    }
}

/// Typing `text`: refused outside Wayland and without authorization; otherwise
/// the strokes to send through a session opened without prompting.
pub fn send_type_text(state: &PortalState, wayland: bool, text: &str) -> (r: Result<
    Vec<Stroke>,
    String,
>)
    ensures
        match send_gate(state@, wayland) {
            Ok(()) => r matches Ok(strokes) && strokes@ == text_strokes(nfc_of(text@)) && (
            before_combining_marks(text@) ==> strokes@ == text_strokes(text@)),
            Err(m) => r matches Err(e) && e@ == m,
        },
{
    if !wayland {
        return Err(String::from_str("not running on Wayland"));
    }
    if !get_authorized(state) {
        return Err(String::from_str("authorization not granted"));
    }
    Ok(type_text_strokes(text))
}

/// Whether typing is possible now.
pub fn is_available(state: &PortalState, wayland: bool) -> (r: bool)
    ensures
        r == available(state@, wayland),
{
    wayland && get_authorized(state)
}

/// Whether keyboard access is granted.
pub fn get_authorization(state: &PortalState) -> (r: bool)
    ensures
        r == state.authorized,
{
    get_authorized(state)
}

/// Asking the user for access: nothing to do outside Wayland (`None`);
/// otherwise a session that may prompt is opened with the restore token given
/// here, and closed once started.
pub fn request_authorization(state: &PortalState, wayland: bool) -> (r: Option<Option<String>>)
    ensures
        !wayland ==> r is None,
        wayland ==> (r matches Some(t) && opt_view(t) == state@.token),
{
    if !wayland {
        return None;
    }
    Some(get_token_memory(state))
}

/// Revokes the authorization: forgets it everywhere.
pub fn delete_authorization(state: &mut PortalState, stored: Option<String>) -> (r: Vec<Effect>)
    ensures
        (final(state)@, effects_view(r@)) == delete_everywhere_step(old(state)@, opt_view(stored)),
{
    delete_token_everywhere(state, stored)
}

/// Start-up on Wayland: attaches the application and, when the settings hold a
/// token, grants authorization with it and returns it, to be checked against
/// the permission store (see `validate_token_store_finish`). Outside Wayland
/// nothing happens.
pub fn init_authorization(state: &mut PortalState, wayland: bool, stored: Option<String>) -> (r: (
    Vec<Effect>,
    Option<String>,
))
    ensures
        (final(state)@, effects_view(r.0@)) == init_step(old(state)@, wayland, opt_view(stored)),
        opt_view(r.1) == (if wayland {
            opt_view(stored)
        } else {
            None
        }),
{
    if !wayland {
        return (Vec::new(), None);
    }
    state.app_attached = true;
    let token = get_token_setting(state, stored);
    match token {
        Some(t) => {
            let mut effects: Vec<Effect> = Vec::new();
            let emitted = set_authorized(state, true);
            push_opt(&mut effects, emitted);
            set_token_memory(state, t.as_str());
            let lookup = validate_token_store(state, None);
            match lookup {
                Validation::Lookup(checked) => (effects, Some(checked)),
                Validation::Cleared(_) => (effects, None),
            }
        },
        None => (Vec::new(), None),
    }
}

} // verus!
