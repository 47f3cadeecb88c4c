use remote_desktop::authorization::{
    block_on_portal, delete_authorization, delete_token_everywhere, delete_token_memory,
    delete_token_setting, delete_token_store, delete_token_store_reply, exists_token_store,
    exists_token_store_reply, get_authorization, get_authorized, get_token_memory,
    get_token_setting, init_authorization, is_available, open_session_after_lookup,
    open_session_gate, open_session_started, request_authorization, send_type_text,
    set_authorized, set_token_memory, set_token_setting, type_text_strokes, validate_token_store,
    validate_token_store_finish, Denial, Effect, PortalBridge, PortalState, RuntimeContext, SessionGate,
    StoreReply, Validation,
};

fn state(token: Option<&str>, authorized: bool, app_attached: bool) -> PortalState {
    PortalState { token: token.map(|t| t.to_string()), authorized, app_attached }
}

fn s(t: &str) -> String {
    t.to_string()
}

#[test]
fn new_state_knows_nothing() {
    let st = PortalState::new();
    assert_eq!(st.token, None);
    assert!(!st.authorized);
    assert!(!st.app_attached);
    assert!(!get_authorization(&st));
}

#[test]
fn token_memory_round_trip() {
    let mut st = PortalState::new();
    assert_eq!(get_token_memory(&st), None);
    set_token_memory(&mut st, "tok");
    assert_eq!(get_token_memory(&st), Some(s("tok")));
    delete_token_memory(&mut st);
    assert_eq!(get_token_memory(&st), None);
}

#[test]
fn settings_need_an_attached_app() {
    let detached = state(None, false, false);
    let attached = state(None, false, true);
    assert_eq!(set_token_setting(&detached, "t"), None);
    assert_eq!(set_token_setting(&attached, "t"), Some(Effect::SaveTokenSetting(Some(s("t")))));
    assert_eq!(delete_token_setting(&detached), None);
    assert_eq!(delete_token_setting(&attached), Some(Effect::SaveTokenSetting(None)));
    assert_eq!(get_token_setting(&detached, Some(s("t"))), None);
    assert_eq!(get_token_setting(&attached, Some(s("t"))), Some(s("t")));
    assert_eq!(get_token_setting(&attached, None), None);
}

#[test]
fn change_event_only_on_change_with_app() {
    let mut st = state(None, false, true);
    assert_eq!(set_authorized(&mut st, true), Some(Effect::EmitAuthChanged(true)));
    assert!(get_authorized(&st));
    assert_eq!(set_authorized(&mut st, true), None);
    assert_eq!(set_authorized(&mut st, false), Some(Effect::EmitAuthChanged(false)));
    let mut detached = state(None, false, false);
    assert_eq!(set_authorized(&mut detached, true), None);
    assert!(detached.authorized);
}

#[test]
fn store_deletion_skips_empty_token() {
    assert_eq!(delete_token_store(""), None);
    assert_eq!(delete_token_store("abc"), Some(Effect::DeleteStoreEntry(s("abc"))));
}

#[test]
fn delete_everywhere_with_app() {
    let mut st = state(Some("mem"), true, true);
    let effects = delete_token_everywhere(&mut st, Some(s("set")));
    assert_eq!(
        effects,
        vec![
            Effect::EmitAuthChanged(false),
            Effect::DeleteStoreEntry(s("mem")),
            Effect::SaveTokenSetting(None),
        ]
    );
    assert_eq!(st.token, None);
    assert!(!st.authorized);
    assert!(st.app_attached);
}

#[test]
fn delete_everywhere_uses_setting_when_memory_is_empty() {
    let mut st = state(None, false, true);
    let effects = delete_token_everywhere(&mut st, Some(s("set")));
    assert_eq!(effects, vec![Effect::DeleteStoreEntry(s("set")), Effect::SaveTokenSetting(None)]);
}

#[test]
fn delete_everywhere_without_app() {
    let mut st = state(Some("mem"), true, false);
    let effects = delete_token_everywhere(&mut st, Some(s("set")));
    assert_eq!(effects, vec![Effect::DeleteStoreEntry(s("mem"))]);
    assert_eq!(st.token, None);
    assert!(!st.authorized);
}

#[test]
fn delete_authorization_twice_is_quiet() {
    let mut st = state(Some("mem"), true, true);
    let first = delete_authorization(&mut st, Some(s("mem")));
    assert_eq!(first.len(), 3);
    let second = delete_authorization(&mut st, None);
    assert!(second.is_empty());
    assert!(!get_authorization(&st));
}

#[test]
fn validate_without_token_clears() {
    let mut st = state(None, true, true);
    let v = validate_token_store(&mut st, None);
    assert_eq!(v, Validation::Cleared(vec![Effect::EmitAuthChanged(false)]));
    assert!(!st.authorized);
}

#[test]
fn validate_prefers_memory_then_setting() {
    let mut st = state(Some("mem"), true, true);
    assert_eq!(validate_token_store(&mut st, Some(s("set"))), Validation::Lookup(s("mem")));
    let mut st2 = state(None, true, true);
    assert_eq!(validate_token_store(&mut st2, Some(s("set"))), Validation::Lookup(s("set")));
    assert!(st2.authorized);
}

#[test]
fn validate_finish_outcomes() {
    let mut st = state(Some("mem"), true, true);
    assert!(validate_token_store_finish(&mut st, Ok(true), None).is_empty());
    assert!(st.authorized);
    assert!(validate_token_store_finish(&mut st, Err(s("no runtime")), None).is_empty());
    assert!(st.authorized);
    assert_eq!(st.token, Some(s("mem")));
    let effects = validate_token_store_finish(&mut st, Ok(false), None);
    assert_eq!(effects, vec![Effect::EmitAuthChanged(false), Effect::DeleteStoreEntry(s("mem"))]);
    assert_eq!(st.token, None);
}

#[test]
fn store_replies() {
    assert_eq!(exists_token_store(""), Some(false));
    assert_eq!(exists_token_store("t"), None);
    assert!(exists_token_store_reply(&StoreReply::Answered));
    assert!(!exists_token_store_reply(&StoreReply::Failed(s("x"))));
    assert!(!exists_token_store_reply(&StoreReply::TimedOut));
    assert_eq!(delete_token_store_reply(&StoreReply::Answered), Ok(()));
    assert_eq!(
        delete_token_store_reply(&StoreReply::Failed(s("denied"))),
        Err(s("Failed to delete permission entry: denied"))
    );
    assert_eq!(
        delete_token_store_reply(&StoreReply::TimedOut),
        Err(s("PermissionStore.Delete timed out"))
    );
}

#[test]
fn session_gate_with_prompt_proceeds() {
    let mut st = state(Some("mem"), false, true);
    assert_eq!(open_session_gate(&mut st, true, None), SessionGate::Proceed(Some(s("mem"))));
    let mut empty = state(None, false, true);
    assert_eq!(open_session_gate(&mut empty, true, None), SessionGate::Proceed(None));
}

#[test]
fn session_gate_without_prompt_needs_token() {
    let mut st = state(None, true, true);
    let gate = open_session_gate(&mut st, false, Some(s("set")));
    assert_eq!(
        gate,
        SessionGate::Denied(Denial {
            effects: vec![
                Effect::EmitAuthChanged(false),
                Effect::DeleteStoreEntry(s("set")),
                Effect::SaveTokenSetting(None),
            ],
            error: s("portal-permission-not-granted"),
        })
    );
    assert!(!st.authorized);
    let mut with_token = state(Some("mem"), true, true);
    assert_eq!(open_session_gate(&mut with_token, false, None), SessionGate::Lookup(s("mem")));
}

#[test]
fn session_after_lookup() {
    let mut st = state(Some("mem"), true, true);
    assert_eq!(open_session_after_lookup(&mut st, s("mem"), true, None), Ok(s("mem")));
    assert!(st.authorized);
    let gate = open_session_after_lookup(&mut st, s("mem"), false, Some(s("mem")));
    assert_eq!(
        gate,
        Err(Denial {
            effects: vec![
                Effect::EmitAuthChanged(false),
                Effect::DeleteStoreEntry(s("mem")),
                Effect::SaveTokenSetting(None),
            ],
            error: s("portal-permission-not-granted"),
        })
    );
    assert_eq!(st.token, None);
}

#[test]
fn session_started_keeps_token() {
    let mut st = state(None, false, true);
    let effects = open_session_started(&mut st, Some(s("new")));
    assert_eq!(
        effects,
        vec![Effect::EmitAuthChanged(true), Effect::SaveTokenSetting(Some(s("new")))]
    );
    assert_eq!(st.token, Some(s("new")));
    assert!(st.authorized);
    let mut quiet = state(None, false, true);
    assert!(open_session_started(&mut quiet, None).is_empty());
    assert!(!quiet.authorized);
    let mut detached = state(None, true, false);
    assert!(open_session_started(&mut detached, Some(s("x"))).is_empty());
    assert_eq!(detached.token, Some(s("x")));
}

#[test]
fn send_type_text_gate() {
    let authorized = state(Some("t"), true, true);
    let refused = state(Some("t"), false, true);
    assert_eq!(send_type_text(&authorized, false, "hi"), Err(s("not running on Wayland")));
    assert_eq!(send_type_text(&refused, false, "hi"), Err(s("not running on Wayland")));
    assert_eq!(send_type_text(&refused, true, "hi"), Err(s("authorization not granted")));
    assert_eq!(send_type_text(&authorized, true, "hi"), Ok(type_text_strokes("hi")));
}

#[test]
fn availability() {
    let authorized = state(None, true, false);
    let refused = state(None, false, false);
    assert!(is_available(&authorized, true));
    assert!(!is_available(&authorized, false));
    assert!(!is_available(&refused, true));
}

#[test]
fn request_authorization_on_and_off_wayland() {
    let st = state(Some("t"), false, true);
    assert_eq!(request_authorization(&st, false), None);
    assert_eq!(request_authorization(&st, true), Some(Some(s("t"))));
    assert_eq!(request_authorization(&PortalState::new(), true), Some(None));
}

#[test]
fn portal_bridge_choice() {
    assert_eq!(block_on_portal(RuntimeContext::Outside), Ok(PortalBridge::DedicatedRuntime));
    assert_eq!(block_on_portal(RuntimeContext::MultiThread), Ok(PortalBridge::BlockInPlace));
    assert_eq!(
        block_on_portal(RuntimeContext::OtherFlavor),
        Err(s("remote desktop requires a multi-thread Tokio runtime"))
    );
}

#[test]
fn init_outside_wayland_does_nothing() {
    let mut st = PortalState::new();
    let (effects, lookup) = init_authorization(&mut st, false, Some(s("t")));
    assert!(effects.is_empty());
    assert_eq!(lookup, None);
    assert!(!st.app_attached);
    assert!(!st.authorized);
}

#[test]
fn init_with_stored_token() {
    let mut st = PortalState::new();
    let (effects, lookup) = init_authorization(&mut st, true, Some(s("t")));
    assert_eq!(effects, vec![Effect::EmitAuthChanged(true)]);
    assert_eq!(lookup, Some(s("t")));
    assert!(st.app_attached);
    assert!(st.authorized);
    assert_eq!(st.token, Some(s("t")));
    // The store no longer knows the token: everything is forgotten.
    let cleared = validate_token_store_finish(&mut st, Ok(false), Some(s("t")));
    assert_eq!(
        cleared,
        vec![
            Effect::EmitAuthChanged(false),
            Effect::DeleteStoreEntry(s("t")),
            Effect::SaveTokenSetting(None),
        ]
    );
    assert!(!is_available(&st, true));
}

#[test]
fn init_without_stored_token() {
    let mut st = PortalState::new();
    let (effects, lookup) = init_authorization(&mut st, true, None);
    assert!(effects.is_empty());
    assert_eq!(lookup, None);
    assert!(st.app_attached);
    assert!(!st.authorized);
}
