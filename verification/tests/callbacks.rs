use axo::callbacks::{
    callback_lookup_needed, dev_command, handle_click, lua_callback_route, reset_js_app_runtime,
    CallbackError, DevCommand, LuaCallbackRoute, RuntimeSlot,
};

#[test]
fn click_outcomes() {
    assert!(handle_click("cb_1", Ok(true)).is_ok());
    match handle_click("cb_9", Ok(false)) {
        Err(e @ CallbackError::NotRegistered { .. }) => {
            assert_eq!(e.message(), "Fase 4: sin callback JS registrado para id 'cb_9'");
        }
        other => panic!("unexpected {:?}", other),
    }
    match handle_click("cb_1", Err("TypeError: boom".to_string())) {
        Err(e @ CallbackError::Engine { .. }) => assert_eq!(e.message(), "TypeError: boom"),
        other => panic!("unexpected {:?}", other),
    }
    assert!(!callback_lookup_needed(""));
    assert!(callback_lookup_needed("cb_1"));
}

#[test]
fn runtime_slot_is_dropped_on_reset() {
    let mut slot: RuntimeSlot<u32> = RuntimeSlot::new();
    assert!(slot.retained().is_none());
    slot.store(7);
    assert_eq!(slot.retained(), Some(&7));
    reset_js_app_runtime(&mut slot);
    assert!(slot.retained().is_none());
}

#[test]
fn lua_callback_routes() {
    assert_eq!(lua_callback_route(""), LuaCallbackRoute::Skip);
    assert_eq!(lua_callback_route("__axo_cb_3"), LuaCallbackRoute::Registry);
    assert_eq!(lua_callback_route("__axo_cb_"), LuaCallbackRoute::Registry);
    assert_eq!(lua_callback_route("__axo_c"), LuaCallbackRoute::Global);
    assert_eq!(lua_callback_route("onTap"), LuaCallbackRoute::Global);
}

#[test]
fn console_keys() {
    assert_eq!(dev_command(b'r'), DevCommand::Restart);
    assert_eq!(dev_command(b'R'), DevCommand::Restart);
    assert_eq!(dev_command(b'q'), DevCommand::Quit);
    assert_eq!(dev_command(b'Q'), DevCommand::Quit);
    assert_eq!(dev_command(b'x'), DevCommand::Nothing);
}

#[test]
fn empty_id_is_not_registered() {
    match handle_click("", Ok(false)) {
        Err(e) => assert_eq!(e.message(), "Fase 4: sin callback JS registrado para id ''"),
        Ok(()) => panic!("an empty id names no callback"),
    }
}
