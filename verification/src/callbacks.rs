use vstd::prelude::*;
use vstd::string::StringExecFns;
use crate::text::starts_with;

verus! {

/// Why a click could not be handed to a script callback.
#[derive(Debug)]
pub enum CallbackError {
    /// No callback is registered under this id.
    NotRegistered { id: String },
    /// The script engine failed; its message.
    Engine { message: String },
}

/// The text of a missing-callback error.
pub open spec fn not_registered_text(id: Seq<char>) -> Seq<char> {
    "Fase 4: sin callback JS registrado para id '"@ + id + "'"@
}

impl CallbackError {
    /// The error as a message.
    pub fn message(&self) -> (m: String)
        ensures
            m@ == match self {
                CallbackError::NotRegistered { id } => not_registered_text(id@),
                CallbackError::Engine { message } => message@,
            },
    {
        match self {
            CallbackError::NotRegistered { id } => {
                let mut m = String::from_str("Fase 4: sin callback JS registrado para id '");
                m.append(id.as_str());
                m.append("'");
                m
            },
            CallbackError::Engine { message } => message.clone(),
        }
    }
}

/// Whether a callback id has to be looked up at all: an empty id never
/// names a callback.
pub fn callback_lookup_needed(callback_id: &str) -> (r: bool)
    ensures
        r == (callback_id@.len() > 0),
{
    !callback_id.is_empty()
}

/// The outcome of a click for the callback `callback_id`, given what invoking
/// it gave: `Ok(true)` when it existed and ran, `Ok(false)` when none is
/// registered, or the engine's error message.
pub fn handle_click(callback_id: &str, invoked: Result<bool, String>) -> (r: Result<(), CallbackError>)
    ensures
        match invoked {
            Ok(true) => r is Ok,
            Ok(false) => r matches Err(CallbackError::NotRegistered { id }) && id@ == callback_id@,
            Err(e) => r matches Err(CallbackError::Engine { message }) && message@ == e@,
        },
{
    match invoked {
        Ok(true) => Ok(()),
        Ok(false) => Err(CallbackError::NotRegistered { id: String::from_str(callback_id) }),
        Err(e) => Err(CallbackError::Engine { message: e }),
    }
}

/// The retained script runtime: created on first use, dropped on reload.
#[derive(Debug)]
pub struct RuntimeSlot<T> {
    retained: Option<T>,
}

impl<T> View for RuntimeSlot<T> {
    type V = Option<T>;

    closed spec fn view(&self) -> Option<T> {
        self.retained
    }
}

impl<T> RuntimeSlot<T> {
    /// A slot with no runtime.
    pub fn new() -> (s: Self)
        ensures
            s@ is None,
    {
        RuntimeSlot { retained: None }
    }

    /// The retained runtime, if one was created since the last reset.
    pub fn retained(&self) -> (r: Option<&T>)
        ensures
            match r {
                Some(t) => self@ == Some(*t),
                None => self@ is None,
            },
    {
        match &self.retained {
            Some(t) => Some(t),
            None => None,
        }
    }

    /// Keeps `runtime` for later use.
    pub fn store(&mut self, runtime: T)
        ensures
            final(self)@ == Some(runtime),
    {
        self.retained = Some(runtime);
    }
}

/// Drops the retained runtime; callbacks registered in it are gone, and the
/// next use creates a fresh one.
pub fn reset_js_app_runtime<T>(slot: &mut RuntimeSlot<T>)
    ensures
        final(slot)@ is None,
{
    slot.retained = None;
}

/// Where a Lua click callback is found.
#[derive(Debug, Clone, Copy, PartialEq, Eq, Structural)]
pub enum LuaCallbackRoute {
    /// The id is empty: nothing to call.
    Skip,
    /// A generated id (`__axo_cb_…`): in the `_AXO_CALLBACKS` table.
    Registry,
    /// Any other id: a global function of that name.
    Global,
}

/// Where the Lua callback for an id is looked up.
pub open spec fn lua_route_of(cb: Seq<char>) -> LuaCallbackRoute {
    if cb.len() == 0 {
        LuaCallbackRoute::Skip
    } else if "__axo_cb_"@.len() <= cb.len() && cb.subrange(0, "__axo_cb_"@.len() as int)
        == "__axo_cb_"@ {
        LuaCallbackRoute::Registry
    } else {
        LuaCallbackRoute::Global
    }
}

/// Where the Lua callback for `callback_id` is looked up.
pub fn lua_callback_route(callback_id: &str) -> (r: LuaCallbackRoute)
    ensures
        r == lua_route_of(callback_id@),
{
    if callback_id.is_empty() {
        LuaCallbackRoute::Skip
    } else if starts_with(callback_id, "__axo_cb_") {
        LuaCallbackRoute::Registry
    } else {
        LuaCallbackRoute::Global
    }
}

/// A command typed at the development console.
#[derive(Debug, Clone, Copy, PartialEq, Eq, Structural)]
pub enum DevCommand {
    Restart,
    Quit,
    Nothing,
}

/// The command a byte typed at the console stands for: `r` restarts, `q`
/// quits, in either case.
pub fn dev_command(byte: u8) -> (c: DevCommand)
    ensures
        c == if byte == 0x72 || byte == 0x52 {
            DevCommand::Restart
        } else if byte == 0x71 || byte == 0x51 {
            DevCommand::Quit
        } else {
            DevCommand::Nothing
        },
{
    if byte == 0x72 || byte == 0x52 {
        DevCommand::Restart
    } else if byte == 0x71 || byte == 0x51 {
        DevCommand::Quit
    } else {
        DevCommand::Nothing
    }
}

} // verus!
