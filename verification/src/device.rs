use vstd::prelude::*;
use vstd::string::StringExecFns;
use crate::paths::{join_path, path_join};
use crate::text::str_eq;

verus! {

// ── Clipboard ──
/// The clipboard's content once `text` was copied to it.
pub open spec fn clip_set(before: Option<Seq<char>>, text: Seq<char>) -> Option<Seq<char>> {
    Some(text)
}

/// The clipboard's content once it was cleared.
pub open spec fn clip_clear(before: Option<Seq<char>>) -> Option<Seq<char>> {
    None
}

/// Whether the clipboard holds text.
pub open spec fn clip_has_text(content: Option<Seq<char>>) -> bool {
    content is Some
}

/// The application's clipboard: the text last copied, if any.
#[derive(Debug)]
pub struct Clipboard {
    content: Option<String>,
}

impl View for Clipboard {
    type V = Option<Seq<char>>;

    closed spec fn view(&self) -> Option<Seq<char>> {
        match self.content {
            Some(s) => Some(s@),
            None => None,
        }
    }
}

impl Clipboard {
    /// An empty clipboard.
    pub fn new() -> (c: Self)
        ensures
            c@ is None,
    {
        Clipboard { content: None }
    }

    /// Copies `text` to the clipboard.
    pub fn set(&mut self, text: &str)
        ensures
            final(self)@ == clip_set(old(self)@, text@),
    {
        self.content = Some(String::from_str(text));
    }

    /// The text on the clipboard.
    pub fn get(&self) -> (r: Option<String>)
        ensures
            match r {
                Some(s) => self@ == Some(s@),
                None => self@ is None,
            },
    {
        match &self.content {
            Some(s) => Some(s.clone()),
            None => None,
        }
    }

    /// Whether the clipboard holds text.
    pub fn has_text(&self) -> (r: bool)
        ensures
            r == clip_has_text(self@),
    {
        self.get().is_some()
    }

    /// Empties the clipboard.
    pub fn clear(&mut self)
        ensures
            final(self)@ == clip_clear(old(self)@),
    {
        self.content = None;
    }
}

/// What is read back from the clipboard is what was last copied to it, and a
/// cleared clipboard holds no text.
pub proof fn lemma_clipboard_read_back(before: Option<Seq<char>>, text: Seq<char>)
    ensures
        clip_set(before, text) == Some(text),
        clip_has_text(clip_set(before, text)),
        !clip_has_text(clip_clear(before)),
        clip_set(clip_clear(before), text) == clip_set(before, text),
{
}

// ── Haptics ──
/// The device's vibration motor.
#[derive(Debug, Clone, Copy)]
pub struct Haptics;

impl Haptics {
    /// Whether haptic feedback is available: it always is.
    pub fn is_supported() -> (r: bool)
        ensures
            r,
    {
        true
    }
}

/// Kinds of haptic feedback.
#[derive(Debug, Clone, Copy, PartialEq, Eq, Structural)]
pub enum HapticFeedback {
    Light,
    Medium,
    Heavy,
    Selection,
    Success,
    Warning,
    Error,
    Click,
}

/// The name of an impact style.
pub open spec fn impact_name_of(style: HapticFeedback) -> Seq<char> {
    match style {
        HapticFeedback::Light => "light"@,
        HapticFeedback::Medium => "medium"@,
        HapticFeedback::Heavy => "heavy"@,
        HapticFeedback::Selection => "selection"@,
        HapticFeedback::Success => "success"@,
        HapticFeedback::Warning => "warning"@,
        HapticFeedback::Error => "error"@,
        HapticFeedback::Click => "click"@,
    }
}

/// The name a notification uses: only success, warning and error have one.
pub open spec fn notification_name_of(style: HapticFeedback) -> Seq<char> {
    match style {
        HapticFeedback::Success => "success"@,
        HapticFeedback::Warning => "warning"@,
        HapticFeedback::Error => "error"@,
        _ => "unknown"@,
    }
}

/// The impact style a script names; an unknown name is a medium impact.
pub open spec fn haptic_style_named(s: Seq<char>) -> HapticFeedback {
    if s == "light"@ {
        HapticFeedback::Light
    } else if s == "medium"@ {
        HapticFeedback::Medium
    } else if s == "heavy"@ {
        HapticFeedback::Heavy
    } else if s == "selection"@ {
        HapticFeedback::Selection
    } else if s == "success"@ {
        HapticFeedback::Success
    } else if s == "warning"@ {
        HapticFeedback::Warning
    } else if s == "error"@ {
        HapticFeedback::Error
    } else if s == "click"@ {
        HapticFeedback::Click
    } else {
        HapticFeedback::Medium
    }
}

/// The name under which an impact is reported.
pub fn impact_name(style: HapticFeedback) -> (r: &'static str)
    ensures
        r@ == impact_name_of(style),
{
    match style {
        HapticFeedback::Light => "light",
        HapticFeedback::Medium => "medium",
        HapticFeedback::Heavy => "heavy",
        HapticFeedback::Selection => "selection",
        HapticFeedback::Success => "success",
        HapticFeedback::Warning => "warning",
        HapticFeedback::Error => "error",
        HapticFeedback::Click => "click",
    }
}

/// The name under which a notification is reported.
pub fn notification_name(style: HapticFeedback) -> (r: &'static str)
    ensures
        r@ == notification_name_of(style),
{
    match style {
        HapticFeedback::Success => "success",
        HapticFeedback::Warning => "warning",
        HapticFeedback::Error => "error",
        _ => "unknown",
    }
}

/// Reads an impact style from its name; an unknown name gives `Medium`.
pub fn haptic_style_from_name(s: &str) -> (r: HapticFeedback)
    ensures
        r == haptic_style_named(s@),
{
    if str_eq(s, "light") {
        HapticFeedback::Light
    } else if str_eq(s, "medium") {
        HapticFeedback::Medium
    } else if str_eq(s, "heavy") {
        HapticFeedback::Heavy
    } else if str_eq(s, "selection") {
        HapticFeedback::Selection
    } else if str_eq(s, "success") {
        HapticFeedback::Success
    } else if str_eq(s, "warning") {
        HapticFeedback::Warning
    } else if str_eq(s, "error") {
        HapticFeedback::Error
    } else if str_eq(s, "click") {
        HapticFeedback::Click
    } else {
        HapticFeedback::Medium
    }
}

/// Reading the name of an impact style gives the style back.
pub proof fn lemma_impact_name_roundtrip(style: HapticFeedback)
    ensures
        haptic_style_named(impact_name_of(style)) == style,
{
    reveal_strlit("light");
    reveal_strlit("medium");
    reveal_strlit("heavy");
    reveal_strlit("selection");
    reveal_strlit("success");
    reveal_strlit("warning");
    reveal_strlit("error");
    reveal_strlit("click");
    // The names differ in their first two characters.
    let n = impact_name_of(style);
    match style {
        HapticFeedback::Light => assert(n[0] == 'l'),
        HapticFeedback::Medium => assert(n[0] == 'm'),
        HapticFeedback::Heavy => assert(n[0] == 'h'),
        HapticFeedback::Selection => assert(n[0] == 's' && n[1] == 'e'),
        HapticFeedback::Success => assert(n[0] == 's' && n[1] == 'u'),
        HapticFeedback::Warning => assert(n[0] == 'w'),
        HapticFeedback::Error => assert(n[0] == 'e'),
        HapticFeedback::Click => assert(n[0] == 'c'),
    }
    assert("selection"@[0] == 's');
    assert("success"@[0] == 's');
    assert("light"@[0] == 'l');
    assert("medium"@[0] == 'm');
    assert("heavy"@[0] == 'h');
    assert("selection"@[1] == 'e');
    assert("success"@[1] == 'u');
    assert("warning"@[0] == 'w');
    assert("error"@[0] == 'e');
    assert("click"@[0] == 'c');
}

// ── Geolocation ──
/// Why no position could be had.
#[derive(Debug, Clone, Copy, PartialEq, Eq, Structural)]
pub enum GeoError {
    PermissionDenied,
    Unavailable,
    Timeout,
}

// ── Storage ──
/// Why a storage operation failed.
#[derive(Debug)]
pub enum StorageError {
    IoError(String),
    PermissionDenied,
}

/// The directory an application keeps its files in, under the user's data
/// directory, or under the current directory when there is none.
pub open spec fn storage_root(data_dir: Option<Seq<char>>, app_name: Seq<char>) -> Seq<char> {
    match data_dir {
        Some(d) => path_join(d, app_name),
        None => path_join("."@, app_name),
    }
}

/// `dirs_next::data_dir`: the user's data directory as the platform and the
/// environment name it (on Linux `$XDG_DATA_HOME`, else `$HOME/.local/share`),
/// or `None` when it cannot be told. The result depends on the environment, so
/// nothing is stated of it.
#[verifier::external_body]
fn user_data_dir() -> (d: Option<String>) {
    match dirs_next::data_dir() {
        Some(p) => Some(p.to_string_lossy().into_owned()),
        None => None,
    }
}

/// An application's file area: paths are resolved against its base directory.
#[derive(Debug)]
pub struct Storage {
    base_path: String,
}

impl Storage {
    /// The base directory.
    pub closed spec fn base(&self) -> Seq<char> {
        self.base_path@
    }

    /// The file area of `app_name` under the given data directory, or under
    /// the current directory when there is none.
    pub fn in_data_dir(data_dir: Option<&str>, app_name: &str) -> (s: Self)
        ensures
            s.base() == storage_root(
                match data_dir {
                    Some(d) => Some(d@),
                    None => None,
                },
                app_name@,
            ),
    {
        let base = match data_dir {
            Some(d) => join_path(d, app_name),
            None => join_path(".", app_name),
        };
        Storage { base_path: base }
    }

    /// The file area of `app_name` under the user's data directory.
    pub fn new(app_name: &str) -> (s: Self)
        ensures
            exists|d: Option<Seq<char>>| s.base() == storage_root(d, app_name@),
    {
        let dir = user_data_dir();
        let s = match &dir {
            Some(d) => Storage::in_data_dir(Some(d.as_str()), app_name),
            None => Storage::in_data_dir(None, app_name),
        };
        proof {
            let d = match dir {
                Some(x) => Some(x@),
                None => None,
            };
            assert(s.base() == storage_root(d, app_name@));
        }
        s
    }

    /// Where a relative path of the file area lives.
    pub fn resolve(&self, path: &str) -> (r: String)
        ensures
            r@ == path_join(self.base(), path@),
    {
        join_path(self.base_path.as_str(), path)
    }

    /// The cache directory of the file area.
    pub fn cache_dir(&self) -> (r: String)
        ensures
            r@ == path_join(self.base(), "cache"@),
    {
        join_path(self.base_path.as_str(), "cache")
    }

    /// The documents directory of the file area.
    pub fn documents_dir(&self) -> (r: String)
        ensures
            r@ == path_join(self.base(), "documents"@),
    {
        join_path(self.base_path.as_str(), "documents")
    }

    /// The base directory of the file area.
    pub fn base_path(&self) -> (r: &str)
        ensures
            r@ == self.base(),
    {
        self.base_path.as_str()
    }
}

} // verus!
