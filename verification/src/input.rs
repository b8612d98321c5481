use vstd::prelude::*;
use vstd::string::StringExecFns;
use crate::text::str_eq;

verus! {

/// What the input logic reads of a drawn rectangle.
#[derive(Debug)]
pub struct RectInfo {
    pub id: u64,
    pub node_type: String,
    pub on_click_id: String,
    pub on_change_text_id: String,
    pub text_content: String,
    pub disabled: bool,
}

/// A rectangle's input-relevant fields as values.
pub struct RectView {
    pub id: u64,
    pub node_type: Seq<char>,
    pub on_click_id: Seq<char>,
    pub on_change_text_id: Seq<char>,
    pub text_content: Seq<char>,
    pub disabled: bool,
}

impl View for RectInfo {
    type V = RectView;

    open spec fn view(&self) -> RectView {
        RectView {
            id: self.id,
            node_type: self.node_type@,
            on_click_id: self.on_click_id@,
            on_change_text_id: self.on_change_text_id@,
            text_content: self.text_content@,
            disabled: self.disabled,
        }
    }
}

/// The views of a list of rectangles, in drawing order.
pub open spec fn rect_views(s: Seq<RectInfo>) -> Seq<RectView> {
    s.map_values(|r: RectInfo| r@)
}

/// Whether the pointer is over rectangle `i`; a missing flag counts as "no".
pub open spec fn flag(under: Seq<bool>, i: int) -> bool {
    0 <= i < under.len() && under[i]
}

/// The topmost (last drawn) of the first `n` rectangles under the pointer,
/// leaving out disabled ones when `enabled_only`.
pub open spec fn topmost(rs: Seq<RectView>, under: Seq<bool>, n: int, enabled_only: bool) -> Option<
    int,
>
    decreases n,
{
    if n <= 0 {
        None
    } else if flag(under, n - 1) && !(enabled_only && rs[n - 1].disabled) {
        Some(n - 1)
    } else {
        topmost(rs, under, n - 1, enabled_only)
    }
}

/// The first rectangle with the given id.
pub open spec fn first_with_id(rs: Seq<RectView>, id: u64) -> Option<int>
    decreases rs.len(),
{
    if rs.len() == 0 {
        None
    } else if rs[0].id == id {
        Some(0)
    } else {
        match first_with_id(rs.drop_first(), id) {
            Some(i) => Some(i + 1),
            None => None,
        }
    }
}

proof fn lemma_topmost_range(rs: Seq<RectView>, under: Seq<bool>, n: int, enabled_only: bool)
    ensures
        topmost(rs, under, n, enabled_only) matches Some(i) ==> 0 <= i < n,
    decreases n,
{
    if n > 0 {
        lemma_topmost_range(rs, under, n - 1, enabled_only);
    }
}

proof fn lemma_first_with_id_range(rs: Seq<RectView>, id: u64)
    ensures
        first_with_id(rs, id) matches Some(i) ==> 0 <= i < rs.len() && rs[i].id == id,
    decreases rs.len(),
{
    if rs.len() > 0 {
        lemma_first_with_id_range(rs.drop_first(), id);
    }
}

/// The index of the topmost rectangle under the pointer, disabled ones left
/// out when `enabled_only`; `under` flags, per rectangle, whether the pointer
/// lies inside it.
pub fn topmost_under(rects: &[RectInfo], under: &[bool], enabled_only: bool) -> (r: Option<usize>)
    ensures
        match r {
            Some(i) => topmost(rect_views(rects@), under@, rects@.len() as int, enabled_only) == Some(
                i as int,
            ),
            None => topmost(rect_views(rects@), under@, rects@.len() as int, enabled_only) is None,
        },
{
    let ghost rs = rect_views(rects@);
    let mut n: usize = rects.len();
    while n > 0
        invariant
            n <= rects@.len(),
            rs == rect_views(rects@),
            topmost(rs, under@, rects@.len() as int, enabled_only) == topmost(
                rs,
                under@,
                n as int,
                enabled_only,
            ),
        decreases n,
    {
        let i = n - 1;
        let over = i < under.len() && under[i];
        if over && !(enabled_only && rects[i].disabled) {
            return Some(i);
        }
        n = i;
    }
    None
}

/// The topmost enabled rectangle under the pointer, as an index.
pub fn hit_test(rects: &[RectInfo], under: &[bool]) -> (r: Option<usize>)
    ensures
        match r {
            Some(i) => topmost(rect_views(rects@), under@, rects@.len() as int, true) == Some(i as int),
            None => topmost(rect_views(rects@), under@, rects@.len() as int, true) is None,
        },
{
    topmost_under(rects, under, true)
}

/// The id of the topmost rectangle under the pointer, disabled or not.
pub fn hit_test_id(rects: &[RectInfo], under: &[bool]) -> (r: Option<u64>)
    ensures
        r == (match topmost(rect_views(rects@), under@, rects@.len() as int, false) {
            Some(i) => Some(rect_views(rects@)[i].id),
            None => None,
        }),
{
    proof {
        lemma_topmost_range(rect_views(rects@), under@, rects@.len() as int, false);
    }
    match topmost_under(rects, under, false) {
        Some(i) => Some(rects[i].id),
        None => None,
    }
}

fn find_rect(rects: &[RectInfo], id: u64) -> (r: Option<usize>)
    ensures
        match r {
            Some(i) => first_with_id(rect_views(rects@), id) == Some(i as int),
            None => first_with_id(rect_views(rects@), id) is None,
        },
{
    let ghost rs = rect_views(rects@);
    assert(rs.skip(0) =~= rs);
    let mut i: usize = 0;
    while i < rects.len()
        invariant
            i <= rects@.len(),
            rs == rect_views(rects@),
            first_with_id(rs, id) == (match first_with_id(rs.skip(i as int), id) {
                Some(j) => Some(j + i),
                None => None,
            }),
        decreases rects@.len() - i,
    {
        assert(rs.skip(i as int)[0] == rs[i as int]);
        if rects[i].id == id {
            return Some(i);
        }
        assert(rs.skip(i as int).drop_first() =~= rs.skip(i + 1));
        i = i + 1;
    }
    None
}

/// A callback to invoke: the id of the element and the callback's id.
#[derive(Debug)]
pub struct ClickEvent {
    pub id: u64,
    pub callback: String,
}

/// A key as the text input sees it.
#[derive(Debug)]
pub enum KeyInput {
    Enter,
    Backspace,
    Character(String),
    Other,
}

/// A key as a value.
pub enum KeyView {
    Enter,
    Backspace,
    Character(Seq<char>),
    Other,
}

impl View for KeyInput {
    type V = KeyView;

    open spec fn view(&self) -> KeyView {
        match self {
            KeyInput::Enter => KeyView::Enter,
            KeyInput::Backspace => KeyView::Backspace,
            KeyInput::Character(s) => KeyView::Character(s@),
            KeyInput::Other => KeyView::Other,
        }
    }
}

/// The edit buffer after a key; Enter and other keys leave it as it is.
pub open spec fn edited_buffer(buffer: Seq<char>, key: KeyView) -> Seq<char> {
    match key {
        KeyView::Backspace => if buffer.len() > 0 {
            buffer.drop_last()
        } else {
            buffer
        },
        KeyView::Character(s) => buffer + s,
        _ => buffer,
    }
}

/// What a key press while editing leads to.
#[derive(Debug)]
pub enum KeyEffect {
    /// No field has the focus, or the key does nothing.
    Ignored,
    /// Enter ended the editing; the field's change callback, if it has one.
    Submitted(Option<ClickEvent>),
    /// The buffer changed: the text to show in the rectangle at `target`.
    Edited { target: Option<usize>, text: String },
}

/// Pointer and text-input state of a window.
#[derive(Debug)]
pub struct InputState {
    text_focus_id: Option<u64>,
    text_input_buffer: String,
    hovered_id: Option<u64>,
    active_id: Option<u64>,
    mouse_down: bool,
}

/// The input state as values.
pub struct InputView {
    pub focus: Option<u64>,
    pub buffer: Seq<char>,
    pub hovered: Option<u64>,
    pub active: Option<u64>,
    pub mouse_down: bool,
}

impl View for InputState {
    type V = InputView;

    closed spec fn view(&self) -> InputView {
        InputView {
            focus: self.text_focus_id,
            buffer: self.text_input_buffer@,
            hovered: self.hovered_id,
            active: self.active_id,
            mouse_down: self.mouse_down,
        }
    }
}

/// `String::pop`: removes the last character and returns it, or returns
/// `None` and leaves the string alone when it is empty.
#[verifier::external_body]
fn pop_char(s: &mut String) -> (r: Option<char>)
    ensures
        match r {
            Some(c) => old(s)@.len() > 0 && c == old(s)@.last() && final(s)@ == old(s)@.drop_last(),
            None => old(s)@.len() == 0 && final(s)@ == old(s)@,
        },
{
    s.pop()
}

impl InputState {
    /// Nothing focused, hovered or pressed, and an empty buffer.
    pub fn new() -> (s: Self)
        ensures
            s@.focus is None,
            s@.buffer == Seq::<char>::empty(),
            s@.hovered is None,
            s@.active is None,
            !s@.mouse_down,
    {
        InputState {
            text_focus_id: None,
            text_input_buffer: String::new(),
            hovered_id: None,
            active_id: None,
            mouse_down: false,
        }
    }

    /// The id of the text field being edited.
    pub fn text_focus_id(&self) -> (r: Option<u64>)
        ensures
            r == self@.focus,
    {
        self.text_focus_id
    }

    /// The id of the element under the pointer.
    pub fn hovered_id(&self) -> (r: Option<u64>)
        ensures
            r == self@.hovered,
    {
        self.hovered_id
    }

    /// The id of the element the pointer went down on.
    pub fn active_id(&self) -> (r: Option<u64>)
        ensures
            r == self@.active,
    {
        self.active_id
    }

    /// Whether the left button is held.
    pub fn mouse_down(&self) -> (r: bool)
        ensures
            r == self@.mouse_down,
    {
        self.mouse_down
    }

    /// The text being edited.
    pub fn buffer(&self) -> (r: &str)
        ensures
            r@ == self@.buffer,
    {
        self.text_input_buffer.as_str()
    }

    /// The pointer moved: the hovered element is the topmost one under it.
    pub fn pointer_moved(&mut self, rects: &[RectInfo], under: &[bool])
        ensures
            final(self)@ == (InputView {
                hovered: match topmost(rect_views(rects@), under@, rects@.len() as int, false) {
                    Some(i) => Some(rect_views(rects@)[i].id),
                    None => None,
                },
                ..old(self)@
            }),
    {
        self.hovered_id = hit_test_id(rects, under);
    }

    /// The left button went down: the element under the pointer becomes
    /// active, and a text field under it takes the focus with its text as the
    /// buffer; pressing anywhere else drops the focus.
    pub fn mouse_pressed(&mut self, rects: &[RectInfo], under: &[bool])
        ensures
            ({
                let rs = rect_views(rects@);
                let n = rects@.len() as int;
                &&& final(self)@.mouse_down
                &&& final(self)@.active == (match topmost(rs, under@, n, false) {
                    Some(i) => Some(rs[i].id),
                    None => None,
                })
                &&& final(self)@.hovered == old(self)@.hovered
                &&& match topmost(rs, under@, n, true) {
                    Some(i) => if rs[i].node_type == "TextInput"@ {
                        final(self)@.focus == Some(rs[i].id) && final(self)@.buffer
                            == rs[i].text_content
                    } else {
                        final(self)@.focus is None && final(self)@.buffer == old(self)@.buffer
                    },
                    None => final(self)@.focus is None && final(self)@.buffer == old(self)@.buffer,
                }
            }),
    {
        proof {
            lemma_topmost_range(rect_views(rects@), under@, rects@.len() as int, true);
        }
        self.mouse_down = true;
        self.active_id = hit_test_id(rects, under);
        match hit_test(rects, under) {
            Some(i) => {
                let rect = &rects[i];
                if str_eq(rect.node_type.as_str(), "TextInput") {
                    self.text_focus_id = Some(rect.id);
                    self.text_input_buffer = rect.text_content.clone();
                } else {
                    self.text_focus_id = None;
                }
            },
            None => {
                self.text_focus_id = None;
            },
        }
    }

    /// The left button came up: when the topmost enabled element under the
    /// pointer is the one the button went down on and it has a click
    /// callback, that callback fires for it. Either way the press ends.
    pub fn mouse_released(&mut self, rects: &[RectInfo], under: &[bool]) -> (event: Option<
        ClickEvent,
    >)
        ensures
            ({
                let rs = rect_views(rects@);
                let n = rects@.len() as int;
                &&& final(self)@ == (InputView { mouse_down: false, active: None, ..old(self)@ })
                &&& match event {
                    Some(e) => old(self)@.active == Some(e.id) && (topmost(rs, under@, n, true) matches Some(
                        i,
                    ) && rs[i].id == e.id && rs[i].on_click_id == e.callback@ && e.callback@.len()
                        > 0),
                    None => match (old(self)@.active, topmost(rs, under@, n, true)) {
                        (Some(a), Some(i)) => rs[i].id != a || rs[i].on_click_id.len() == 0,
                        _ => true,
                    },
                }
            }),
    {
        proof {
            lemma_topmost_range(rect_views(rects@), under@, rects@.len() as int, true);
        }
        self.mouse_down = false;
        let mut event: Option<ClickEvent> = None;
        if let Some(active) = self.active_id {
            if let Some(i) = hit_test(rects, under) {
                let cb = &rects[i].on_click_id;
                if rects[i].id == active && !cb.as_str().is_empty() {
                    event = Some(ClickEvent { id: active, callback: cb.clone() });
                }
            }
        }
        self.active_id = None;
        event
    }

    /// A key was pressed while a text field may have the focus. Enter ends the
    /// editing and fires the field's change callback if it has one; Backspace
    /// and characters edit the buffer, whose text goes to the first rectangle
    /// with the focused id. Without a focus nothing happens.
    pub fn key_pressed(&mut self, rects: &[RectInfo], key: &KeyInput) -> (effect: KeyEffect)
        ensures
            ({
                let rs = rect_views(rects@);
                let before = old(self)@;
                let after = final(self)@;
                &&& after.hovered == before.hovered
                &&& after.active == before.active
                &&& after.mouse_down == before.mouse_down
                &&& match before.focus {
                    None => after == before && effect is Ignored,
                    Some(f) => match key@ {
                        KeyView::Enter => after == (InputView { focus: None, ..before }) && (
                        effect matches KeyEffect::Submitted(ev) && match ev {
                            Some(e) => e.id == f && (first_with_id(rs, f) matches Some(i)
                                && rs[i].on_change_text_id == e.callback@)
                                && e.callback@.len() > 0,
                            None => match first_with_id(rs, f) {
                                Some(i) => rs[i].on_change_text_id.len() == 0,
                                None => true,
                            },
                        }),
                        KeyView::Character(c) => if c.len() > 0 {
                            after == (InputView { buffer: edited_buffer(before.buffer, key@), ..before })
                                && (effect matches KeyEffect::Edited { target, text } && text@
                                == after.buffer && match target {
                                Some(i) => first_with_id(rs, f) == Some(i as int),
                                None => first_with_id(rs, f) is None,
                            })
                        } else {
                            after == before && effect is Ignored
                        },
                        KeyView::Backspace => after == (InputView {
                            buffer: edited_buffer(before.buffer, key@),
                            ..before
                        }) && (effect matches KeyEffect::Edited { target, text } && text@
                            == after.buffer && match target {
                            Some(i) => first_with_id(rs, f) == Some(i as int),
                            None => first_with_id(rs, f) is None,
                        }),
                        KeyView::Other => after == before && effect is Ignored,
                    },
                }
            }),
    {
        let focus = match self.text_focus_id {
            Some(id) => id,
            None => {
                return KeyEffect::Ignored;
            },
        };
        proof {
            lemma_first_with_id_range(rect_views(rects@), focus);
        }
        match key {
            KeyInput::Enter => {
                let event = match find_rect(rects, focus) {
                    Some(i) => {
                        let cb = &rects[i].on_change_text_id;
                        if !cb.as_str().is_empty() {
                            Some(ClickEvent { id: focus, callback: cb.clone() })
                        } else {
                            None
                        }
                    },
                    None => None,
                };
                self.text_focus_id = None;
                KeyEffect::Submitted(event)
            },
            KeyInput::Backspace => {
                pop_char(&mut self.text_input_buffer);
                let target = find_rect(rects, focus);
                KeyEffect::Edited { target, text: self.text_input_buffer.clone() }
            },
            KeyInput::Character(ch) => {
                if ch.as_str().is_empty() {
                    return KeyEffect::Ignored;
                }
                self.text_input_buffer.append(ch.as_str());
                let target = find_rect(rects, focus);
                KeyEffect::Edited { target, text: self.text_input_buffer.clone() }
            },
            KeyInput::Other => KeyEffect::Ignored,
        }
    }

    /// The scroll container a wheel turn scrolls: the hovered element, when
    /// the first rectangle with its id is a `ScrollView`.
    pub fn scroll_target(&self, rects: &[RectInfo]) -> (r: Option<u64>)
        ensures
            r == (match self@.hovered {
                Some(h) => match first_with_id(rect_views(rects@), h) {
                    Some(i) => if rect_views(rects@)[i].node_type == "ScrollView"@ {
                        Some(h)
                    } else {
                        None
                    },
                    None => None,
                },
                None => None,
            }),
    {
        match self.hovered_id {
            Some(h) => {
                proof {
                    lemma_first_with_id_range(rect_views(rects@), h);
                }
                match find_rect(rects, h) {
                    Some(i) => if str_eq(rects[i].node_type.as_str(), "ScrollView") {
                        Some(rects[i].id)
                    } else {
                        None
                    },
                    None => None,
                }
            },
            None => None,
        }
    }
}

/// Typing one character and then Backspace leaves the edit buffer as it was.
pub proof fn lemma_type_then_erase(buffer: Seq<char>, c: char)
    ensures
        edited_buffer(edited_buffer(buffer, KeyView::Character(seq![c])), KeyView::Backspace)
            == buffer,
{
    assert((buffer + seq![c]).drop_last() =~= buffer);
}

} // verus!
