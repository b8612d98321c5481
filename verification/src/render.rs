use vstd::prelude::*;
use crate::text::str_eq;

verus! {

/// Which colour set a rectangle is drawn with.
#[derive(Debug, Clone, Copy, PartialEq, Eq, Structural)]
pub enum Highlight {
    /// Dimmed: the element is disabled.
    Disabled,
    /// The pointer went down on it: its active colours, where it has them.
    Active,
    /// The pointer is over it: its hover colours, where it has them.
    Hovered,
    /// Its own colours.
    Normal,
}

/// The colour set of a rectangle: disabled wins over pressed, which wins
/// over hovered.
pub open spec fn highlight_of(disabled: bool, id: u64, hovered: Option<u64>, active: Option<u64>) -> Highlight {
    if disabled {
        Highlight::Disabled
    } else if active == Some(id) {
        Highlight::Active
    } else if hovered == Some(id) {
        Highlight::Hovered
    } else {
        Highlight::Normal
    }
}

/// The colour set to draw the rectangle `id` with.
pub fn highlight(disabled: bool, id: u64, hovered: Option<u64>, active: Option<u64>) -> (h: Highlight)
    ensures
        h == highlight_of(disabled, id, hovered, active),
{
    if disabled {
        Highlight::Disabled
    } else if active == Some(id) {
        Highlight::Active
    } else if hovered == Some(id) {
        Highlight::Hovered
    } else {
        Highlight::Normal
    }
}

/// Whether a rectangle is drawn as an image: an `Image` node with a source.
pub fn draws_image(node_type: &str, has_source: bool) -> (r: bool)
    ensures
        r == (node_type@ == "Image"@ && has_source),
{
    str_eq(node_type, "Image") && has_source
}

/// The source an `Image` node loads: its content, when it has one; other
/// nodes load nothing.
pub fn image_source_of(node_type: &str, content: &str) -> (r: Option<String>)
    ensures
        match r {
            Some(s) => node_type@ == "Image"@ && content@.len() > 0 && s@ == content@,
            None => !(node_type@ == "Image"@ && content@.len() > 0),
        },
{
    if str_eq(node_type, "Image") && !content.is_empty() {
        Some(content.to_owned())
    } else {
        None
    }
}

} // verus!
