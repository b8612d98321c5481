use vstd::prelude::*;
use crate::text::str_eq;

verus! {

/// Main axis of a flex container.
#[derive(Clone, Copy, Debug, PartialEq, Eq, Structural)]
pub enum FlexDirection {
    Row,
    Column,
    RowReverse,
    ColumnReverse,
}

/// Distribution of free space along the main axis.
#[derive(Clone, Copy, Debug, PartialEq, Eq, Structural)]
pub enum JustifyContent {
    FlexStart,
    FlexEnd,
    Center,
    SpaceBetween,
    SpaceAround,
    SpaceEvenly,
}

/// Alignment of children along the cross axis.
#[derive(Clone, Copy, Debug, PartialEq, Eq, Structural)]
pub enum AlignItems {
    FlexStart,
    FlexEnd,
    Center,
    Stretch,
    Baseline,
}

/// Whether children wrap onto several lines.
#[derive(Clone, Copy, Debug, PartialEq, Eq, Structural)]
pub enum FlexWrap {
    NoWrap,
    Wrap,
    WrapReverse,
}

/// Cross-axis alignment of one child, overriding its parent's `AlignItems`.
#[derive(Clone, Copy, Debug, PartialEq, Eq, Structural)]
pub enum AlignSelf {
    Auto,
    FlexStart,
    FlexEnd,
    Center,
    Stretch,
    Baseline,
}

/// Distribution of wrapped lines along the cross axis.
#[derive(Clone, Copy, Debug, PartialEq, Eq, Structural)]
pub enum AlignContent {
    FlexStart,
    FlexEnd,
    Center,
    Stretch,
    SpaceBetween,
    SpaceAround,
}

/// Whether a node takes part in flow layout or is placed by its insets.
#[derive(Clone, Copy, Debug, PartialEq, Eq, Structural)]
pub enum PositionType {
    Relative,
    Absolute,
}

/// The `flexDirection` keywords, in camelCase or kebab-case.
pub open spec fn flex_direction_keyword(s: Seq<char>) -> Option<FlexDirection> {
    if s == "row"@ {
        Some(FlexDirection::Row)
    } else if s == "column"@ {
        Some(FlexDirection::Column)
    } else if s == "rowReverse"@ || s == "row-reverse"@ {
        Some(FlexDirection::RowReverse)
    } else if s == "columnReverse"@ || s == "column-reverse"@ {
        Some(FlexDirection::ColumnReverse)
    } else {
        None
    }
}

/// The `justifyContent` keywords, in camelCase or kebab-case.
pub open spec fn justify_content_keyword(s: Seq<char>) -> Option<JustifyContent> {
    if s == "flexStart"@ || s == "flex-start"@ {
        Some(JustifyContent::FlexStart)
    } else if s == "flexEnd"@ || s == "flex-end"@ {
        Some(JustifyContent::FlexEnd)
    } else if s == "center"@ {
        Some(JustifyContent::Center)
    } else if s == "spaceBetween"@ || s == "space-between"@ {
        Some(JustifyContent::SpaceBetween)
    } else if s == "spaceAround"@ || s == "space-around"@ {
        Some(JustifyContent::SpaceAround)
    } else if s == "spaceEvenly"@ || s == "space-evenly"@ {
        Some(JustifyContent::SpaceEvenly)
    } else {
        None
    }
}

/// The `alignItems` keywords, in camelCase or kebab-case.
pub open spec fn align_items_keyword(s: Seq<char>) -> Option<AlignItems> {
    if s == "flexStart"@ || s == "flex-start"@ {
        Some(AlignItems::FlexStart)
    } else if s == "flexEnd"@ || s == "flex-end"@ {
        Some(AlignItems::FlexEnd)
    } else if s == "center"@ {
        Some(AlignItems::Center)
    } else if s == "stretch"@ {
        Some(AlignItems::Stretch)
    } else if s == "baseline"@ {
        Some(AlignItems::Baseline)
    } else {
        None
    }
}

/// Reads a `flexDirection` value; anything else is no direction.
pub fn parse_js_flex_direction(s: &str) -> (r: Option<FlexDirection>)
    ensures
        r == flex_direction_keyword(s@),
{
    if str_eq(s, "row") {
        Some(FlexDirection::Row)
    } else if str_eq(s, "column") {
        Some(FlexDirection::Column)
    } else if str_eq(s, "rowReverse") || str_eq(s, "row-reverse") {
        Some(FlexDirection::RowReverse)
    } else if str_eq(s, "columnReverse") || str_eq(s, "column-reverse") {
        Some(FlexDirection::ColumnReverse)
    } else {
        None
    }
}

/// Reads a `justifyContent` value; anything else is no value.
pub fn parse_js_justify_content(s: &str) -> (r: Option<JustifyContent>)
    ensures
        r == justify_content_keyword(s@),
{
    if str_eq(s, "flexStart") || str_eq(s, "flex-start") {
        Some(JustifyContent::FlexStart)
    } else if str_eq(s, "flexEnd") || str_eq(s, "flex-end") {
        Some(JustifyContent::FlexEnd)
    } else if str_eq(s, "center") {
        Some(JustifyContent::Center)
    } else if str_eq(s, "spaceBetween") || str_eq(s, "space-between") {
        Some(JustifyContent::SpaceBetween)
    } else if str_eq(s, "spaceAround") || str_eq(s, "space-around") {
        Some(JustifyContent::SpaceAround)
    } else if str_eq(s, "spaceEvenly") || str_eq(s, "space-evenly") {
        Some(JustifyContent::SpaceEvenly)
    } else {
        None
    }
}

/// Reads an `alignItems` value; anything else is no value.
pub fn parse_js_align_items(s: &str) -> (r: Option<AlignItems>)
    ensures
        r == align_items_keyword(s@),
{
    if str_eq(s, "flexStart") || str_eq(s, "flex-start") {
        Some(AlignItems::FlexStart)
    } else if str_eq(s, "flexEnd") || str_eq(s, "flex-end") {
        Some(AlignItems::FlexEnd)
    } else if str_eq(s, "center") {
        Some(AlignItems::Center)
    } else if str_eq(s, "stretch") {
        Some(AlignItems::Stretch)
    } else if str_eq(s, "baseline") {
        Some(AlignItems::Baseline)
    } else {
        None
    }
}

/// The direction a container lays out in: columns unless a style says otherwise.
pub fn resolve_flex_direction(d: Option<FlexDirection>) -> (r: FlexDirection)
    ensures
        r == (match d {
            Some(x) => x,
            None => FlexDirection::Column,
        }),
{
    match d {
        Some(x) => x,
        None => FlexDirection::Column,
    }
}

/// Wrapping of a container: only an explicit `Wrap` or `WrapReverse` wraps.
pub fn resolve_flex_wrap(w: Option<FlexWrap>) -> (r: FlexWrap)
    ensures
        r == (match w {
            Some(FlexWrap::Wrap) => FlexWrap::Wrap,
            Some(FlexWrap::WrapReverse) => FlexWrap::WrapReverse,
            _ => FlexWrap::NoWrap,
        }),
{
    match w {
        Some(FlexWrap::Wrap) => FlexWrap::Wrap,
        Some(FlexWrap::WrapReverse) => FlexWrap::WrapReverse,
        _ => FlexWrap::NoWrap,
    }
}

/// Positioning of a node: relative unless a style asks for `Absolute`.
pub fn resolve_position(p: Option<PositionType>) -> (r: PositionType)
    ensures
        r == (match p {
            Some(PositionType::Absolute) => PositionType::Absolute,
            _ => PositionType::Relative,
        }),
{
    match p {
        Some(PositionType::Absolute) => PositionType::Absolute,
        _ => PositionType::Relative,
    }
}

/// The cross-axis alignment that `AlignSelf` asks of the layout: `Auto` and an
/// absent value defer to the parent, the others name an `AlignItems`.
pub open spec fn align_self_as_items(a: Option<AlignSelf>) -> Option<AlignItems> {
    match a {
        None => None,
        Some(AlignSelf::Auto) => None,
        Some(AlignSelf::FlexStart) => Some(AlignItems::FlexStart),
        Some(AlignSelf::FlexEnd) => Some(AlignItems::FlexEnd),
        Some(AlignSelf::Center) => Some(AlignItems::Center),
        Some(AlignSelf::Stretch) => Some(AlignItems::Stretch),
        Some(AlignSelf::Baseline) => Some(AlignItems::Baseline),
    }
}

/// Maps `AlignSelf` onto the alignment it asks for, `None` deferring to the parent.
pub fn resolve_align_self(a: Option<AlignSelf>) -> (r: Option<AlignItems>)
    ensures
        r == align_self_as_items(a),
{
    match a {
        None => None,
        Some(AlignSelf::Auto) => None,
        Some(AlignSelf::FlexStart) => Some(AlignItems::FlexStart),
        Some(AlignSelf::FlexEnd) => Some(AlignItems::FlexEnd),
        Some(AlignSelf::Center) => Some(AlignItems::Center),
        Some(AlignSelf::Stretch) => Some(AlignItems::Stretch),
        Some(AlignSelf::Baseline) => Some(AlignItems::Baseline),
    }
}

/// The keywords that spell each `justifyContent` value, camelCase first.
pub open spec fn justify_content_spellings(v: JustifyContent) -> Seq<Seq<char>> {
    match v {
        JustifyContent::FlexStart => seq!["flexStart"@, "flex-start"@],
        JustifyContent::FlexEnd => seq!["flexEnd"@, "flex-end"@],
        JustifyContent::Center => seq!["center"@],
        JustifyContent::SpaceBetween => seq!["spaceBetween"@, "space-between"@],
        JustifyContent::SpaceAround => seq!["spaceAround"@, "space-around"@],
        JustifyContent::SpaceEvenly => seq!["spaceEvenly"@, "space-evenly"@],
    }
}

/// The keywords that spell each `alignItems` value, camelCase first.
pub open spec fn align_items_spellings(v: AlignItems) -> Seq<Seq<char>> {
    match v {
        AlignItems::FlexStart => seq!["flexStart"@, "flex-start"@],
        AlignItems::FlexEnd => seq!["flexEnd"@, "flex-end"@],
        AlignItems::Center => seq!["center"@],
        AlignItems::Stretch => seq!["stretch"@],
        AlignItems::Baseline => seq!["baseline"@],
    }
}

/// The keywords that spell each `flexDirection` value, camelCase first.
pub open spec fn flex_direction_spellings(v: FlexDirection) -> Seq<Seq<char>> {
    match v {
        FlexDirection::Row => seq!["row"@],
        FlexDirection::Column => seq!["column"@],
        FlexDirection::RowReverse => seq!["rowReverse"@, "row-reverse"@],
        FlexDirection::ColumnReverse => seq!["columnReverse"@, "column-reverse"@],
    }
}

/// The keywords are told apart by their length and their characters at
/// positions 0, 1, 5 and 6.
proof fn reveal_keywords()
    ensures
        "row"@.len() == 3 && "row"@[0] == 'r' && "row"@[1] == 'o',
        "column"@.len() == 6 && "column"@[0] == 'c' && "column"@[1] == 'o' && "column"@[5] == 'n',
        "rowReverse"@.len() == 10 && "rowReverse"@[0] == 'r' && "rowReverse"@[1] == 'o' && "rowReverse"@[5] == 'v' && "rowReverse"@[6] == 'e',
        "row-reverse"@.len() == 11 && "row-reverse"@[0] == 'r' && "row-reverse"@[1] == 'o' && "row-reverse"@[5] == 'e' && "row-reverse"@[6] == 'v',
        "columnReverse"@.len() == 13 && "columnReverse"@[0] == 'c' && "columnReverse"@[1] == 'o' && "columnReverse"@[5] == 'n' && "columnReverse"@[6] == 'R',
        "column-reverse"@.len() == 14 && "column-reverse"@[0] == 'c' && "column-reverse"@[1] == 'o' && "column-reverse"@[5] == 'n' && "column-reverse"@[6] == '-',
        "flexStart"@.len() == 9 && "flexStart"@[0] == 'f' && "flexStart"@[1] == 'l' && "flexStart"@[5] == 't' && "flexStart"@[6] == 'a',
        "flex-start"@.len() == 10 && "flex-start"@[0] == 'f' && "flex-start"@[1] == 'l' && "flex-start"@[5] == 's' && "flex-start"@[6] == 't',
        "flexEnd"@.len() == 7 && "flexEnd"@[0] == 'f' && "flexEnd"@[1] == 'l' && "flexEnd"@[5] == 'n' && "flexEnd"@[6] == 'd',
        "flex-end"@.len() == 8 && "flex-end"@[0] == 'f' && "flex-end"@[1] == 'l' && "flex-end"@[5] == 'e' && "flex-end"@[6] == 'n',
        "center"@.len() == 6 && "center"@[0] == 'c' && "center"@[1] == 'e' && "center"@[5] == 'r',
        "spaceBetween"@.len() == 12 && "spaceBetween"@[0] == 's' && "spaceBetween"@[1] == 'p' && "spaceBetween"@[5] == 'B' && "spaceBetween"@[6] == 'e',
        "space-between"@.len() == 13 && "space-between"@[0] == 's' && "space-between"@[1] == 'p' && "space-between"@[5] == '-' && "space-between"@[6] == 'b',
        "spaceAround"@.len() == 11 && "spaceAround"@[0] == 's' && "spaceAround"@[1] == 'p' && "spaceAround"@[5] == 'A' && "spaceAround"@[6] == 'r',
        "space-around"@.len() == 12 && "space-around"@[0] == 's' && "space-around"@[1] == 'p' && "space-around"@[5] == '-' && "space-around"@[6] == 'a',
        "spaceEvenly"@.len() == 11 && "spaceEvenly"@[0] == 's' && "spaceEvenly"@[1] == 'p' && "spaceEvenly"@[5] == 'E' && "spaceEvenly"@[6] == 'v',
        "space-evenly"@.len() == 12 && "space-evenly"@[0] == 's' && "space-evenly"@[1] == 'p' && "space-evenly"@[5] == '-' && "space-evenly"@[6] == 'e',
        "stretch"@.len() == 7 && "stretch"@[0] == 's' && "stretch"@[1] == 't' && "stretch"@[5] == 'c' && "stretch"@[6] == 'h',
        "baseline"@.len() == 8 && "baseline"@[0] == 'b' && "baseline"@[1] == 'a' && "baseline"@[5] == 'i' && "baseline"@[6] == 'n',
{
    reveal_strlit("row");
    reveal_strlit("column");
    reveal_strlit("rowReverse");
    reveal_strlit("row-reverse");
    reveal_strlit("columnReverse");
    reveal_strlit("column-reverse");
    reveal_strlit("flexStart");
    reveal_strlit("flex-start");
    reveal_strlit("flexEnd");
    reveal_strlit("flex-end");
    reveal_strlit("center");
    reveal_strlit("spaceBetween");
    reveal_strlit("space-between");
    reveal_strlit("spaceAround");
    reveal_strlit("space-around");
    reveal_strlit("spaceEvenly");
    reveal_strlit("space-evenly");
    reveal_strlit("stretch");
    reveal_strlit("baseline");
}

/// A `justifyContent` keyword reads as the value it spells, and a value is
/// read only from its own spellings: `center` is `Center`, `flexStart` and
/// `flex-start` are `FlexStart`, and so on.
pub proof fn lemma_justify_content_spellings(v: JustifyContent, s: Seq<char>)
    ensures
        forall|i: int|
            0 <= i < justify_content_spellings(v).len() ==> justify_content_keyword(
                #[trigger] justify_content_spellings(v)[i],
            ) == Some(v),
        justify_content_keyword(s) == Some(v) ==> justify_content_spellings(v).contains(s),
{
    reveal_keywords();
    let sp = justify_content_spellings(v);
    if justify_content_keyword(s) == Some(v) {
        assert(sp[0] == s || (sp.len() > 1 && sp[1] == s));
    }
}

/// An `alignItems` keyword reads as the value it spells, and a value is read
/// only from its own spellings: `center` is `Center`, `stretch` is `Stretch`,
/// and so on.
pub proof fn lemma_align_items_spellings(v: AlignItems, s: Seq<char>)
    ensures
        forall|i: int|
            0 <= i < align_items_spellings(v).len() ==> align_items_keyword(
                #[trigger] align_items_spellings(v)[i],
            ) == Some(v),
        align_items_keyword(s) == Some(v) ==> align_items_spellings(v).contains(s),
{
    reveal_keywords();
    let sp = align_items_spellings(v);
    if align_items_keyword(s) == Some(v) {
        assert(sp[0] == s || (sp.len() > 1 && sp[1] == s));
    }
}

/// A `flexDirection` keyword reads as the value it spells, and a value is
/// read only from its own spellings: `row` is `Row`, `row-reverse` and
/// `rowReverse` are `RowReverse`, and so on.
pub proof fn lemma_flex_direction_spellings(v: FlexDirection, s: Seq<char>)
    ensures
        forall|i: int|
            0 <= i < flex_direction_spellings(v).len() ==> flex_direction_keyword(
                #[trigger] flex_direction_spellings(v)[i],
            ) == Some(v),
        flex_direction_keyword(s) == Some(v) ==> flex_direction_spellings(v).contains(s),
{
    reveal_keywords();
    let sp = flex_direction_spellings(v);
    if flex_direction_keyword(s) == Some(v) {
        assert(sp[0] == s || (sp.len() > 1 && sp[1] == s));
    }
}

} // verus!
