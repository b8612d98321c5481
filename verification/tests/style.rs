use axo::style::{
    parse_js_align_items, parse_js_flex_direction, parse_js_justify_content, resolve_align_self,
    resolve_flex_direction, resolve_flex_wrap, resolve_position, AlignItems, AlignSelf,
    FlexDirection, FlexWrap, JustifyContent, PositionType,
};

#[test]
fn flex_direction_keywords() {
    assert_eq!(parse_js_flex_direction("row"), Some(FlexDirection::Row));
    assert_eq!(parse_js_flex_direction("row-reverse"), Some(FlexDirection::RowReverse));
    assert_eq!(parse_js_flex_direction("columnReverse"), Some(FlexDirection::ColumnReverse));
    assert_eq!(parse_js_flex_direction("Row"), None);
}

#[test]
fn justify_and_align_keywords() {
    assert_eq!(parse_js_justify_content("space-evenly"), Some(JustifyContent::SpaceEvenly));
    assert_eq!(parse_js_justify_content("spaceBetween"), Some(JustifyContent::SpaceBetween));
    assert_eq!(parse_js_justify_content("stretch"), None);
    assert_eq!(parse_js_align_items("stretch"), Some(AlignItems::Stretch));
    assert_eq!(parse_js_align_items("flex-end"), Some(AlignItems::FlexEnd));
    assert_eq!(parse_js_align_items("space-around"), None);
}

#[test]
fn layout_defaults() {
    assert_eq!(resolve_flex_direction(None), FlexDirection::Column);
    assert_eq!(resolve_flex_direction(Some(FlexDirection::Row)), FlexDirection::Row);
    assert_eq!(resolve_flex_wrap(None), FlexWrap::NoWrap);
    assert_eq!(resolve_flex_wrap(Some(FlexWrap::WrapReverse)), FlexWrap::WrapReverse);
    assert_eq!(resolve_position(None), PositionType::Relative);
    assert_eq!(resolve_position(Some(PositionType::Absolute)), PositionType::Absolute);
    assert_eq!(resolve_align_self(Some(AlignSelf::Auto)), None);
    assert_eq!(resolve_align_self(Some(AlignSelf::Baseline)), Some(AlignItems::Baseline));
    assert_eq!(resolve_align_self(None), None);
}
