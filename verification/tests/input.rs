use axo::input::{hit_test, hit_test_id, InputState, KeyEffect, KeyInput, RectInfo};

fn rect(id: u64, node_type: &str, on_click: &str, on_change: &str, text: &str, disabled: bool) -> RectInfo {
    RectInfo {
        id,
        node_type: node_type.to_string(),
        on_click_id: on_click.to_string(),
        on_change_text_id: on_change.to_string(),
        text_content: text.to_string(),
        disabled,
    }
}

fn scene() -> Vec<RectInfo> {
    vec![
        rect(1, "View", "", "", "", false),
        rect(2, "Button", "cb_1", "", "OK", false),
        rect(3, "TextInput", "", "cb_changed", "hi", false),
        rect(4, "Button", "cb_2", "", "", true),
    ]
}

#[test]
fn hit_tests_pick_the_topmost() {
    let rects = scene();
    assert_eq!(hit_test(&rects, &[true, true, false, false]), Some(1));
    assert_eq!(hit_test(&rects, &[true, true, false, true]), Some(1));
    assert_eq!(hit_test_id(&rects, &[true, true, false, true]), Some(4));
    assert_eq!(hit_test(&rects, &[false, false, false, false]), None);
    assert_eq!(hit_test(&rects, &[true]), Some(0));
}

#[test]
fn click_fires_on_release_over_a_callback() {
    let rects = scene();
    let mut s = InputState::new();
    let under = [true, true, false, false];
    s.mouse_pressed(&rects, &under);
    assert!(s.mouse_down());
    assert_eq!(s.active_id(), Some(2));
    let ev = s.mouse_released(&rects, &under).expect("click");
    assert_eq!(ev.id, 2);
    assert_eq!(ev.callback, "cb_1");
    assert!(!s.mouse_down());
    assert_eq!(s.active_id(), None);
}

#[test]
fn no_click_without_callback_or_press() {
    let rects = scene();
    let mut s = InputState::new();
    assert!(s.mouse_released(&rects, &[true, true, false, false]).is_none());
    s.mouse_pressed(&rects, &[true, false, false, false]);
    assert!(s.mouse_released(&rects, &[true, false, false, false]).is_none());
}

#[test]
fn typing_edits_the_focused_field() {
    let rects = scene();
    let mut s = InputState::new();
    let under = [true, false, true, false];
    s.mouse_pressed(&rects, &under);
    assert_eq!(s.text_focus_id(), Some(3));
    assert_eq!(s.buffer(), "hi");
    match s.key_pressed(&rects, &KeyInput::Character("!".to_string())) {
        KeyEffect::Edited { target, text } => {
            assert_eq!(target, Some(2));
            assert_eq!(text, "hi!");
        }
        other => panic!("unexpected {:?}", other),
    }
    match s.key_pressed(&rects, &KeyInput::Backspace) {
        KeyEffect::Edited { text, .. } => assert_eq!(text, "hi"),
        other => panic!("unexpected {:?}", other),
    }
    assert!(matches!(s.key_pressed(&rects, &KeyInput::Character(String::new())), KeyEffect::Ignored));
    assert!(matches!(s.key_pressed(&rects, &KeyInput::Other), KeyEffect::Ignored));
    match s.key_pressed(&rects, &KeyInput::Enter) {
        KeyEffect::Submitted(Some(ev)) => {
            assert_eq!(ev.id, 3);
            assert_eq!(ev.callback, "cb_changed");
        }
        other => panic!("unexpected {:?}", other),
    }
    assert_eq!(s.text_focus_id(), None);
    assert!(matches!(s.key_pressed(&rects, &KeyInput::Backspace), KeyEffect::Ignored));
}

#[test]
fn backspace_on_empty_buffer_keeps_it_empty() {
    let rects = vec![rect(9, "TextInput", "", "", "", false)];
    let mut s = InputState::new();
    s.mouse_pressed(&rects, &[true]);
    match s.key_pressed(&rects, &KeyInput::Backspace) {
        KeyEffect::Edited { target, text } => {
            assert_eq!(target, Some(0));
            assert_eq!(text, "");
        }
        other => panic!("unexpected {:?}", other),
    }
}

#[test]
fn pressing_elsewhere_drops_focus() {
    let rects = scene();
    let mut s = InputState::new();
    s.mouse_pressed(&rects, &[false, false, true, false]);
    assert_eq!(s.text_focus_id(), Some(3));
    s.mouse_released(&rects, &[false, false, true, false]);
    s.mouse_pressed(&rects, &[true, false, false, false]);
    assert_eq!(s.text_focus_id(), None);
}

#[test]
fn wheel_scrolls_hovered_scroll_views_only() {
    let rects = vec![rect(5, "ScrollView", "", "", "", false), rect(6, "View", "", "", "", false)];
    let mut s = InputState::new();
    s.pointer_moved(&rects, &[true, false]);
    assert_eq!(s.hovered_id(), Some(5));
    assert_eq!(s.scroll_target(&rects), Some(5));
    s.pointer_moved(&rects, &[true, true]);
    assert_eq!(s.scroll_target(&rects), None);
}

#[test]
fn no_click_when_released_on_another_element() {
    let rects = scene();
    let mut s = InputState::new();
    s.mouse_pressed(&rects, &[true, false, false, false]);
    assert_eq!(s.active_id(), Some(1));
    assert!(s.mouse_released(&rects, &[true, true, false, false]).is_none());
    assert_eq!(s.active_id(), None);
    assert!(!s.mouse_down());
    s.mouse_pressed(&rects, &[true, true, false, true]);
    assert_eq!(s.active_id(), Some(4));
    assert!(s.mouse_released(&rects, &[true, true, false, true]).is_none());
}
