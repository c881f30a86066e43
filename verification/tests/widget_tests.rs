use nmapcmd::widgets::{TooltipState, CheckboxState, InputBuffer, PathCompleter};
use nmapcmd::flags::NmapFlag;

#[test]
fn test_tooltip_state() {
    let mut state = TooltipState::new();
    assert!(!state.is_visible());
    state.show();
    assert!(state.is_visible());
    state.dismiss();
    assert!(!state.is_visible());
    state.toggle();
    assert!(state.is_visible());
    state.set_visible(false);
    assert!(!state.is_visible());
}

#[test]
fn test_checkbox_state() {
    let mut state = CheckboxState::new(false);
    assert!(!state.is_checked());
    assert!(!state.is_focused());
    state.toggle();
    assert!(state.is_checked());
    state.set(false);
    assert!(!state.is_checked());
    state.focus();
    assert!(state.is_focused());
    state.unfocus();
    assert!(!state.is_focused());
    state.set_focused(true);
    assert!(state.is_focused());
}

#[test]
fn test_input_buffer() {
    let mut b = InputBuffer::new();
    b.insert_char('a');
    b.insert_char('b');
    b.move_cursor_left();
    b.insert_char('x');
    assert_eq!(b.content(), "axb".to_string());
    b.backspace();
    assert_eq!(b.content(), "ab".to_string());
    b.move_cursor_start();
    b.delete_char();
    assert_eq!(b.content(), "b".to_string());
}

#[test]
fn test_path_completer_cycles() {
    let mut c = PathCompleter::new();
    assert!(!c.has_suggestions());
    c.suggestions = vec!["a".to_string(), "b".to_string(), "c".to_string()];
    assert!(c.has_suggestions());
    c.select_next();
    assert_eq!(c.selected(), Some(&"b".to_string()));
    c.select_prev();
    c.select_prev();
    assert_eq!(c.selected(), Some(&"c".to_string()));
}

#[test]
fn test_registry_cycle() {
    let all = NmapFlag::enumerate();
    assert_eq!(all.len(), 22);
    assert_eq!(NmapFlag::first(), all[0]);
    for f in all.iter() {
        assert_eq!(f.prev().next(), *f);
    }
    let mut cur = NmapFlag::first();
    for _ in 0..all.len() {
        cur = cur.next();
    }
    assert_eq!(cur, NmapFlag::first());
}

#[test]
fn test_registry_accessors() {
    let mut scan = nmapcmd::model::NmapScan::new();
    let ok = NmapFlag::ListScan.set_flag_value(
        &mut scan,
        nmapcmd::flags::FlagValue::Bool(true),
    );
    assert!(ok);
    assert!(scan.host_discovery.list_scan);
    let bad = NmapFlag::ListScan.set_flag_value(
        &mut scan,
        nmapcmd::flags::FlagValue::Int(Some(1)),
    );
    assert!(!bad);
    assert!(matches!(
        NmapFlag::ListScan.get_flag_value(&scan),
        nmapcmd::flags::FlagValue::Bool(true)
    ));
    assert_eq!(NmapFlag::TimingTemplate.get_variant_count(), Some(6));
    assert_eq!(NmapFlag::ListScan.get_variant_count(), None);
}
