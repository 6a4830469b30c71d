use macropad_sequencer::menus::render::item_layout_fits_exec;
use macropad_sequencer::menus::render::{render_menu_item, Highlight, MenuItemRender, MenuItemState};

#[test]
fn unselected_line_layout() {
    let l = render_menu_item(0, "BPM", "120", MenuItemState::Unselected);
    assert_eq!((l.title_x, l.title_y), (2, 11));
    assert_eq!((l.value_x, l.value_y), (26, 11));
    assert!(!l.title_inverted && !l.value_inverted);
    assert_eq!(l.highlight, None);
}

#[test]
fn selecting_line_layout() {
    let l = render_menu_item(2, "STEPS", "12", MenuItemState::Selecting);
    assert_eq!(l.title_y, 37);
    assert_eq!(l.value_x, 38);
    assert!(l.title_inverted && l.value_inverted);
    assert_eq!(l.highlight, Some(Highlight { x: 0, y: 37, width: 128, height: 13 }));
}

#[test]
fn selected_line_layout() {
    let item = MenuItemRender {
        position: 1,
        title: "TIMING".to_string(),
        value: "1/8".to_string(),
        state: MenuItemState::Selected,
    };
    let l = item.layout();
    assert_eq!(l.title_y, 24);
    assert_eq!(l.value_x, 44);
    assert!(!l.title_inverted && l.value_inverted);
    assert_eq!(l.highlight, Some(Highlight { x: 42, y: 24, width: 21, height: 13 }));
}

#[test]
fn layout_fits_bounds() {
    assert!(item_layout_fits_exec(3, 8, 12));
    assert!(!item_layout_fits_exec(usize::MAX, 1, 1));
    assert!(!item_layout_fits_exec(0, 400_000_000, 1));
    assert!(!item_layout_fits_exec(0, 1, 400_000_000));
}
