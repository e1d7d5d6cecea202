use vigil::display::{DisplayCell, DisplayStyle};

#[test]
fn none_style_has_nothing_set() {
    let style = DisplayStyle::none();
    assert_eq!(style.background, None);
    assert_eq!(style.foreground, None);
    assert_eq!(style.style_metadata, 0);
}

#[test]
fn blank_cell_is_a_space_without_style() {
    let cell = DisplayCell::blank();
    assert_eq!(cell.character, ' ');
    assert_eq!(cell.style, None);
}
