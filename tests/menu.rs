use ecs::menu::{Menu, MenuItem};

fn three() -> Menu<u8> {
    Menu::new(vec![MenuItem::new("a", 1), MenuItem::new("b", 2), MenuItem::new("c", 3)])
}

#[test]
fn menu_starts_on_first_item() {
    let m = three();
    assert_eq!(m.selection(), 0);
    assert_eq!(*m.select_item(), 1);
    assert_eq!(m.menu_items[1].label, "b");
}

#[test]
fn menu_inc_wraps_and_dec_stops_at_first() {
    let mut m = three();
    m.dec_selection();
    assert_eq!(m.selection(), 0);
    m.inc_selection();
    m.inc_selection();
    assert_eq!(m.selection(), 2);
    assert_eq!(*m.select_item(), 3);
    m.inc_selection();
    assert_eq!(m.selection(), 0);
    m.inc_selection();
    m.dec_selection();
    assert_eq!(m.selection(), 0);
}
