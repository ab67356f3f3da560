use drag_drop_demo::{Color, ContextAction, DragDropDemo, Item, Pass, StoreError};

fn names(demo: &DragDropDemo) -> Vec<String> {
    demo.items().iter().map(|it| it.name.clone()).collect()
}

fn colors(demo: &DragDropDemo) -> Vec<Color> {
    demo.items().iter().map(|it| it.color).collect()
}

#[test]
fn test_item_creation() {
    let item = Item::new("Test", Color::red());
    assert_eq!(item.name, "Test");
    assert_eq!(item.color, Color::red());
}

#[test]
fn test_demo_initialization() {
    let demo = DragDropDemo::new();
    assert_eq!(demo.items().len(), 4);
    assert_eq!(demo.items()[0].name, "Red Item");
}

#[test]
fn palette_matches_egui() {
    assert_eq!(Color::red().to_array(), egui::Color32::RED.to_array());
    assert_eq!(Color::blue().to_array(), egui::Color32::BLUE.to_array());
    assert_eq!(Color::green().to_array(), egui::Color32::GREEN.to_array());
    assert_eq!(Color::yellow().to_array(), egui::Color32::YELLOW.to_array());
    assert_eq!(Color::purple().to_array(), egui::Color32::PURPLE.to_array());
}

#[test]
fn color_constructors() {
    assert_eq!(Color::from_rgb(1, 2, 3).to_array(), [1, 2, 3, 255]);
    assert_eq!(Color::from_rgba_premultiplied(1, 2, 3, 4).to_array(), [1, 2, 3, 4]);
    assert_eq!(Color::purple().to_array(), [0x80, 0, 0x80, 255]);
}

#[test]
fn initialize_gives_four_items_in_order() {
    let demo = DragDropDemo::new();
    assert_eq!(demo.len(), 4);
    assert!(!demo.is_empty());
    assert_eq!(names(&demo), vec!["Red Item", "Blue Item", "Green Item", "Yellow Item"]);
    assert_eq!(colors(&demo), vec![Color::red(), Color::blue(), Color::green(), Color::yellow()]);
}

#[test]
fn default_equals_new() {
    let demo = DragDropDemo::default();
    assert_eq!(names(&demo), names(&DragDropDemo::new()));
    assert_eq!(colors(&demo), colors(&DragDropDemo::new()));
}

#[test]
fn reorder_first_to_last() {
    let mut demo = DragDropDemo::new();
    assert_eq!(demo.reorder(0, 3), Ok(()));
    assert_eq!(names(&demo), vec!["Yellow Item", "Blue Item", "Green Item", "Red Item"]);
    assert_eq!(colors(&demo), vec![Color::yellow(), Color::blue(), Color::green(), Color::red()]);
}

#[test]
fn reorder_twice_restores_order() {
    for (from, to) in [(0, 3), (3, 0), (1, 2), (2, 0)] {
        let mut demo = DragDropDemo::new();
        assert_eq!(demo.reorder(from, to), Ok(()));
        assert_ne!(names(&demo), names(&DragDropDemo::new()));
        assert_eq!(demo.reorder(from, to), Ok(()));
        assert_eq!(names(&demo), names(&DragDropDemo::new()));
        assert_eq!(colors(&demo), colors(&DragDropDemo::new()));
    }
}

#[test]
fn reorder_same_index_changes_nothing() {
    let mut demo = DragDropDemo::new();
    assert_eq!(demo.reorder(2, 2), Ok(()));
    assert_eq!(names(&demo), names(&DragDropDemo::new()));
}

#[test]
fn reorder_out_of_bounds_fails() {
    let mut demo = DragDropDemo::new();
    assert_eq!(demo.reorder(0, 4), Err(StoreError::IndexOutOfBounds));
    assert_eq!(demo.reorder(9, 1), Err(StoreError::IndexOutOfBounds));
    assert_eq!(names(&demo), names(&DragDropDemo::new()));
}

#[test]
fn change_color_cycles_through_palette() {
    let mut demo = DragDropDemo::new();
    let expected = [Color::blue(), Color::green(), Color::yellow(), Color::purple(), Color::red()];
    for want in expected {
        assert_eq!(demo.change_color(0), Ok(()));
        assert_eq!(demo.item(0).color, want);
        assert_eq!(demo.item(0).name, "Red Item");
    }
    assert_eq!(demo.item(1).color, Color::blue());
}

#[test]
fn cycle_resets_unknown_color_to_red() {
    assert_eq!(Color::from_rgb(1, 2, 3).cycle(), Color::red());
    assert_eq!(Color::from_rgba_premultiplied(255, 0, 0, 0).cycle(), Color::red());
    assert_eq!(Color::red().cycle(), Color::blue());
    assert_eq!(Color::purple().cycle(), Color::red());
}

#[test]
fn change_color_out_of_bounds_fails() {
    let mut demo = DragDropDemo::new();
    assert_eq!(demo.change_color(4), Err(StoreError::IndexOutOfBounds));
    assert_eq!(colors(&demo), colors(&DragDropDemo::new()));
}

#[test]
fn rename_twice_appends_suffix_twice() {
    let mut demo = DragDropDemo::new();
    assert_eq!(demo.rename(1), Ok(()));
    assert_eq!(demo.item(1).name, "Blue Item (Modified)");
    assert_eq!(demo.rename(1), Ok(()));
    assert_eq!(demo.item(1).name, "Blue Item (Modified) (Modified)");
    assert_eq!(demo.item(1).color, Color::blue());
    assert_eq!(demo.rename(4), Err(StoreError::IndexOutOfBounds));
}

#[test]
fn duplicate_appends_copy() {
    let mut demo = DragDropDemo::new();
    assert_eq!(demo.duplicate(2), Ok(()));
    assert_eq!(demo.len(), 5);
    assert_eq!(demo.item(4).name, "Green Item Copy");
    assert_eq!(demo.item(4).color, Color::green());
    assert_eq!(demo.item(2).name, "Green Item");
    assert_eq!(demo.duplicate(5), Err(StoreError::IndexOutOfBounds));
    assert_eq!(demo.len(), 5);
}

#[test]
fn delete_shifts_later_items() {
    let mut demo = DragDropDemo::new();
    assert_eq!(demo.delete(1), Ok(()));
    assert_eq!(names(&demo), vec!["Red Item", "Green Item", "Yellow Item"]);
    assert_eq!(demo.delete(3), Err(StoreError::IndexOutOfBounds));
    assert_eq!(demo.len(), 3);
}

#[test]
fn delete_last_remaining_item_leaves_empty_list() {
    let mut demo = DragDropDemo::new();
    for _ in 0..4 {
        assert_eq!(demo.delete(0), Ok(()));
    }
    assert!(demo.is_empty());
    assert_eq!(demo.delete(0), Err(StoreError::IndexOutOfBounds));
}

#[test]
fn handle_context_action_dispatches() {
    let mut demo = DragDropDemo::new();
    assert_eq!(demo.handle_context_action(ContextAction::ChangeColor(3)), Ok(()));
    assert_eq!(demo.item(3).color, Color::purple());
    assert_eq!(demo.handle_context_action(ContextAction::Rename(0)), Ok(()));
    assert_eq!(demo.item(0).name, "Red Item (Modified)");
    assert_eq!(demo.handle_context_action(ContextAction::Duplicate(0)), Ok(()));
    assert_eq!(demo.item(4).name, "Red Item (Modified) Copy");
    assert_eq!(demo.handle_context_action(ContextAction::Delete(1)), Ok(()));
    assert_eq!(names(&demo), vec!["Red Item (Modified)", "Green Item", "Yellow Item", "Red Item (Modified) Copy"]);
    assert_eq!(
        demo.handle_context_action(ContextAction::Delete(4)),
        Err(StoreError::IndexOutOfBounds)
    );
}

#[test]
fn drop_on_self_requests_nothing() {
    let mut pass = Pass::new();
    pass.on_drop(Some(2), 2);
    pass.on_drop(None, 1);
    assert_eq!(pass.swap_request, None);
    pass.on_drop(Some(0), 3);
    assert_eq!(pass.swap_request, Some((0, 3)));
    pass.on_drop(Some(1), 1);
    assert_eq!(pass.swap_request, Some((0, 3)));
}

#[test]
fn last_menu_choice_wins() {
    let mut pass = Pass::new();
    pass.on_menu(Some(ContextAction::Rename(0)));
    pass.on_menu(None);
    pass.on_menu(Some(ContextAction::Delete(2)));
    pass.on_menu(None);
    assert_eq!(pass.context_action, Some(ContextAction::Delete(2)));
    assert_eq!(pass.swap_request, None);
}

#[test]
fn apply_pass_swaps_then_acts() {
    let mut demo = DragDropDemo::new();
    let mut pass = Pass::new();
    pass.on_drop(Some(0), 3);
    pass.on_menu(Some(ContextAction::Rename(0)));
    assert_eq!(demo.apply_pass(pass), Ok(()));
    assert_eq!(names(&demo), vec!["Yellow Item (Modified)", "Blue Item", "Green Item", "Red Item"]);
}

#[test]
fn apply_empty_pass_changes_nothing() {
    let mut demo = DragDropDemo::new();
    assert_eq!(demo.apply_pass(Pass::new()), Ok(()));
    assert_eq!(names(&demo), names(&DragDropDemo::new()));
}

#[test]
fn apply_pass_stops_at_bad_index() {
    let mut demo = DragDropDemo::new();
    let mut pass = Pass::new();
    pass.on_drop(Some(7), 0);
    pass.on_menu(Some(ContextAction::Delete(0)));
    assert_eq!(demo.apply_pass(pass), Err(StoreError::IndexOutOfBounds));
    assert_eq!(demo.len(), 4);

    let mut pass = Pass::new();
    pass.on_drop(Some(1), 0);
    pass.on_menu(Some(ContextAction::Delete(9)));
    assert_eq!(demo.apply_pass(pass), Err(StoreError::IndexOutOfBounds));
    assert_eq!(names(&demo), vec!["Blue Item", "Red Item", "Green Item", "Yellow Item"]);
}
