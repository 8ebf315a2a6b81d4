use dungeon_maze::menu::{
    change_active_menu_tab, change_render_dist, is_active_tab, menu_tabs, render_dist_button_selected,
    render_dist_options, shows_item_amount, toggle_menu_open, update_visible_on_parent_hover, ChunkRenderDist,
    Interaction, MenuTab, Visibility,
};

#[test]
fn menu_key_toggles() {
    assert_eq!(toggle_menu_open(true, false), Some(true));
    assert_eq!(toggle_menu_open(true, true), Some(false));
    assert_eq!(toggle_menu_open(false, true), None);
    let once = toggle_menu_open(true, false).unwrap();
    assert_eq!(toggle_menu_open(true, once), Some(false));
}

#[test]
fn tabs_in_order() {
    assert_eq!(menu_tabs(), vec![MenuTab::Inventory, MenuTab::Settings]);
}

#[test]
fn pressing_other_tab_switches() {
    let buttons = vec![(MenuTab::Inventory, Interaction::Pressed), (MenuTab::Settings, Interaction::Pressed)];
    assert_eq!(change_active_menu_tab(MenuTab::Inventory, &buttons), Some(MenuTab::Settings));
    assert_eq!(change_active_menu_tab(MenuTab::Settings, &buttons), Some(MenuTab::Inventory));
}

#[test]
fn hovering_or_pressing_active_tab_keeps_it() {
    let buttons = vec![(MenuTab::Inventory, Interaction::Pressed), (MenuTab::Settings, Interaction::Hovered)];
    assert_eq!(change_active_menu_tab(MenuTab::Inventory, &buttons), None);
    assert_eq!(change_active_menu_tab(MenuTab::Inventory, &Vec::new()), None);
}

#[test]
fn active_tab_highlight() {
    assert!(is_active_tab(MenuTab::Settings, MenuTab::Settings));
    assert!(!is_active_tab(MenuTab::Inventory, MenuTab::Settings));
}

#[test]
fn render_dist_first_pressed_new_value() {
    let current = ChunkRenderDist(1, 1, 1);
    let buttons = vec![(0, Interaction::Hovered), (1, Interaction::Pressed), (3, Interaction::Pressed), (4, Interaction::Pressed)];
    assert_eq!(change_render_dist(current, &buttons), Some(ChunkRenderDist(3, 3, 3)));
}

#[test]
fn render_dist_non_uniform_current_is_replaced() {
    let current = ChunkRenderDist(2, 2, 1);
    let buttons = vec![(2, Interaction::Pressed)];
    assert_eq!(change_render_dist(current, &buttons), Some(ChunkRenderDist(2, 2, 2)));
}

#[test]
fn render_dist_unchanged() {
    let current = ChunkRenderDist(2, 2, 2);
    assert_eq!(change_render_dist(current, &vec![(2, Interaction::Pressed), (3, Interaction::Idle)]), None);
}

#[test]
fn render_dist_buttons() {
    let opts = render_dist_options(ChunkRenderDist(3, 1, 1));
    assert_eq!(opts, vec![(0, false), (1, false), (2, false), (3, true), (4, false), (5, false)]);
    assert!(render_dist_button_selected(3, ChunkRenderDist(3, 0, 0)));
    assert!(!render_dist_button_selected(1, ChunkRenderDist(3, 1, 1)));
}

#[test]
fn item_amount_only_for_stacks() {
    assert!(!shows_item_amount(0));
    assert!(!shows_item_amount(1));
    assert!(shows_item_amount(2));
}

#[test]
fn hover_visibility() {
    let h = Visibility::Visible;
    let n = Visibility::Hidden;
    assert_eq!(update_visible_on_parent_hover(Visibility::Hidden, h, n, Some(Interaction::Hovered)), Some(Visibility::Visible));
    assert_eq!(update_visible_on_parent_hover(Visibility::Visible, h, n, Some(Interaction::Hovered)), None);
    assert_eq!(update_visible_on_parent_hover(Visibility::Visible, h, n, Some(Interaction::Idle)), Some(Visibility::Hidden));
    assert_eq!(update_visible_on_parent_hover(Visibility::Inherited, h, n, Some(Interaction::Pressed)), None);
    assert_eq!(update_visible_on_parent_hover(Visibility::Inherited, h, n, None), None);
}

#[test]
fn hover_visibility_settles() {
    let v = update_visible_on_parent_hover(Visibility::Inherited, Visibility::Visible, Visibility::Hidden, Some(Interaction::Idle)).unwrap();
    assert_eq!(update_visible_on_parent_hover(v, Visibility::Visible, Visibility::Hidden, Some(Interaction::Idle)), None);
}
