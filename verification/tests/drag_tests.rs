use dungeon_maze::drag::{
    first_hovered_slot, first_pressed_slot, start_drag_equipment_item, start_drag_inventory_item, stop_drag_item,
    update_item_image_cursor_follower, use_inventory_item, DropAction, Dragging, FollowerUpdate, SlotHover,
};
use dungeon_maze::menu::Interaction;

fn h(slot: usize, mouse_over: bool, accepts: bool) -> SlotHover {
    SlotHover { slot, mouse_over, accepts }
}

#[test]
fn start_drag_from_idle() {
    let slots = vec![(0, Interaction::Hovered), (4, Interaction::Pressed), (5, Interaction::Pressed)];
    assert_eq!(start_drag_inventory_item(Dragging::Idle, &slots), Some(Dragging::InventorySlot(4)));
    assert_eq!(start_drag_equipment_item(Dragging::Idle, &slots), Some(Dragging::EquipmentSlot(4)));
    assert_eq!(first_pressed_slot(&slots), Some(4));
}

#[test]
fn start_drag_never_replaces_a_drag() {
    let slots = vec![(4, Interaction::Pressed)];
    assert_eq!(start_drag_inventory_item(Dragging::EquipmentSlot(1), &slots), None);
    assert_eq!(start_drag_equipment_item(Dragging::InventorySlot(1), &slots), None);
    assert_eq!(start_drag_inventory_item(Dragging::Idle, &vec![(4, Interaction::Hovered)]), None);
}

#[test]
fn no_release_no_change() {
    assert_eq!(stop_drag_item(false, Dragging::InventorySlot(0), &vec![h(1, true, false)], &Vec::new(), true), None);
}

#[test]
fn release_on_inventory_slot_swaps() {
    let r = stop_drag_item(true, Dragging::InventorySlot(0), &vec![h(1, false, false), h(3, true, false)], &vec![h(0, true, true)], true).unwrap();
    assert_eq!(r.action, DropAction::MergeSwap { from: 0, to: 3 });
    assert!(r.inventory_changed);
    assert_eq!(r.next_drag, Dragging::Idle);
}

#[test]
fn release_on_accepting_equipment_slot_equips() {
    let r = stop_drag_item(true, Dragging::InventorySlot(2), &vec![h(1, false, false)], &vec![h(0, true, false), h(1, true, true)], true).unwrap();
    assert_eq!(r.action, DropAction::Equip { slot: 2, equipment: 1 });
    assert!(r.inventory_changed);
}

#[test]
fn release_empty_inventory_slot_equips_nothing() {
    let r = stop_drag_item(true, Dragging::InventorySlot(2), &Vec::new(), &vec![h(1, true, true)], false).unwrap();
    assert_eq!(r.action, DropAction::Nothing);
    assert!(!r.inventory_changed);
    assert_eq!(r.next_drag, Dragging::Idle);
}

#[test]
fn release_equipment_on_equipment_swaps() {
    let r = stop_drag_item(true, Dragging::EquipmentSlot(1), &vec![h(0, true, true)], &vec![h(2, true, false)], false).unwrap();
    assert_eq!(r.action, DropAction::SwapEquipment { hovered: 2, dragged: 1 });
}

#[test]
fn release_equipment_on_accepting_inventory_slot() {
    let r = stop_drag_item(true, Dragging::EquipmentSlot(1), &vec![h(0, true, false), h(6, true, true)], &vec![h(2, false, false)], false).unwrap();
    assert_eq!(r.action, DropAction::Equip { slot: 6, equipment: 1 });
    let r = stop_drag_item(true, Dragging::EquipmentSlot(1), &vec![h(0, true, false)], &Vec::new(), false).unwrap();
    assert_eq!(r.action, DropAction::Nothing);
}

#[test]
fn release_while_idle() {
    let r = stop_drag_item(true, Dragging::Idle, &vec![h(0, true, true)], &vec![h(0, true, true)], true).unwrap();
    assert_eq!(r.action, DropAction::Nothing);
    assert!(!r.inventory_changed);
}

#[test]
fn hovered_slots() {
    let slots = vec![h(0, false, true), h(1, true, false), h(2, true, true)];
    assert_eq!(first_hovered_slot(&slots, false), Some(1));
    assert_eq!(first_hovered_slot(&slots, true), Some(2));
    assert_eq!(first_hovered_slot(&Vec::new(), false), None);
}

#[test]
fn cursor_follower() {
    assert_eq!(update_item_image_cursor_follower(false, Dragging::Idle, false), FollowerUpdate::Keep);
    assert_eq!(update_item_image_cursor_follower(true, Dragging::Idle, false), FollowerUpdate::DespawnAll);
    assert_eq!(update_item_image_cursor_follower(true, Dragging::InventorySlot(1), true), FollowerUpdate::Spawn);
    assert_eq!(update_item_image_cursor_follower(true, Dragging::EquipmentSlot(1), false), FollowerUpdate::Keep);
}

#[test]
fn use_item_under_pointer() {
    let slots = vec![h(0, false, false), h(5, true, false)];
    assert_eq!(use_inventory_item(true, &slots), Some(5));
    assert_eq!(use_inventory_item(false, &slots), None);
}
