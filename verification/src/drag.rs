//! Dragging items between inventory slots and equipment slots.
//!
//! Inventory slots are named by their index in the inventory; equipment
//! slots by their index in the fixed order of the equipment slot names.
use vstd::prelude::*;

use crate::menu::Interaction;
use crate::search::{first_match, lemma_first_match_at, lemma_first_match_bounds, lemma_first_match_index, lemma_first_match_sound};

verus! {

/// What is being dragged.
#[derive(Clone, Copy, Debug, PartialEq, Eq, Structural)]
pub enum Dragging {
    /// Nothing is being dragged.
    Idle,
    /// The item in this inventory slot is being dragged.
    InventorySlot(usize),
    /// The item in this equipment slot is being dragged.
    EquipmentSlot(usize),
}

/// A slot under the pointer at the moment of a drop.
#[derive(Clone, Copy, Debug, PartialEq, Eq, Structural)]
pub struct SlotHover {
    /// The slot's index.
    pub slot: usize,
    /// Whether the pointer is over the slot.
    pub mouse_over: bool,
    /// Whether the dragged item may be equipped through this slot: for an
    /// equipment slot, whether the dragged inventory item is equipable there;
    /// for an inventory slot, whether that slot's item is equipable in the
    /// dragged equipment slot.
    pub accepts: bool,
}

/// What a drop does to the inventory.
#[derive(Clone, Copy, Debug, PartialEq, Eq, Structural)]
pub enum DropAction {
    /// Nothing changes.
    Nothing,
    /// Inventory slot `from` is merged into or swapped with inventory slot `to`.
    MergeSwap { from: usize, to: usize },
    /// The item of inventory slot `slot` is exchanged with that of equipment
    /// slot `equipment`.
    Equip { slot: usize, equipment: usize },
    /// Equipment slots `hovered` and `dragged` exchange their items.
    SwapEquipment { hovered: usize, dragged: usize },
}

/// The outcome of releasing the drag button.
#[derive(Clone, Copy, Debug, PartialEq, Eq, Structural)]
pub struct DragRelease {
    pub action: DropAction,
    /// Whether an "inventory changed" notice is sent.
    pub inventory_changed: bool,
    /// The drag state after the release.
    pub next_drag: Dragging,
}

/// The condition on a slot: the pointer is over it and, where `must_accept`,
/// it accepts the dragged item.
pub open spec fn hover_pred(must_accept: bool) -> spec_fn(SlotHover) -> bool {
    |h: SlotHover| h.mouse_over && (!must_accept || h.accepts)
}

/// The index of the first slot that satisfies `hover_pred(must_accept)`.
pub open spec fn first_hovered(slots: Seq<SlotHover>, must_accept: bool) -> Option<usize> {
    match first_match(slots, hover_pred(must_accept)) {
        Some(h) => Some(h.slot),
        None => None,
    }
}

/// Whether slot entry `i` is under the pointer and, where `must_accept`,
/// accepts the dragged item.
pub open spec fn hovered_at(slots: Seq<SlotHover>, i: int, must_accept: bool) -> bool {
    slots[i].mouse_over && (!must_accept || slots[i].accepts)
}

/// Whether `k` is the slot of the first entry that is under the pointer (and
/// accepts the dragged item, where `must_accept`).
pub open spec fn is_first_hovered(slots: Seq<SlotHover>, k: usize, must_accept: bool) -> bool {
    exists|i: int|
        0 <= i < slots.len() && #[trigger] slots[i].slot == k && hovered_at(slots, i, must_accept) && (forall|j: int|
            0 <= j < i ==> !hovered_at(slots, j, must_accept))
}

/// Whether no entry is under the pointer (and accepts, where `must_accept`).
pub open spec fn none_hovered(slots: Seq<SlotHover>, must_accept: bool) -> bool {
    forall|i: int| 0 <= i < slots.len() ==> !hovered_at(slots, i, must_accept)
}

/// The search for a hovered slot finds nothing exactly when no slot is under
/// the pointer (and accepts), and otherwise finds the first such slot.
pub proof fn lemma_first_hovered_index(slots: Seq<SlotHover>, must_accept: bool)
    ensures
        first_hovered(slots, must_accept) is None <==> none_hovered(slots, must_accept),
        first_hovered(slots, must_accept) matches Some(k) ==> is_first_hovered(slots, k, must_accept),
{
    lemma_first_match_index(slots, hover_pred(must_accept));
    if first_hovered(slots, must_accept) is None {
        assert forall|i: int| 0 <= i < slots.len() implies !hovered_at(slots, i, must_accept) by {
            assert(!hover_pred(must_accept)(slots[i]));
        }
    }
    if none_hovered(slots, must_accept) {
        assert forall|i: int| 0 <= i < slots.len() implies !hover_pred(must_accept)(#[trigger] slots[i]) by {
            assert(!hovered_at(slots, i, must_accept));
        }
    }
    if first_hovered(slots, must_accept) is Some {
        let h = first_match(slots, hover_pred(must_accept))->0;
        let i = choose|i: int|
            0 <= i < slots.len() && #[trigger] slots[i] == h && hover_pred(must_accept)(slots[i]) && (forall|j: int|
                0 <= j < i ==> !hover_pred(must_accept)(#[trigger] slots[j]));
        assert forall|j: int| 0 <= j < i implies !hovered_at(slots, j, must_accept) by {
            assert(!hover_pred(must_accept)(slots[j]));
        }
        assert(slots[i].slot == h.slot);
    }
}

/// Finds the first slot under the pointer, among those that accept the
/// dragged item where `must_accept`.
pub fn first_hovered_slot(slots: &Vec<SlotHover>, must_accept: bool) -> (res: Option<usize>)
    ensures
        res == first_hovered(slots@, must_accept),
        res is None <==> none_hovered(slots@, must_accept),
        res matches Some(k) ==> is_first_hovered(slots@, k, must_accept),
{
    proof {
        lemma_first_hovered_index(slots@, must_accept);
    }
    proof {
        lemma_first_match_bounds(slots@, hover_pred(must_accept));
    }
    let mut i: usize = 0;
    while i < slots.len()
        invariant
            i <= slots.len(),
            first_match(slots@, hover_pred(must_accept)) == first_match(slots@.skip(i as int), hover_pred(must_accept)),
        decreases slots.len() - i,
    {
        proof {
            lemma_first_match_at(slots@, hover_pred(must_accept), i as int);
        }
        let h = slots[i];
        if h.mouse_over && (!must_accept || h.accepts) {
            proof {
                lemma_first_hovered_index(slots@, must_accept);
            }
            return Some(h.slot);
        }
        i = i + 1;
    }
    proof {
        lemma_first_hovered_index(slots@, must_accept);
    }
    None
}

/// The condition on a slot button: it is pressed.
pub open spec fn pressed() -> spec_fn((usize, Interaction)) -> bool {
    |b: (usize, Interaction)| b.1 == Interaction::Pressed
}

/// The first pressed slot button.
pub open spec fn first_pressed(buttons: Seq<(usize, Interaction)>) -> Option<usize> {
    match first_match(buttons, pressed()) {
        Some(b) => Some(b.0),
        None => None,
    }
}

/// Whether `s` is the slot of the first pressed button.
pub open spec fn is_first_pressed(buttons: Seq<(usize, Interaction)>, s: usize) -> bool {
    exists|i: int|
        0 <= i < buttons.len() && #[trigger] buttons[i] == (s, Interaction::Pressed) && (forall|j: int|
            0 <= j < i ==> #[trigger] buttons[j].1 != Interaction::Pressed)
}

/// Whether no button is pressed.
pub open spec fn none_pressed(buttons: Seq<(usize, Interaction)>) -> bool {
    forall|i: int| 0 <= i < buttons.len() ==> #[trigger] buttons[i].1 != Interaction::Pressed
}

/// The search for a pressed button finds nothing exactly when no button is
/// pressed, and otherwise finds the slot of the first pressed button.
pub proof fn lemma_first_pressed_index(buttons: Seq<(usize, Interaction)>)
    ensures
        first_pressed(buttons) is None <==> none_pressed(buttons),
        first_pressed(buttons) matches Some(s) ==> is_first_pressed(buttons, s),
{
    lemma_first_match_index(buttons, pressed());
}

/// Finds the first pressed slot button.
pub fn first_pressed_slot(buttons: &Vec<(usize, Interaction)>) -> (res: Option<usize>)
    ensures
        res == first_pressed(buttons@),
        res is None <==> none_pressed(buttons@),
        res matches Some(s) ==> is_first_pressed(buttons@, s),
{
    proof {
        lemma_first_pressed_index(buttons@);
    }
    proof {
        lemma_first_match_bounds(buttons@, pressed());
    }
    let mut i: usize = 0;
    while i < buttons.len()
        invariant
            i <= buttons.len(),
            first_match(buttons@, pressed()) == first_match(buttons@.skip(i as int), pressed()),
        decreases buttons.len() - i,
    {
        proof {
            lemma_first_match_at(buttons@, pressed(), i as int);
        }
        let (slot, interaction) = buttons[i];
        if interaction == Interaction::Pressed {
            proof {
                lemma_first_pressed_index(buttons@);
            }
            return Some(slot);
        }
        i = i + 1;
    }
    proof {
        lemma_first_pressed_index(buttons@);
    }
    None
}

/// Starts dragging the item of the first pressed inventory slot, unless
/// something is being dragged already.
pub fn start_drag_inventory_item(drag: Dragging, slots: &Vec<(usize, Interaction)>) -> (res: Option<Dragging>)
    ensures
        (drag != Dragging::Idle || none_pressed(slots@)) ==> res is None,
        drag == Dragging::Idle && !none_pressed(slots@) ==> res is Some,
        res matches Some(d) ==> d matches Dragging::InventorySlot(s) && is_first_pressed(slots@, s),
        res == (if drag == Dragging::Idle {
            match first_pressed(slots@) {
                Some(s) => Some(Dragging::InventorySlot(s)),
                None => None,
            }
        } else {
            None
        }),
{
    if drag != Dragging::Idle {
        return None;
    }
    match first_pressed_slot(slots) {
        Some(s) => Some(Dragging::InventorySlot(s)),
        None => None,
    }
}

/// Starts dragging the item of the first pressed equipment slot, unless
/// something is being dragged already.
pub fn start_drag_equipment_item(drag: Dragging, slots: &Vec<(usize, Interaction)>) -> (res: Option<Dragging>)
    ensures
        (drag != Dragging::Idle || none_pressed(slots@)) ==> res is None,
        drag == Dragging::Idle && !none_pressed(slots@) ==> res is Some,
        res matches Some(d) ==> d matches Dragging::EquipmentSlot(s) && is_first_pressed(slots@, s),
        res == (if drag == Dragging::Idle {
            match first_pressed(slots@) {
                Some(s) => Some(Dragging::EquipmentSlot(s)),
                None => None,
            }
        } else {
            None
        }),
{
    if drag != Dragging::Idle {
        return None;
    }
    match first_pressed_slot(slots) {
        Some(s) => Some(Dragging::EquipmentSlot(s)),
        None => None,
    }
}

/// What dropping the dragged item does: a drop on an inventory slot (for an
/// inventory item) or on an equipment slot (for equipment) exchanges the two;
/// otherwise a drop on a slot of the other kind that accepts the item equips
/// it. A dragged inventory slot that is empty equips nothing.
pub open spec fn drop_action(
    drag: Dragging,
    inventory_slots: Seq<SlotHover>,
    equipment_slots: Seq<SlotHover>,
    dragged_item_present: bool,
) -> DropAction {
    match drag {
        Dragging::Idle => DropAction::Nothing,
        Dragging::InventorySlot(i) => match first_hovered(inventory_slots, false) {
            Some(j) => DropAction::MergeSwap { from: i, to: j },
            None => if dragged_item_present {
                match first_hovered(equipment_slots, true) {
                    Some(e) => DropAction::Equip { slot: i, equipment: e },
                    None => DropAction::Nothing,
                }
            } else {
                DropAction::Nothing
            },
        },
        Dragging::EquipmentSlot(n) => match first_hovered(equipment_slots, false) {
            Some(m) => DropAction::SwapEquipment { hovered: m, dragged: n },
            None => match first_hovered(inventory_slots, true) {
                Some(s) => DropAction::Equip { slot: s, equipment: n },
                None => DropAction::Nothing,
            },
        },
    }
}

/// What a drop does, described by the slots under the pointer:
/// - nothing, exactly when nothing is dragged, or an inventory item is
///   dropped over no inventory slot and (for an empty dragged slot, or over
///   no accepting equipment slot), or an equipment item is dropped over no
///   equipment slot and over no accepting inventory slot;
/// - a merge or swap of the dragged inventory slot with the first inventory
///   slot under the pointer;
/// - equipping the dragged inventory item through the first accepting
///   equipment slot under the pointer, when no inventory slot is under it;
/// - equipping through the first accepting inventory slot under the pointer
///   into the dragged equipment slot, when no equipment slot is under it;
/// - swapping the dragged equipment slot with the first equipment slot under
///   the pointer.
pub open spec fn drop_explained(
    drag: Dragging,
    inv: Seq<SlotHover>,
    eq: Seq<SlotHover>,
    present: bool,
    a: DropAction,
) -> bool {
    &&& (a == DropAction::Nothing) <==> (drag == Dragging::Idle || (drag is InventorySlot && none_hovered(inv, false)
        && (!present || none_hovered(eq, true))) || (drag is EquipmentSlot && none_hovered(eq, false)
        && none_hovered(inv, true)))
    &&& a matches DropAction::MergeSwap { from, to } ==> drag == Dragging::InventorySlot(from) && is_first_hovered(
        inv,
        to,
        false,
    )
    &&& a matches DropAction::Equip { slot, equipment } ==> (drag == Dragging::InventorySlot(slot) && present
        && none_hovered(inv, false) && is_first_hovered(eq, equipment, true)) || (drag == Dragging::EquipmentSlot(
        equipment,
    ) && none_hovered(eq, false) && is_first_hovered(inv, slot, true))
    &&& a matches DropAction::SwapEquipment { hovered, dragged } ==> drag == Dragging::EquipmentSlot(dragged)
        && is_first_hovered(eq, hovered, false)
}

/// Every drop does what the slots under the pointer call for (see
/// `drop_explained`).
pub proof fn lemma_drop_action_explained(
    drag: Dragging,
    inventory_slots: Seq<SlotHover>,
    equipment_slots: Seq<SlotHover>,
    dragged_item_present: bool,
)
    ensures
        drop_explained(
            drag,
            inventory_slots,
            equipment_slots,
            dragged_item_present,
            drop_action(drag, inventory_slots, equipment_slots, dragged_item_present),
        ),
{
    lemma_first_hovered_index(inventory_slots, false);
    lemma_first_hovered_index(inventory_slots, true);
    lemma_first_hovered_index(equipment_slots, false);
    lemma_first_hovered_index(equipment_slots, true);
}

/// Decides what releasing the drag button does. `dragged_item_present` tells
/// whether the dragged inventory slot holds an item. Nothing happens unless
/// the button was just released; a release always ends the drag.
pub fn stop_drag_item(
    released: bool,
    drag: Dragging,
    inventory_slots: &Vec<SlotHover>,
    equipment_slots: &Vec<SlotHover>,
    dragged_item_present: bool,
) -> (res: Option<DragRelease>)
    ensures
        !released ==> res is None,
        released ==> res == Some(
            DragRelease {
                action: drop_action(drag, inventory_slots@, equipment_slots@, dragged_item_present),
                inventory_changed: drop_action(drag, inventory_slots@, equipment_slots@, dragged_item_present)
                    != DropAction::Nothing,
                next_drag: Dragging::Idle,
            },
        ),
        res matches Some(r) ==> drop_explained(drag, inventory_slots@, equipment_slots@, dragged_item_present, r.action)
            && r.inventory_changed == (r.action != DropAction::Nothing) && r.next_drag == Dragging::Idle,
{
    proof {
        lemma_drop_action_explained(drag, inventory_slots@, equipment_slots@, dragged_item_present);
    }
    if !released {
        return None;
    }
    let action = match drag {
        Dragging::Idle => DropAction::Nothing,
        Dragging::InventorySlot(i) => match first_hovered_slot(inventory_slots, false) {
            Some(j) => DropAction::MergeSwap { from: i, to: j },
            None => {
                if dragged_item_present {
                    match first_hovered_slot(equipment_slots, true) {
                        Some(e) => DropAction::Equip { slot: i, equipment: e },
                        None => DropAction::Nothing,
                    }
                } else {
                    DropAction::Nothing
                }
            },
        },
        Dragging::EquipmentSlot(n) => match first_hovered_slot(equipment_slots, false) {
            Some(m) => DropAction::SwapEquipment { hovered: m, dragged: n },
            None => match first_hovered_slot(inventory_slots, true) {
                Some(s) => DropAction::Equip { slot: s, equipment: n },
                None => DropAction::Nothing,
            },
        },
    };
    let inventory_changed = action != DropAction::Nothing;
    Some(DragRelease { action, inventory_changed, next_drag: Dragging::Idle })
}

/// A drop only ever moves the dragged item: every action involves the
/// dragged slot.
pub proof fn lemma_drop_involves_dragged_slot(
    drag: Dragging,
    inventory_slots: Seq<SlotHover>,
    equipment_slots: Seq<SlotHover>,
    dragged_item_present: bool,
)
    ensures
        ({
            let a = drop_action(drag, inventory_slots, equipment_slots, dragged_item_present);
            &&& drag == Dragging::Idle ==> a == DropAction::Nothing
            &&& drag matches Dragging::InventorySlot(i) ==> (a matches DropAction::MergeSwap { from, .. } && from
                == i) || (a matches DropAction::Equip { slot, .. } && slot == i) || a == DropAction::Nothing
            &&& drag matches Dragging::EquipmentSlot(n) ==> (a matches DropAction::SwapEquipment { dragged, .. }
                && dragged == n) || (a matches DropAction::Equip { equipment, .. } && equipment == n) || a
                == DropAction::Nothing
        }),
{
}

/// An item is only equipped through a slot that is under the pointer and
/// accepts it.
pub proof fn lemma_equip_only_where_accepted(
    drag: Dragging,
    inventory_slots: Seq<SlotHover>,
    equipment_slots: Seq<SlotHover>,
    dragged_item_present: bool,
)
    ensures
        ({
            let a = drop_action(drag, inventory_slots, equipment_slots, dragged_item_present);
            &&& drag is InventorySlot && a is Equip ==> dragged_item_present && exists|k: int|
                0 <= k < equipment_slots.len() && #[trigger] equipment_slots[k].slot == a->equipment
                    && equipment_slots[k].mouse_over && equipment_slots[k].accepts
            &&& drag is EquipmentSlot && a is Equip ==> exists|k: int|
                0 <= k < inventory_slots.len() && #[trigger] inventory_slots[k].slot == a->slot
                    && inventory_slots[k].mouse_over && inventory_slots[k].accepts
        }),
{
    lemma_first_match_sound(equipment_slots, hover_pred(true));
    lemma_first_match_sound(inventory_slots, hover_pred(true));
    let a = drop_action(drag, inventory_slots, equipment_slots, dragged_item_present);
    if drag is InventorySlot && a is Equip {
        let h = first_match(equipment_slots, hover_pred(true))->0;
        let k = choose|k: int| 0 <= k < equipment_slots.len() && equipment_slots[k] == h;
        assert(equipment_slots[k].slot == a->equipment);
    }
    if drag is EquipmentSlot && a is Equip {
        let h = first_match(inventory_slots, hover_pred(true))->0;
        let k = choose|k: int| 0 <= k < inventory_slots.len() && inventory_slots[k] == h;
        assert(inventory_slots[k].slot == a->slot);
    }
}

/// What happens to the image that follows the cursor during a drag.
#[derive(Clone, Copy, Debug, PartialEq, Eq, Structural)]
pub enum FollowerUpdate {
    /// Nothing changes.
    Keep,
    /// An image of the dragged item starts following the cursor.
    Spawn,
    /// Every image following the cursor is removed.
    DespawnAll,
}

/// Decides the cursor follower after the drag state changed (`drag_changed`):
/// a drag of an item shows its image, the end of a drag removes the images.
pub fn update_item_image_cursor_follower(
    drag_changed: bool,
    drag: Dragging,
    dragged_item_present: bool,
) -> (res: FollowerUpdate)
    ensures
        res == (if !drag_changed {
            FollowerUpdate::Keep
        } else if drag == Dragging::Idle {
            FollowerUpdate::DespawnAll
        } else if dragged_item_present {
            FollowerUpdate::Spawn
        } else {
            FollowerUpdate::Keep
        }),
{
    if !drag_changed {
        return FollowerUpdate::Keep;
    }
    match drag {
        Dragging::Idle => FollowerUpdate::DespawnAll,
        _ => if dragged_item_present {
            FollowerUpdate::Spawn
        } else {
            FollowerUpdate::Keep
        },
    }
}

/// The inventory slot whose item is used: the first one under the pointer
/// when the use button was just released.
pub fn use_inventory_item(released: bool, slots: &Vec<SlotHover>) -> (res: Option<usize>)
    ensures
        (!released || none_hovered(slots@, false)) <==> res is None,
        res matches Some(k) ==> is_first_hovered(slots@, k, false),
        res == (if released { first_hovered(slots@, false) } else { None }),
{
    if !released {
        return None;
    }
    first_hovered_slot(slots, false)
}

} // verus!
