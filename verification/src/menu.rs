//! The in-game menu: whether it is open, which tab it shows, the render
//! distance buttons of the settings tab, and hover-dependent visibility.
use vstd::prelude::*;

use crate::search::{first_match, lemma_first_match_at, lemma_first_match_bounds, lemma_first_match_index};

verus! {

/// A tab of the menu.
#[derive(Clone, Copy, Debug, PartialEq, Eq, Structural)]
pub enum MenuTab {
    Inventory,
    Settings,
}

/// The state of a pointer over a user interface element.
#[derive(Clone, Copy, Debug, PartialEq, Eq, Structural)]
pub enum Interaction {
    /// The element is being pressed.
    Pressed,
    /// The pointer is over the element.
    Hovered,
    /// Nothing is happening to the element.
    Idle,
}

/// Whether an element is drawn.
#[derive(Clone, Copy, Debug, PartialEq, Eq, Structural)]
pub enum Visibility {
    /// As its parent is.
    Inherited,
    Hidden,
    Visible,
}

/// How many chunks are rendered around the player along each axis.
#[derive(Clone, Copy, Debug, PartialEq, Eq, Structural)]
pub struct ChunkRenderDist(pub u32, pub u32, pub u32);

/// The tabs of the menu, in the order in which they are shown.
pub fn menu_tabs() -> (res: Vec<MenuTab>)
    ensures
        res@ == seq![MenuTab::Inventory, MenuTab::Settings],
{
    let mut res: Vec<MenuTab> = Vec::new();
    res.push(MenuTab::Inventory);
    res.push(MenuTab::Settings);
    res
}

/// Whether the menu's open state is to be set, and to what: the menu key
/// flips it.
pub fn toggle_menu_open(menu_key_just_pressed: bool, open: bool) -> (res: Option<bool>)
    ensures
        res == (if menu_key_just_pressed { Some(!open) } else { None }),
{
    if menu_key_just_pressed {
        Some(!open)
    } else {
        None
    }
}

/// The open state after the menu key was handled once.
pub open spec fn open_after(menu_key_just_pressed: bool, open: bool) -> bool {
    if menu_key_just_pressed { !open } else { open }
}

/// Pressing the menu key twice leaves the menu as it was.
pub proof fn lemma_toggle_twice(open: bool)
    ensures
        open_after(true, open_after(true, open)) == open,
        open_after(true, open) != open,
{
}

/// The condition on a tab button: it is pressed and is not the active tab.
pub open spec fn pressed_other_tab(active: MenuTab) -> spec_fn((MenuTab, Interaction)) -> bool {
    |b: (MenuTab, Interaction)| b.1 == Interaction::Pressed && b.0 != active
}

/// The tab to switch to: that of the first pressed tab button that is not
/// the active tab.
pub open spec fn next_tab(active: MenuTab, buttons: Seq<(MenuTab, Interaction)>) -> Option<MenuTab> {
    match first_match(buttons, pressed_other_tab(active)) {
        Some(b) => Some(b.0),
        None => None,
    }
}

/// Decides the active tab from the tab buttons and their interactions.
pub fn change_active_menu_tab(active: MenuTab, buttons: &Vec<(MenuTab, Interaction)>) -> (res: Option<MenuTab>)
    ensures
        res == next_tab(active, buttons@),
        res is None <==> (forall|i: int|
            0 <= i < buttons.len() ==> !(#[trigger] buttons@[i].1 == Interaction::Pressed && buttons@[i].0 != active)),
        res matches Some(t) ==> exists|i: int|
            0 <= i < buttons.len() && #[trigger] buttons@[i] == (t, Interaction::Pressed) && t != active && (forall|j: int|
                0 <= j < i ==> !(#[trigger] buttons@[j].1 == Interaction::Pressed && buttons@[j].0 != active)),
{
    proof {
        lemma_first_match_bounds(buttons@, pressed_other_tab(active));
    }
    let mut i: usize = 0;
    while i < buttons.len()
        invariant
            i <= buttons.len(),
            first_match(buttons@, pressed_other_tab(active)) == first_match(buttons@.skip(i as int), pressed_other_tab(active)),
        decreases buttons.len() - i,
    {
        proof {
            lemma_first_match_at(buttons@, pressed_other_tab(active), i as int);
        }
        let (tab, interaction) = buttons[i];
        if interaction == Interaction::Pressed {
            if tab != active {
                proof {
                    lemma_tab_switch_needs_press(active, buttons@);
                }
                return Some(tab);
            }
        }
        i = i + 1;
    }
    proof {
        lemma_tab_switch_needs_press(active, buttons@);
    }
    None
}

/// The active tab changes only on a press: with no pressed button of another
/// tab there is no switch, and a switch goes to the tab of the first pressed
/// button whose tab is not the active one.
pub proof fn lemma_tab_switch_needs_press(active: MenuTab, buttons: Seq<(MenuTab, Interaction)>)
    ensures
        next_tab(active, buttons) is None <==> (forall|i: int|
            0 <= i < buttons.len() ==> !(#[trigger] buttons[i].1 == Interaction::Pressed && buttons[i].0 != active)),
        next_tab(active, buttons) matches Some(t) ==> exists|i: int|
            0 <= i < buttons.len() && #[trigger] buttons[i] == (t, Interaction::Pressed) && t != active && (forall|j: int|
                0 <= j < i ==> !(#[trigger] buttons[j].1 == Interaction::Pressed && buttons[j].0 != active)),
{
    lemma_first_match_index(buttons, pressed_other_tab(active));
}

/// A tab switch always leads to another tab than the active one.
pub proof fn lemma_tab_switch_changes_tab(active: MenuTab, buttons: Seq<(MenuTab, Interaction)>)
    ensures
        next_tab(active, buttons) matches Some(t) ==> t != active,
{
    crate::search::lemma_first_match_sound(buttons, pressed_other_tab(active));
}

/// Whether a tab button is shown as the active one.
pub fn is_active_tab(tab: MenuTab, active: MenuTab) -> (res: bool)
    ensures
        res == (tab == active),
{
    tab == active
}

/// Whether an inventory slot shows how many of its item it holds: only for
/// a stack of more than one.
pub fn shows_item_amount(amount: u32) -> (res: bool)
    ensures
        res == (amount > 1),
{
    amount > 1
}

/// Whether every axis of a render distance equals `d`.
pub open spec fn uniform_at(rd: ChunkRenderDist, d: u32) -> bool {
    rd.0 == d && rd.1 == d && rd.2 == d
}

/// The condition on a render distance button: it is pressed and the render
/// distance is not already that button's on every axis.
pub open spec fn pressed_new_dist(current: ChunkRenderDist) -> spec_fn((u32, Interaction)) -> bool {
    |b: (u32, Interaction)| b.1 == Interaction::Pressed && !uniform_at(current, b.0)
}

/// The render distance to set: that of the first pressed button that would
/// change it, on all three axes.
pub open spec fn next_render_dist(current: ChunkRenderDist, buttons: Seq<(u32, Interaction)>) -> Option<ChunkRenderDist> {
    match first_match(buttons, pressed_new_dist(current)) {
        Some(b) => Some(ChunkRenderDist(b.0, b.0, b.0)),
        None => None,
    }
}

/// Decides the render distance from the render distance buttons and their
/// interactions. A change also sends a "render distance changed" notice.
pub fn change_render_dist(current: ChunkRenderDist, buttons: &Vec<(u32, Interaction)>) -> (res: Option<ChunkRenderDist>)
    ensures
        res == next_render_dist(current, buttons@),
        res is None <==> (forall|i: int|
            0 <= i < buttons.len() ==> !(#[trigger] buttons@[i].1 == Interaction::Pressed && !(buttons@[i].0
                == current.0 && buttons@[i].0 == current.1 && buttons@[i].0 == current.2))),
        res matches Some(rd) ==> exists|i: int|
            0 <= i < buttons.len() && #[trigger] buttons@[i] == (rd.0, Interaction::Pressed) && rd == ChunkRenderDist(
                rd.0,
                rd.0,
                rd.0,
            ) && rd != current && (forall|j: int|
                0 <= j < i ==> !(#[trigger] buttons@[j].1 == Interaction::Pressed && !(buttons@[j].0 == current.0
                    && buttons@[j].0 == current.1 && buttons@[j].0 == current.2))),
{
    proof {
        lemma_first_match_bounds(buttons@, pressed_new_dist(current));
    }
    let mut i: usize = 0;
    while i < buttons.len()
        invariant
            i <= buttons.len(),
            first_match(buttons@, pressed_new_dist(current)) == first_match(buttons@.skip(i as int), pressed_new_dist(current)),
        decreases buttons.len() - i,
    {
        proof {
            lemma_first_match_at(buttons@, pressed_new_dist(current), i as int);
        }
        let (d, interaction) = buttons[i];
        let rd_does_match = d == current.0 && d == current.1 && d == current.2;
        if interaction == Interaction::Pressed && !rd_does_match {
            proof {
                lemma_render_dist_needs_press(current, buttons@);
            }
            return Some(ChunkRenderDist(d, d, d));
        }
        i = i + 1;
    }
    proof {
        lemma_render_dist_needs_press(current, buttons@);
    }
    None
}

/// The render distance changes only on a press: with no pressed button whose
/// distance differs from the current one on some axis there is no change, and
/// a change sets, on all three axes, the distance of the first such button.
pub proof fn lemma_render_dist_needs_press(current: ChunkRenderDist, buttons: Seq<(u32, Interaction)>)
    ensures
        next_render_dist(current, buttons) is None <==> (forall|i: int|
            0 <= i < buttons.len() ==> !(#[trigger] buttons[i].1 == Interaction::Pressed && !(buttons[i].0
                == current.0 && buttons[i].0 == current.1 && buttons[i].0 == current.2))),
        next_render_dist(current, buttons) matches Some(rd) ==> exists|i: int|
            0 <= i < buttons.len() && #[trigger] buttons[i] == (rd.0, Interaction::Pressed) && rd == ChunkRenderDist(
                rd.0,
                rd.0,
                rd.0,
            ) && rd != current && (forall|j: int|
                0 <= j < i ==> !(#[trigger] buttons[j].1 == Interaction::Pressed && !(buttons[j].0 == current.0
                    && buttons[j].0 == current.1 && buttons[j].0 == current.2))),
{
    lemma_first_match_index(buttons, pressed_new_dist(current));
}

/// A render distance change sets the same distance on every axis, and always
/// a distance other than the current one.
pub proof fn lemma_render_dist_change(current: ChunkRenderDist, buttons: Seq<(u32, Interaction)>)
    ensures
        next_render_dist(current, buttons) matches Some(rd) ==> uniform_at(rd, rd.0) && rd != current,
{
    crate::search::lemma_first_match_sound(buttons, pressed_new_dist(current));
}

/// Whether the render distance button for `d` is shown as the selected one.
pub fn render_dist_button_selected(d: u32, current: ChunkRenderDist) -> (res: bool)
    ensures
        res == (d == current.0),
{
    d == current.0
}

/// The largest render distance the settings tab offers.
pub const MAX_RENDER_DIST: u32 = 5;

/// The render distance buttons of the settings tab, from 0 up to
/// `MAX_RENDER_DIST`, each with whether it is shown as selected.
pub fn render_dist_options(current: ChunkRenderDist) -> (res: Vec<(u32, bool)>)
    ensures
        res.len() == MAX_RENDER_DIST + 1,
        forall|i: int| 0 <= i < res.len() ==> #[trigger] res[i] == (i as u32, i == current.0),
{
    let mut res: Vec<(u32, bool)> = Vec::new();
    let mut d: u32 = 0;
    while d <= MAX_RENDER_DIST
        invariant
            d <= MAX_RENDER_DIST + 1,
            res.len() == d,
            forall|i: int| 0 <= i < res.len() ==> #[trigger] res[i] == (i as u32, i == current.0),
        decreases MAX_RENDER_DIST + 1 - d,
    {
        res.push((d, render_dist_button_selected(d, current)));
        d = d + 1;
    }
    res
}

/// The visibility an element that shows on its parent's hover takes, given
/// its parent's interaction: `None` where it stays as it is.
pub open spec fn hover_visibility(
    current: Visibility,
    hovered: Visibility,
    not_hovered: Visibility,
    parent: Option<Interaction>,
) -> Option<Visibility> {
    match parent {
        Some(Interaction::Hovered) => if current != hovered {
            Some(hovered)
        } else {
            None
        },
        Some(Interaction::Idle) => if current != not_hovered {
            Some(not_hovered)
        } else {
            None
        },
        _ => None,
    }
}

/// Decides the visibility of an element that shows while its parent is
/// hovered: `hovered` while the parent is hovered, `not_hovered` while
/// nothing happens to it; a pressed parent, or none, leaves it alone.
pub fn update_visible_on_parent_hover(
    current: Visibility,
    hovered: Visibility,
    not_hovered: Visibility,
    parent: Option<Interaction>,
) -> (res: Option<Visibility>)
    ensures
        res == hover_visibility(current, hovered, not_hovered, parent),
{
    match parent {
        Some(interaction) => {
            if interaction == Interaction::Hovered && current != hovered {
                Some(hovered)
            } else if interaction == Interaction::Idle && current != not_hovered {
                Some(not_hovered)
            } else {
                None
            }
        },
        None => None,
    }
}

/// A hovered parent shows the element as `hovered`, an idle parent as
/// `not_hovered`; anything else, or an element already so, is left alone.
pub proof fn lemma_hover_visibility_follows_parent(
    current: Visibility,
    hovered: Visibility,
    not_hovered: Visibility,
    parent: Option<Interaction>,
)
    ensures
        hover_visibility(current, hovered, not_hovered, parent) matches Some(v) ==> v != current && ((parent
            == Some(Interaction::Hovered) && v == hovered) || (parent == Some(Interaction::Idle) && v == not_hovered)),
        hover_visibility(current, hovered, not_hovered, parent) is None <==> ((parent == Some(Interaction::Hovered)
            ==> current == hovered) && (parent == Some(Interaction::Idle) ==> current == not_hovered)),
{
}

/// Visibility updates settle: once one is applied, the same parent
/// interaction asks for no further change.
pub proof fn lemma_hover_visibility_settles(
    current: Visibility,
    hovered: Visibility,
    not_hovered: Visibility,
    parent: Option<Interaction>,
)
    ensures
        hover_visibility(current, hovered, not_hovered, parent) matches Some(v) ==> hover_visibility(
            v,
            hovered,
            not_hovered,
            parent,
        ) is None,
{
}

} // verus!
