//! Game rules of a maze exploration game: chunk layout, interaction
//! targeting, menu state, inventory drag and drop and item effects.
pub mod layout;
pub mod maze;
pub mod search;
pub mod interaction;
pub mod menu;
pub mod drag;
pub mod items;
pub mod movement;
pub mod args;
