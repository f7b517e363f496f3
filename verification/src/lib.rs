//! Verified interaction logic for a library of editor UI controls: text editing, press and
//! drag state machines, menu navigation, corner masks, mesh topology and inspector rules.

pub mod colors;
pub mod controls;
pub mod decimal;
pub mod focus;
pub mod inspect;
pub mod materials;
pub mod overlays;
pub mod size;
