//! The computations behind the interface: layout arithmetic, the text and
//! colours of each panel, scrolling and selection.

pub mod layout;
pub mod sidebar;
pub mod cards;
pub mod subpanels;
pub mod panels;
pub mod minimap;
