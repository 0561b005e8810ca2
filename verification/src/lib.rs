//! A browser for the commands found on a search path: the catalog of names,
//! the live filter, the selection, the modal key handling and the plan of
//! each frame, all stated over mathematical models and proved.

pub mod app;
pub mod catalog;
pub mod filter;
pub mod listing;
pub mod lookup;
pub mod machine;
pub mod mode;
pub mod render;
pub mod selection;
pub mod text;
