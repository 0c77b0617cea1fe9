use vstd::prelude::*;

pub mod text;
pub mod id_set;
pub mod collab;
pub mod recents;
pub mod frame_order;
pub mod frame_selection;
pub mod layers;
pub mod assets;
pub mod panels;
pub mod framebar;
pub mod paths;
pub mod splash;
pub mod names;
pub mod scene;
pub mod properties;
pub mod decimal;
pub mod rename;
pub mod render;
pub mod header;
pub mod canvas;

verus! {

} // verus!
