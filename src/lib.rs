pub mod decl;
pub mod folder;
pub mod inherit;
pub mod laws;
pub mod name_map;
pub mod select;
