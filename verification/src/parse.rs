//! The configuration-grammar parser: statements of the unconditional grammar
//! (`default ...`, special visibilities, `except ...`) and of the conditional
//! grammar (a single optional modifier with an optional fallback clause).

pub mod all;
pub mod arg;
pub mod cfg;
pub mod modifier;
pub mod module_type;
pub mod priv_vis;
