//! A tree of production groups and buildings, edited through immutable,
//! path-addressed replacements that travel from the edited node up to the
//! root, together with the editable name field and icon resolution used to
//! show it.

pub mod group_name;
pub mod icon;
pub mod node;
pub mod node_display;
