//! What the host offers to scripts when it runs inside a web page.

pub mod rune_core;
pub mod util;
