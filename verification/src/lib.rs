//! nbping's verified core: merging the settings of a run from the command
//! line, a YAML file and defaults; checking them; the view and theme state and
//! what keys do to it; and the integer arithmetic of the screen layout.

use vstd::prelude::*;

pub mod config;
pub mod control;
pub mod dedup;
pub mod layout;
pub mod startup;
pub mod text;
pub mod theme;
pub mod view;

verus! {

} // verus!
