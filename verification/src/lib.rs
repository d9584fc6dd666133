//! ClipSync: the decisions of a clipboard-sync desktop application and of the
//! two attribute macros that connect its web page to its backend, each stated
//! as a contract and proved.
//!
//! - `greeting`: the backend's commands.
//! - `tray`, `scaffold`: the desktop shell's menu, tray, window and exit decisions.
//! - `panel`: the state behind the web page's connection panel.
//! - `model`, `command`, `invoke`: the code that `#[command]` and `#[invoke]` generate.
//! - `text`: joining and comparing texts.

use vstd::prelude::*;

pub mod command;
pub mod greeting;
pub mod invoke;
pub mod model;
pub mod panel;
pub mod scaffold;
pub mod syntax;
pub mod text;
pub mod tray;

verus! {

} // verus!
