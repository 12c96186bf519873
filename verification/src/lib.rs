//! Window-base layer of a native GUI toolkit: window styles, a table of
//! window handles with the data attached to them, and the creation and
//! teardown of windows, with every rule stated as a contract.
//!
//! - [`style`]: the style bits of a window and how a new window gets them.
//! - [`handle`]: handles, payloads and the events that the table reports.
//! - [`state`]: the mathematical model of the window table.
//! - [`system`]: the window table itself.
//! - [`tree`]: what holds of the window tree and of a teardown.
//! - [`collection`]: the controls of a user interface and their windows.
//! - [`base`]: creating a window from a descriptor; data attached to windows.
//! - [`teardown`]: destroying a window with everything below it.
//! - [`canvas`]: the canvas control and its builder.

pub mod base;
pub mod canvas;
pub mod collection;
pub mod error;
pub mod handle;
pub mod state;
pub mod style;
pub mod system;
pub mod teardown;
pub mod tree;

pub use crate::base::{
    base_params, create_base, free_handle_data, free_handle_data_off, get_handle_data,
    get_handle_data_off, resolve_parent, set_handle_data, set_handle_data_off, take_handle_data,
    take_handle_data_off, Ui, WindowBase,
};
pub use crate::canvas::{ExternCanvas, ExternCanvasBuilder, ExternCanvasFlags};
pub use crate::collection::ControlCollection;
pub use crate::error::NwgError;
pub use crate::handle::{ControlHandle, ControlId, Event, Handle, Icon, Payload};
pub use crate::system::{WindowParams, WindowSystem};
pub use crate::teardown::{descendants, destroy_control, free_handle, torn_handles};
