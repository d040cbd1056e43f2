//! Virtual Xbox 360 controllers on top of a ViGEmBus-compatible bus driver.
//!
//! The crate holds the controller protocol without performing any I/O: it
//! encodes the bus driver's requests, reads its replies and decides, step by
//! step, what to do next. The code that owns the operating-system handles
//! performs each requested [`Action`] and reports how it went.

pub mod wire;
pub mod xbuttons;
pub mod report;
pub mod error;
pub mod protocol;
pub mod paths;
pub mod action;
pub mod bus;
pub mod target;
pub mod device;

pub use action::Action;
pub use bus::{BusSearch, BusStep, GamepadBus};
pub use device::{AllunoGamepad, GamepadSetup, SetupStep};
pub use error::Error;
pub use protocol::IoctlRequest;
pub use report::{GamepadKind, GamepadNotification, XGamepad};
pub use target::{NotificationListener, PluginSearch, PluginStep, XusbTarget};
