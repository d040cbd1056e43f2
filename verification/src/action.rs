//! The operating-system work that the protocol asks its caller to do.
//!
//! Every protocol step ends by naming the next piece of work. The caller does
//! it and reports back `Ok(())` or the `HRESULT` of the failure; requests that
//! read a reply leave it in their own buffer.

use vstd::prelude::*;
use crate::protocol::{IoctlRequest, RequestView};

verus! {

/// One piece of work for the caller.
#[derive(Debug)]
pub enum Action {
    /// List the present interfaces of the bus device class, and hand the
    /// paths found to the protocol.
    ListBusPaths,
    /// Open this zero-terminated interface path for overlapped I/O.
    OpenPath(Vec<u16>),
    /// Create an event for overlapped I/O on the device last opened.
    CreateEvent,
    /// Send this request to the device last opened, with the event last created.
    Ioctl(IoctlRequest),
}

pub enum ActionView {
    ListBusPaths,
    OpenPath(Seq<u16>),
    CreateEvent,
    Ioctl(RequestView),
}

impl View for Action {
    type V = ActionView;

    open spec fn view(&self) -> ActionView {
        match self {
            Action::ListBusPaths => ActionView::ListBusPaths,
            Action::OpenPath(p) => ActionView::OpenPath(p@),
            Action::CreateEvent => ActionView::CreateEvent,
            Action::Ioctl(r) => ActionView::Ioctl(r@),
        }
    }
}

} // verus!
