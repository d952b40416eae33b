//! The coordinator of all panels.

use vstd::prelude::*;
use crate::handler::handle::Handle;
use crate::panel::panel::Panel;

verus! {

/// The panels on the screen and whether the coordinator is running.
pub struct CoordinatorService<H: Handle> {
    pub state: bool,
    pub panels: Vec<Panel<H>>,
}

impl<H: Handle> CoordinatorService<H> {
    /// A running coordinator without panels.
    pub fn init() -> (service: Self)
        ensures
            service.state,
            service.panels@.len() == 0,
    {
        CoordinatorService { state: true, panels: Vec::new() }
    }
}

} // verus!
