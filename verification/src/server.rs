//! The tool server.

use vstd::prelude::*;

verus! {

/// The tool server: its methods decide what each tool asks of the event store
/// and what it answers. It holds no state.
#[derive(Clone, Copy, PartialEq, Eq, Structural, Debug)]
pub struct EventKitServer {}

impl EventKitServer {
    /// A server.
    pub fn new() -> (server: EventKitServer)
        ensures
            server == (EventKitServer {  }),
    {
        EventKitServer {  }
    }
}

impl Default for EventKitServer {
    fn default() -> (server: Self)
        ensures
            server == (EventKitServer {  }),
    {
        EventKitServer::new()
    }
}

} // verus!
