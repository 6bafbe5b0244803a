use vstd::prelude::*;

verus! {

/// A session: the embedding surface that hands out data frames. Reading a
/// concrete format (such as a file) is the embedder's part; the session here
/// only anchors the builder API.
#[derive(Debug)]
pub struct SessionContext;

impl SessionContext {
    /// Opens a session.
    pub fn new() -> (r: SessionContext)
        ensures
            r == (SessionContext {  }),
    {
        SessionContext {  }
    }
}

impl Default for SessionContext {
    fn default() -> (r: SessionContext)
        ensures
            r == (SessionContext {  }),
    {
        SessionContext {  }
    }
}

} // verus!
