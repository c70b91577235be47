//! The owner of one connection's stream and handler.

use vstd::prelude::*;

verus! {

/// One connection: the byte stream and the handler that answers its requests.
pub struct Server<Io, H> {
    handler: H,
    io: Io,
}

impl<Io, H> Server<Io, H> {
    /// The stream of this connection.
    pub closed spec fn io(&self) -> Io {
        self.io
    }

    /// The handler of this connection.
    pub closed spec fn handler(&self) -> H {
        self.handler
    }

    /// A server for the stream `io`, whose requests `handler` answers.
    pub fn new(io: Io, handler: H) -> (server: Self)
        ensures
            server.io() == io,
            server.handler() == handler,
    {
        Self { io, handler }
    }

    /// The stream and the handler, each to be used in place.
    pub fn parts_mut(&mut self) -> (parts: (&mut Io, &mut H))
        ensures
            *parts.0 == old(self).io(),
            *parts.1 == old(self).handler(),
            final(self).io() == *final(parts.0),
            final(self).handler() == *final(parts.1),
    {
        (&mut self.io, &mut self.handler)
    }

    /// Gives the stream and the handler back.
    pub fn into_parts(self) -> (parts: (Io, H))
        ensures
            parts.0 == self.io(),
            parts.1 == self.handler(),
    {
        (self.io, self.handler)
    }
}

} // verus!
