use vstd::prelude::*;

verus! {

/// The number of a stream. Zero stands for the connection as a whole.
#[derive(Clone, Copy, Debug, PartialEq, Eq, Hash, Structural)]
pub struct StreamId(pub u32);

impl StreamId {
    pub open spec fn spec_is_zero(&self) -> bool {
        self.0 == 0
    }

    pub open spec fn spec_is_client_initiated(&self) -> bool {
        self.0 != 0 && self.0 % 2 == 1
    }

    pub open spec fn spec_is_server_initiated(&self) -> bool {
        self.0 != 0 && self.0 % 2 == 0
    }

    /// The ID of the connection as a whole.
    pub fn zero() -> (id: StreamId)
        ensures
            id == StreamId(0),
    {
        StreamId(0)
    }

    /// True for the ID of the connection as a whole.
    #[verifier::when_used_as_spec(spec_is_zero)]
    pub fn is_zero(&self) -> (r: bool)
        ensures
            r == self.spec_is_zero(),
    {
        self.0 == 0
    }

    /// True if a client initiates streams with this ID: it is odd.
    #[verifier::when_used_as_spec(spec_is_client_initiated)]
    pub fn is_client_initiated(&self) -> (r: bool)
        ensures
            r == self.spec_is_client_initiated(),
    {
        self.0 != 0 && self.0 % 2 == 1
    }

    /// True if a server initiates streams with this ID: it is even and not zero.
    #[verifier::when_used_as_spec(spec_is_server_initiated)]
    pub fn is_server_initiated(&self) -> (r: bool)
        ensures
            r == self.spec_is_server_initiated(),
    {
        self.0 != 0 && self.0 % 2 == 0
    }
}

} // verus!
