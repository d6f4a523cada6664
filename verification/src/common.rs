use vstd::prelude::*;

verus! {

/// The kind of connection that a tunnel carries.
#[derive(Clone, Copy, Debug)]
pub enum TlConnectionType {
    Tcp,
    Udp,
}

impl TlConnectionType {
    /// The one-byte code of the connection type on the tunnel.
    pub open spec fn spec_code(self) -> u8 {
        match self {
            TlConnectionType::Tcp => 1,
            TlConnectionType::Udp => 2,
        }
    }

    /// The one-byte code of the connection type on the tunnel:
    /// 1 for TCP and 2 for UDP.
    pub fn code(&self) -> (c: u8)
        ensures
            c == self.spec_code(),
    {
        match self {
            TlConnectionType::Tcp => 1,
            TlConnectionType::Udp => 2,
        }
    }
}

} // verus!
