//! Endpoint descriptors: how one side of a bridge session obtains its connection.

use vstd::prelude::*;

verus! {

/// How one side of a session obtains its connection: the connection is already
/// held, or a destination has to be dialed. `C` is the caller's connection
/// type; the session's decisions never look inside it.
#[derive(Debug)]
pub enum TcpOrDestination<C> {
    /// A connection that a listener has accepted.
    Tcp(C),
    /// An address or URL to connect to.
    Dest(String),
}

/// Mathematical value of a descriptor: whether the connection is held, and if
/// not, where to find it.
pub enum Endpoint {
    Accepted,
    Destination(Seq<char>),
}

impl<C> View for TcpOrDestination<C> {
    type V = Endpoint;

    open spec fn view(&self) -> Endpoint {
        match self {
            TcpOrDestination::Tcp(_) => Endpoint::Accepted,
            TcpOrDestination::Dest(d) => Endpoint::Destination(d@),
        }
    }
}

impl<C> TcpOrDestination<C> {
    /// Whether the descriptor already holds its connection.
    pub fn is_accepted(&self) -> (held: bool)
        ensures
            held == (self@ is Accepted),
    {
        match self {
            TcpOrDestination::Tcp(_) => true,
            TcpOrDestination::Dest(_) => false,
        }
    }

    /// The destination to dial, if the descriptor names one.
    pub fn destination(&self) -> (dest: Option<String>)
        ensures
            match self@ {
                Endpoint::Accepted => dest is None,
                Endpoint::Destination(d) => dest is Some && dest->0@ == d,
            },
    {
        match self {
            TcpOrDestination::Tcp(_) => None,
            TcpOrDestination::Dest(d) => Some(d.clone()),
        }
    }
}

} // verus!
