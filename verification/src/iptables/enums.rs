//! Which traffic is sent to the queue: ports, port ranges and protocols.

use crate::text::{decimal, decimal_string};
use vstd::prelude::*;
use vstd::string::*;

verus! {

/// A destination port, or an inclusive range of them. A range is kept as it was
/// given: nothing here asks that it starts at or below its end.
#[derive(Clone, Copy, PartialEq, Eq, Hash, Debug, Structural)]
pub enum Port {
    Single(u16),
    Range(u16, u16),
}

/// A transport protocol.
#[derive(Clone, Copy, PartialEq, Eq, Hash, Debug, Structural)]
pub enum Protocol {
    Tcp,
    Udp,
}

/// A port together with the protocol it is matched under.
#[derive(Clone, Copy, PartialEq, Eq, Hash, Debug, Structural)]
pub struct PortSpec {
    pub port: Port,
    pub protocol: Protocol,
}

impl Port {
    /// The text of a port: `N`, or `N:M` for a range.
    pub open spec fn text(self) -> Seq<char> {
        match self {
            Port::Single(port) => decimal(port as nat),
            Port::Range(start, end) => decimal(start as nat) + ":"@ + decimal(end as nat),
        }
    }

    /// Renders the port as the rule tool reads it.
    pub fn to_string(&self) -> (s: String)
        ensures
            s@ == self.text(),
    {
        match self {
            Port::Single(port) => decimal_string(*port as u32),
            Port::Range(start, end) => {
                let mut s = decimal_string(*start as u32);
                s.append(":");
                s.append(decimal_string(*end as u32).as_str());
                s
            },
        }
    }
}

impl Protocol {
    /// The lower-case name of a protocol.
    pub open spec fn text(self) -> Seq<char> {
        match self {
            Protocol::Tcp => "tcp"@,
            Protocol::Udp => "udp"@,
        }
    }

    /// The lower-case name of the protocol.
    pub fn as_str(&self) -> (s: &'static str)
        ensures
            s@ == self.text(),
    {
        match self {
            Protocol::Tcp => "tcp",
            Protocol::Udp => "udp",
        }
    }

    /// Renders the protocol as its lower-case name.
    pub fn to_string(&self) -> (s: String)
        ensures
            s@ == self.text(),
    {
        self.as_str().to_owned()
    }
}

impl PortSpec {
    /// Pairs a port with a protocol.
    pub fn new(port: Port, protocol: Protocol) -> (spec: PortSpec)
        ensures
            spec == (PortSpec { port, protocol }),
    {
        PortSpec { port, protocol }
    }

    /// The text of a port specification: `protocol/port`.
    pub open spec fn text(self) -> Seq<char> {
        self.protocol.text() + "/"@ + self.port.text()
    }

    /// Renders the specification as `protocol/port`.
    pub fn to_string(&self) -> (s: String)
        ensures
            s@ == self.text(),
    {
        let mut s = self.protocol.to_string();
        s.append("/");
        s.append(self.port.to_string().as_str());
        s
    }
}

impl AsRef<str> for Protocol {
    fn as_ref(&self) -> (s: &str)
        ensures
            s@ == self.text(),
    {
        self.as_str()
    }
}

} // verus!
