use vstd::prelude::*;
use crate::decimal::{dec, format_u64};
use crate::text::{concat2, concat3, string_of};

verus! {

/// Why a node ID string was refused.
#[derive(Debug)]
pub enum NodeIdError {
    InvalidFormat(String),
    InvalidPrefix(String),
    InvalidChapter(u8),
    InvalidVerse(u16),
    InvalidAxis(String),
    Malformed(String),
}

/// A node ID error as a value: strings as character sequences.
pub enum NodeIdFault {
    InvalidFormat(Seq<char>),
    InvalidPrefix(Seq<char>),
    InvalidChapter(u8),
    InvalidVerse(u16),
    InvalidAxis(Seq<char>),
    Malformed(Seq<char>),
}

impl View for NodeIdError {
    type V = NodeIdFault;

    open spec fn view(&self) -> NodeIdFault {
        match self {
            NodeIdError::InvalidFormat(s) => NodeIdFault::InvalidFormat(s@),
            NodeIdError::InvalidPrefix(s) => NodeIdFault::InvalidPrefix(s@),
            NodeIdError::InvalidChapter(n) => NodeIdFault::InvalidChapter(*n),
            NodeIdError::InvalidVerse(n) => NodeIdFault::InvalidVerse(*n),
            NodeIdError::InvalidAxis(s) => NodeIdFault::InvalidAxis(s@),
            NodeIdError::Malformed(s) => NodeIdFault::Malformed(s@),
        }
    }
}

/// A result of a node ID function as a value.
pub open spec fn rview<T>(r: Result<T, NodeIdError>) -> Result<T, NodeIdFault> {
    match r {
        Ok(x) => Ok(x),
        Err(e) => Err(e@),
    }
}

/// The text of a node ID error, as it is displayed.
pub open spec fn fault_message(f: NodeIdFault) -> Seq<char> {
    match f {
        NodeIdFault::InvalidFormat(s) => "Invalid node ID format: "@ + s,
        NodeIdFault::InvalidPrefix(s) => "Invalid node type prefix: "@ + s,
        NodeIdFault::InvalidChapter(n) => "Invalid chapter number: "@ + dec(n as nat)
            + " (must be 1-114)"@,
        NodeIdFault::InvalidVerse(n) => "Invalid verse number: "@ + dec(n as nat)
            + " (must be >= 1)"@,
        NodeIdFault::InvalidAxis(s) => "Invalid knowledge axis: "@ + s,
        NodeIdFault::Malformed(s) => "Malformed node ID: "@ + s,
    }
}

impl NodeIdError {
    /// The text of the error, as it is displayed.
    pub fn message(&self) -> (r: String)
        ensures
            r@ == fault_message(self@),
    {
        match self {
            NodeIdError::InvalidFormat(s) => concat2("Invalid node ID format: ", s.as_str()),
            NodeIdError::InvalidPrefix(s) => concat2("Invalid node type prefix: ", s.as_str()),
            NodeIdError::InvalidChapter(n) => {
                let d = string_of(&format_u64(*n as u64));
                concat3("Invalid chapter number: ", d.as_str(), " (must be 1-114)")
            },
            NodeIdError::InvalidVerse(n) => {
                let d = string_of(&format_u64(*n as u64));
                concat3("Invalid verse number: ", d.as_str(), " (must be >= 1)")
            },
            NodeIdError::InvalidAxis(s) => concat2("Invalid knowledge axis: ", s.as_str()),
            NodeIdError::Malformed(s) => concat2("Malformed node ID: ", s.as_str()),
        }
    }
}

} // verus!
