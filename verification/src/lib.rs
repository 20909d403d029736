//! Bidirectional bridge between an OSC-style wire protocol and a mixing
//! engine's live parameter surface.
//!
//! The crate holds the verified core: address parsing, the route table with
//! its match / apply / encode / collect contract, the dispatcher, the
//! engine-event republisher and the diff-based state poller. Host glue
//! (sockets, threads, the engine API itself) lives outside and exchanges
//! plain values with this crate.

use vstd::prelude::*;

pub mod address;
pub mod dispatch;
pub mod events;
pub mod guid;
pub mod laws;
pub mod message;
pub mod osc_routes;
pub mod polling;
pub mod project;
pub mod text;

pub use address::parse_osc_address;

verus! {

/// Error raised while resolving an address against the engine state.
#[derive(Debug, PartialEq)]
pub enum RouteError {
    /// The address referenced an entity identifier that resolves to no track.
    GuidNotFound(String),
    /// A read that should have produced a value could not be satisfied.
    ValueNotFound(String),
}

/// Error raised on the write path of a dispatched message.
#[derive(Debug, PartialEq)]
pub enum ReceiverError {
    /// Address resolution failed.
    Route(RouteError),
    /// A message argument was missing or had the wrong type or shape.
    BadValue(String),
    /// The engine itself rejected the mutation.
    Backend(String),
}

impl From<RouteError> for ReceiverError {
    fn from(e: RouteError) -> (r: ReceiverError) {
        ReceiverError::Route(e)
    }
}

impl vstd::std_specs::convert::FromSpecImpl<RouteError> for ReceiverError {
    open spec fn obeys_from_spec() -> bool {
        true
    }

    open spec fn from_spec(e: RouteError) -> ReceiverError {
        ReceiverError::Route(e)
    }
}

impl RouteError {
    /// The log line for this error, as the host prints it.
    pub fn describe(&self) -> (r: String)
        ensures
            self matches RouteError::GuidNotFound(g) ==> r@ == "GUID not found: "@ + g@,
            self matches RouteError::ValueNotFound(v) ==> r@ == "Value not found: "@ + v@,
    {
        match self {
            RouteError::GuidNotFound(g) => {
                let mut s = String::from_str("GUID not found: ");
                s.append(g.as_str());
                s
            },
            RouteError::ValueNotFound(v) => {
                let mut s = String::from_str("Value not found: ");
                s.append(v.as_str());
                s
            },
        }
    }
}

/// The kind of a failed operation: identifying payloads are kept, free-form
/// diagnostic text is abstracted away.
pub enum SpecError {
    GuidNotFound(Seq<char>),
    ValueNotFound,
    BadValue,
    Backend,
}

/// The kind of an address-resolution error.
pub open spec fn route_error_model(e: RouteError) -> SpecError {
    match e {
        RouteError::GuidNotFound(g) => SpecError::GuidNotFound(g@),
        RouteError::ValueNotFound(_) => SpecError::ValueNotFound,
    }
}

/// The kind of a write-path error.
pub open spec fn receiver_error_model(e: ReceiverError) -> SpecError {
    match e {
        ReceiverError::Route(re) => route_error_model(re),
        ReceiverError::BadValue(_) => SpecError::BadValue,
        ReceiverError::Backend(_) => SpecError::Backend,
    }
}

} // verus!
