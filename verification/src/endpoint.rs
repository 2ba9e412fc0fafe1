//! What a link exchanges with its session: handles and flow information.

use fe2o3_amqp_types::definitions::{Fields, SequenceNo};
use vstd::prelude::*;

verus! {

/// The number by which a link is named on the wire.
#[derive(Debug, Clone, Copy, PartialEq, Eq, Structural)]
pub struct Handle(pub u32);

/// The handle that this endpoint chose for a link.
#[derive(Debug, Clone, Copy, PartialEq, Eq, Structural)]
pub struct OutputHandle(pub u32);

impl From<OutputHandle> for Handle {
    fn from(handle: OutputHandle) -> (r: Handle) {
        Handle(handle.0)
    }
}

impl vstd::std_specs::convert::FromSpecImpl<OutputHandle> for Handle {
    open spec fn obeys_from_spec() -> bool {
        true
    }

    open spec fn from_spec(handle: OutputHandle) -> Handle {
        Handle(handle.0)
    }
}

/// The part of a flow frame that concerns one link.
#[derive(Debug)]
pub struct LinkFlow {
    /// The link that the flow is about
    pub handle: Handle,

    /// The delivery-count of whoever sends the flow, where it is known
    pub delivery_count: Option<SequenceNo>,

    /// The link-credit of whoever sends the flow
    pub link_credit: Option<u32>,

    /// How many messages wait at the sending link
    pub available: Option<u32>,

    /// Whether the sending link should use up its credit
    pub drain: bool,

    /// Whether a flow is asked for in return
    pub echo: bool,

    /// Link properties
    pub properties: Option<Fields>,
}

impl LinkFlow {
    /// A flow that says nothing: the handle is the greatest there is, no
    /// number is given, and neither flag is set.
    pub open spec fn silent() -> LinkFlow {
        LinkFlow {
            handle: Handle(u32::MAX),
            delivery_count: None,
            link_credit: None,
            available: None,
            drain: false,
            echo: false,
            properties: None,
        }
    }
}

impl Default for LinkFlow {
    fn default() -> (flow: LinkFlow)
        ensures
            flow == LinkFlow::silent(),
    {
        LinkFlow {
            handle: Handle(u32::MAX),
            delivery_count: None,
            link_credit: None,
            available: None,
            drain: false,
            echo: false,
            properties: None,
        }
    }
}

} // verus!
