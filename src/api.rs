//! The boundary types of the transport layer. Mapping a wire request to an
//! `UnvalidatedOrder`, and events or errors back to a wire response, belongs
//! to that layer; the workflow never sees these types.

use vstd::prelude::*;

verus! {

/// An order request as it arrives over the wire.
#[derive(Clone, Copy, Debug, PartialEq, Eq, Structural)]
pub struct OrderDto;

/// The response to an order request.
#[derive(Clone, Copy, Debug, PartialEq, Eq, Structural)]
pub struct WorkflowResultDto;

} // verus!
