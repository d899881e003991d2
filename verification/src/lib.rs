//! Eve: global two-party conversations, their endpoint projections, compiled plans and
//! the endpoint machines that execute them.
use vstd::prelude::*;

pub mod text;
pub mod map;
pub mod conversation;
pub mod validate;
pub mod projection;
pub mod trace;
pub mod json;
pub mod encode;
pub mod encode_laws;
pub mod identity;
pub mod plan;
pub mod plan_laws;
pub mod runtime;
pub mod duality;
pub mod wire;
pub mod fault;
pub mod driver;
pub mod benchmark;
pub mod debug;

pub use crate::conversation::{
    Conversation, Module, Role, TypeDefinition, FailureDefinition, GlobalState,
    CONVERSATION_FORMAT, ENDPOINT_FORMAT,
};
pub use crate::map::StrMap;
pub use crate::validate::{Diagnostic, ValidationErrors, validate};
pub use crate::projection::{Endpoint, EndpointState, project};
pub use crate::trace::{Frame, TraceReport, TraceError, TraceFailure, verify_trace, describe_frame};

verus! {

} // verus!
