use vstd::prelude::*;

verus! {

/// Error a transform reports when it cannot produce a value from its inputs.
#[derive(Debug, Clone, Copy, PartialEq, Eq, Structural)]
pub enum ObserverError {
    TransformError,
}

} // verus!
