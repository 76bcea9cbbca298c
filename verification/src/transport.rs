use reqwest::Error as TransportError;
use vstd::prelude::*;

verus! {

/// `reqwest::Error`: what the transport reports when it cannot complete an
/// exchange or cannot decode a body. Nothing is claimed of such a value: the
/// library carries it to the caller and never looks inside.
#[verifier::external_type_specification]
#[verifier::external_body]
pub struct ExTransportError(TransportError);

} // verus!
