//! The HTTP-facing response value and the shape of a success body.

use vstd::prelude::*;

use crate::text::dec_rep;

verus! {

/// A fully rendered HTTP response: a status code and a JSON body.
/// The surrounding binary writes it to the wire unchanged.
pub struct HttpResponse {
    pub status: u16,
    pub body: String,
}

/// The body of a successful supply query: a JSON object with the single
/// key "0" holding the supply amount in display units.
pub open spec fn success_body(units: nat) -> Seq<char> {
    "{\"0\":"@ + dec_rep(units) + "}"@
}

} // verus!
