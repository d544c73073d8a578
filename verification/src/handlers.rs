//! The two request handlers and the catch-all, as pure response builders.
//!
//! Each handler takes the outcome of one upstream adapter call — a raw
//! nanounit amount or a failure detail — and renders the full HTTP
//! response. Failures are never recovered from locally: every one becomes
//! the 503 "service unavailable" answer with the detail preserved.

use vstd::prelude::*;

use crate::errors::{error_body, message_of, status_of, ApiError};
use crate::response::{success_body, HttpResponse};
use crate::supply::display_units;
use crate::text::{dec_rep, is_plain_char, lemma_json_escape_plain, u64_to_dec};

verus! {

/// Renders the success response for a supply query: status 200 and a JSON
/// body holding the raw nanounit amount converted to display units.
pub fn supply_success(raw_nanos: u64) -> (r: HttpResponse)
    ensures
        r.status == 200,
        r.body@ == success_body((raw_nanos / 1_000_000_000) as nat),
{
    let units = display_units(raw_nanos);
    let dec = u64_to_dec(units);
    let body = String::from_str("{\"0\":").concat(dec.as_str()).concat("}");
    HttpResponse { status: 200, body }
}

/// Maps the outcome of one adapter call to the response sent to the
/// client: a raw amount becomes the 200 success body in display units,
/// and any failure becomes the 503 body with its detail preserved.
pub fn handle_supply_result(result: Result<u64, String>) -> (r: HttpResponse)
    ensures
        (match result {
            Ok(raw) => r.status == 200 && r.body@ == success_body((raw / 1_000_000_000) as nat),
            Err(detail) => r.status == 503 && r.body@ == error_body(
                dec_rep(503),
                "service unavailable: "@ + detail@,
            ),
        }),
{
    match result {
        Ok(raw) => supply_success(raw),
        Err(detail) => {
            let e = ApiError::ServiceUnavailable(detail);
            e.to_response()
        },
    }
}

/// The deliberate answer for a request that matched no route: status 403
/// with the stable "forbidden" body.
pub fn forbidden_response() -> (r: HttpResponse)
    ensures
        r.status == 403,
        r.body@ == error_body(dec_rep(403), "forbidden"@),
{
    let e = ApiError::Forbidden;
    e.to_response()
}

/// Any upstream adapter failure is answered 503 with the decimal code
/// "503", and its message carries the detail behind the fixed prefix
/// "service unavailable: ".
pub proof fn lemma_upstream_failure_is_unavailable(e: ApiError)
    requires
        e is ServiceUnavailable,
    ensures
        status_of(e) == 503,
        message_of(e).len() >= "service unavailable: "@.len(),
        message_of(e).take("service unavailable: "@.len() as int) == "service unavailable: "@,
{
    assert(message_of(e).take("service unavailable: "@.len() as int) =~= "service unavailable: "@);
}

/// The forbidden body, written out: the stable wire form of the catch-all
/// answer.
pub proof fn lemma_forbidden_body_literal()
    ensures
        error_body(dec_rep(403), "forbidden"@) == "{\"error_code\":\"403\",\"error_message\":\"forbidden\"}"@,
{
    reveal_strlit("forbidden");
    let s = "forbidden"@;
    assert(s.len() == 9);
    assert forall|i: int| 0 <= i < s.len() implies is_plain_char(#[trigger] s[i]) by {
        if i == 0 {
            assert(is_plain_char('f'));
        } else if i == 1 {
            assert(is_plain_char('o'));
        } else if i == 2 {
            assert(is_plain_char('r'));
        } else if i == 3 {
            assert(is_plain_char('b'));
        } else if i == 4 {
            assert(is_plain_char('i'));
        } else if i == 5 {
            assert(is_plain_char('d'));
        } else if i == 6 {
            assert(is_plain_char('d'));
        } else if i == 7 {
            assert(is_plain_char('e'));
        } else {
            assert(is_plain_char('n'));
        }
    }
    lemma_json_escape_plain(s);
    assert(dec_rep(4) =~= seq!['4']);
    assert(dec_rep(40) =~= seq!['4', '0']);
    assert(dec_rep(403) =~= seq!['4', '0', '3']);
    reveal_strlit("{\"error_code\":\"");
    reveal_strlit("\",\"error_message\":\"");
    reveal_strlit("\"}");
    reveal_strlit("{\"error_code\":\"403\",\"error_message\":\"forbidden\"}");
    assert(error_body(dec_rep(403), s) =~= "{\"error_code\":\"403\",\"error_message\":\"forbidden\"}"@);
}

} // verus!
