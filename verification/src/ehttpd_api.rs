//! The `ehttpd` surface the library builds on: declarations of the buffer,
//! request and response types, names for their observable contents, and
//! thin wrappers around the `ehttpd` calls the library makes. Each
//! wrapper's contract states what the named `ehttpd` function's source
//! shows; nothing in this module is proved.

use crate::decimal::dec_digits;
use ehttpd::bytes::Data;
use ehttpd::http::Request;
use ehttpd::http::Response;
use vstd::prelude::*;
use vstd::string::StringSliceAdditionalSpecFns;

verus! {

#[verifier::external_type_specification]
#[verifier::external_body]
pub struct ExData(Data);

#[verifier::external_type_specification]
#[verifier::external_body]
pub struct ExResponse(Response);

#[verifier::external_type_specification]
#[verifier::external_body]
pub struct ExRequest<'a, const HEADER_SIZE_MAX: usize>(Request<'a, HEADER_SIZE_MAX>);

/// The bytes that a `Data` buffer holds.
pub uninterp spec fn data_bytes(d: Data) -> Seq<u8>;

/// The status bytes of a response.
pub uninterp spec fn status_of(r: Response) -> Seq<u8>;

/// The header fields of a response: name/value byte-string pairs, in the
/// order the response carries them.
pub uninterp spec fn fields_of(r: Response) -> Seq<(Seq<u8>, Seq<u8>)>;

/// The bytes that a response's body will yield.
pub uninterp spec fn body_of(r: Response) -> Seq<u8>;

/// `b` lowered to ASCII lower case.
pub open spec fn ascii_lower(b: u8) -> u8 {
    if 65 <= b <= 90 {
        (b + 32) as u8
    } else {
        b
    }
}

/// ASCII-case-insensitive equality of byte strings: how `ehttpd` compares
/// header field names.
pub open spec fn field_name_eq(a: Seq<u8>, b: Seq<u8>) -> bool {
    a.len() == b.len() && forall|i: int|
        0 <= i < a.len() ==> ascii_lower(#[trigger] a[i]) == ascii_lower(b[i])
}

/// The field list after a field is set: every pair whose name matches the
/// key up to ASCII case is removed, and the new pair appended.
pub open spec fn upsert_field(
    fields: Seq<(Seq<u8>, Seq<u8>)>,
    key: Seq<u8>,
    value: Seq<u8>,
) -> Seq<(Seq<u8>, Seq<u8>)> {
    fields.filter(|p: (Seq<u8>, Seq<u8>)| !field_name_eq(p.0, key)).push((key, value))
}

/// Relies on `ehttpd::bytes::Data`'s `[u8]` view (`Data::as_ref`): the
/// number of bytes the buffer holds.
#[verifier::external_body]
pub(crate) fn data_len(d: &Data) -> (r: usize)
    ensures
        r == data_bytes(*d).len(),
{
    d.len()
}

/// Relies on `ehttpd::bytes::Data::subcopy`: a lifetime-independent
/// (sub)copy of the bytes `start..end`, sharing the backing buffer where it
/// can; `None` where the range leaves the buffer.
#[verifier::external_body]
pub(crate) fn data_subcopy(d: &Data, start: usize, end: usize) -> (r: Option<Data>)
    requires
        start <= end,
    ensures
        match r {
            Some(s) => end <= data_bytes(*d).len() && data_bytes(s) == data_bytes(*d).subrange(
                start as int,
                end as int,
            ),
            None => end > data_bytes(*d).len(),
        },
{
    d.subcopy(start..end)
}

/// Relies on `ehttpd::http::Response::new_status_reason`: a fresh response
/// with the given status rendered in decimal, a `Content-Length` field
/// preset to `0`, and an empty body.
#[verifier::external_body]
pub(crate) fn response_new_status_reason(status: u16, reason: &'static str) -> (r: Response)
    ensures
        status_of(r) == dec_digits(status as nat),
        fields_of(r) == seq![("Content-Length".spec_bytes(), "0".spec_bytes())],
        body_of(r) == Seq::<u8>::empty(),
{
    Response::new_status_reason(status, reason)
}

/// Relies on `ehttpd::http::Response::set_field`: removes every field whose
/// name equals `key` up to ASCII case, then appends `(key, value)`; the
/// status and the body stay untouched.
#[verifier::external_body]
pub(crate) fn response_set_field(resp: &mut Response, key: &'static str, value: Vec<u8>)
    ensures
        fields_of(*final(resp)) == upsert_field(
            fields_of(*old(resp)),
            key.spec_bytes(),
            value@,
        ),
        status_of(*final(resp)) == status_of(*old(resp)),
        body_of(*final(resp)) == body_of(*old(resp)),
{
    resp.set_field(key, value)
}

/// Relies on `ehttpd::http::Response::set_body_data`: installs the buffer
/// as the body and sets the `Content-Length` field to the buffer's length
/// in decimal; the status stays untouched.
#[verifier::external_body]
pub(crate) fn response_set_body_data(resp: &mut Response, data: Data)
    ensures
        fields_of(*final(resp)) == upsert_field(
            fields_of(*old(resp)),
            "Content-Length".spec_bytes(),
            dec_digits(data_bytes(data).len()),
        ),
        status_of(*final(resp)) == status_of(*old(resp)),
        body_of(*final(resp)) == data_bytes(data),
{
    resp.set_body_data(data)
}

/// Relies on `ehttpd::bytes::Data`'s `[u8]` view of the response's public
/// `status` field: the status bytes as an owned copy.
#[verifier::external_body]
pub(crate) fn response_status(resp: &Response) -> (r: Vec<u8>)
    ensures
        r@ == status_of(*resp),
{
    resp.status.to_vec()
}

/// Relies on `ehttpd::http::Request::field` (an ASCII-case-insensitive
/// header lookup) and `Data`'s `[u8]` view: the named header field's bytes
/// as an owned copy, or `None` where the request carries no such field.
/// What a request holds is opaque here, so nothing further is promised.
#[verifier::external_body]
pub(crate) fn request_field_bytes<'a, const HEADER_SIZE_MAX: usize>(
    req: &Request<'a, HEADER_SIZE_MAX>,
    name: &'static str,
) -> Option<Vec<u8>> {
    match req.field(name) {
        Some(data) => Some(data.to_vec()),
        None => None,
    }
}

} // verus!
