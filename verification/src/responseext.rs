//! Building `206 Partial Content` responses: resolving a requested range
//! against the resource's concrete length and writing the matching
//! `Content-Range`/`Content-Length` headers and truncated body onto an
//! `ehttpd` response.

use crate::RangeError;
use crate::anyrange::AnyInclusiveRange;
use crate::decimal::{dec_digits, u64_to_dec};
use crate::ehttpd_api::{
    body_of, data_bytes, data_len, data_subcopy, fields_of, response_new_status_reason,
    response_set_body_data, response_set_field, response_status, status_of, upsert_field,
};
use crate::rangeext::{
    resolve_exclusive_u64, resolve_exclusive_usize, resolve_inclusive_u64,
    spec_resolve_exclusive_u64, spec_resolve_exclusive_usize, spec_resolve_inclusive_u64,
};
use ehttpd::bytes::Data;
use ehttpd::http::Response;
use vstd::prelude::*;
use vstd::slice::slice_to_vec;
use vstd::string::StringSliceAdditionalSpecFns;

verus! {

/// The status bytes of a `206 Partial Content` response.
pub open spec fn status_206() -> Seq<u8> {
    seq![50u8, 48u8, 54u8]
}

/// The `Content-Range` header value for the inclusive interval
/// `start..=end` of a resource of `total` bytes:
/// `bytes <start>-<end>/<total>`.
pub open spec fn spec_content_range_value(start: u64, end: u64, total: u64) -> Seq<u8> {
    "bytes ".spec_bytes() + dec_digits(start as nat) + seq![45u8] + dec_digits(end as nat)
        + seq![47u8] + dec_digits(total as nat)
}

/// Renders the `Content-Range` header value `bytes <start>-<end>/<total>`.
pub fn content_range_value(start: u64, end: u64, total: u64) -> (r: Vec<u8>)
    ensures
        r@ == spec_content_range_value(start, end, total),
{
    let mut v = slice_to_vec("bytes ".as_bytes());
    let mut digits = u64_to_dec(start);
    v.append(&mut digits);
    v.push(45);
    let mut digits = u64_to_dec(end);
    v.append(&mut digits);
    v.push(47);
    let mut digits = u64_to_dec(total);
    v.append(&mut digits);
    proof {
        assert(v@ =~= spec_content_range_value(start, end, total));
    }
    v
}

/// Creates a new `206 Partial Content` HTTP response. Its body is empty,
/// its `Content-Length` field is preset to `0`.
pub fn new_206_partial_content() -> (r: Response)
    ensures
        status_of(r) == status_206(),
        fields_of(r) == seq![("Content-Length".spec_bytes(), "0".spec_bytes())],
        body_of(r) == Seq::<u8>::empty(),
{
    let r = response_new_status_reason(206, "Partial Content");
    proof {
        reveal_with_fuel(dec_digits, 4);
        assert(dec_digits(206nat) =~= status_206());
    }
    r
}

/// Sets the `Accept-Ranges` field to `bytes`.
pub fn set_accept_ranges_bytes(resp: &mut Response)
    ensures
        fields_of(*final(resp)) == upsert_field(
            fields_of(*old(resp)),
            "Accept-Ranges".spec_bytes(),
            "bytes".spec_bytes(),
        ),
        status_of(*final(resp)) == status_of(*old(resp)),
        body_of(*final(resp)) == body_of(*old(resp)),
{
    let value = slice_to_vec("bytes".as_bytes());
    response_set_field(resp, "Accept-Ranges", value);
}

/// Sets the `Accept-Ranges` field to `none`.
pub fn set_accept_ranges_none(resp: &mut Response)
    ensures
        fields_of(*final(resp)) == upsert_field(
            fields_of(*old(resp)),
            "Accept-Ranges".spec_bytes(),
            "none".spec_bytes(),
        ),
        status_of(*final(resp)) == status_of(*old(resp)),
        body_of(*final(resp)) == body_of(*old(resp)),
{
    let value = slice_to_vec("none".as_bytes());
    response_set_field(resp, "Accept-Ranges", value);
}

/// What `set_content_range` resolves: the inclusive interval produced by
/// the inclusive-form converter against `[0, total)`, which must be
/// ordered; a range that leaves the domain is `RangeOutOfBounds`, one whose
/// end lies before its start is `RangeInvalid`.
pub open spec fn spec_content_range_outcome(range: AnyInclusiveRange<u64>, total: u64) -> Result<
    (u64, u64),
    RangeError,
> {
    match spec_resolve_inclusive_u64(range, 0, total) {
        None => Err(RangeError::RangeOutOfBounds),
        Some(p) => if p.0 <= p.1 {
            Ok(p)
        } else {
            Err(RangeError::RangeInvalid)
        },
    }
}

/// Sets the `Content-Range` header for the given range of a resource of
/// `total` bytes; on failure the response is left untouched.
pub fn set_content_range(resp: &mut Response, range: AnyInclusiveRange<u64>, total: u64) -> (r:
    Result<(), RangeError>)
    ensures
        match spec_content_range_outcome(range, total) {
            Ok(p) => {
                &&& r is Ok
                &&& fields_of(*final(resp)) == upsert_field(
                    fields_of(*old(resp)),
                    "Content-Range".spec_bytes(),
                    spec_content_range_value(p.0, p.1, total),
                )
                &&& status_of(*final(resp)) == status_of(*old(resp))
                &&& body_of(*final(resp)) == body_of(*old(resp))
            },
            Err(e) => r == Err::<(), RangeError>(e) && *final(resp) == *old(resp),
        },
{
    // Compute the bounds
    let (start, end_incl) = match resolve_inclusive_u64(range, 0, total) {
        Some(p) => p,
        None => {
            return Err(RangeError::RangeOutOfBounds);
        },
    };
    if start > end_incl {
        return Err(RangeError::RangeInvalid);
    }

    // Set the range
    let value = content_range_value(start, end_incl, total);
    response_set_field(resp, "Content-Range", value);
    Ok(())
}

/// Whether the response's status is `206`, the only status the range-body
/// setters accept.
fn status_is_206(resp: &Response) -> (r: bool)
    ensures
        r == (status_of(*resp) == status_206()),
{
    let status = response_status(resp);
    let ok = status.len() == 3 && status[0] == 50 && status[1] == 48 && status[2] == 54;
    proof {
        if ok {
            assert(status@ =~= status_206());
        } else {
            assert(status@ != status_206()) by {
                if status@ == status_206() {
                    assert(status@.len() == 3);
                    assert(status@[0] == 50 && status@[1] == 48 && status@[2] == 54);
                }
            }
        }
    }
    ok
}

/// What `set_body_data_range` resolves for a response whose status bytes
/// are `status`: the half-open interval produced by the exclusive-form
/// converter against `[0, data.len())`, which must be non-empty. A status
/// other than `206` is `WrongResponseStatus`, a range that leaves the
/// buffer is `RangeOutOfBounds`, and an empty or reversed one is
/// `RangeInvalid`.
pub open spec fn spec_data_range_outcome(
    status: Seq<u8>,
    data: Seq<u8>,
    range: AnyInclusiveRange<usize>,
) -> Result<(usize, usize), RangeError> {
    if status != status_206() {
        Err(RangeError::WrongResponseStatus)
    } else {
        match spec_resolve_exclusive_usize(range, 0, data.len() as usize) {
            None => Err(RangeError::RangeOutOfBounds),
            Some(p) => if p.0 < p.1 {
                Ok(p)
            } else {
                Err(RangeError::RangeInvalid)
            },
        }
    }
}

/// Sets the body of a `206` response to the bytes of `data` selected by
/// `range`, without copying the buffer contents, and writes the matching
/// `Content-Range` and `Content-Length` headers; on failure the response
/// is left untouched.
pub fn set_body_data_range(resp: &mut Response, data: Data, range: AnyInclusiveRange<usize>) -> (r:
    Result<(), RangeError>)
    ensures
        match spec_data_range_outcome(status_of(*old(resp)), data_bytes(data), range) {
            Ok(p) => {
                &&& r is Ok
                &&& fields_of(*final(resp)) == upsert_field(
                    upsert_field(
                        fields_of(*old(resp)),
                        "Content-Range".spec_bytes(),
                        spec_content_range_value(
                            p.0 as u64,
                            (p.1 - 1) as u64,
                            data_bytes(data).len() as u64,
                        ),
                    ),
                    "Content-Length".spec_bytes(),
                    dec_digits((p.1 - p.0) as nat),
                )
                &&& body_of(*final(resp)) == data_bytes(data).subrange(p.0 as int, p.1 as int)
                &&& status_of(*final(resp)) == status_of(*old(resp))
            },
            Err(e) => r == Err::<(), RangeError>(e) && *final(resp) == *old(resp),
        },
{
    // Ensure that we are a 206
    if !status_is_206(resp) {
        return Err(RangeError::WrongResponseStatus);
    }

    // Prepare data and range
    let len = data_len(&data);
    let (start, end) = match resolve_exclusive_usize(range, 0, len) {
        Some(p) => p,
        None => {
            return Err(RangeError::RangeOutOfBounds);
        },
    };
    if start >= end {
        return Err(RangeError::RangeInvalid);
    }
    let subdata_opt = data_subcopy(&data, start, end);
    let subdata = match subdata_opt {
        Some(s) => s,
        None => {
            return Err(RangeError::RangeOutOfBounds);
        },
    };

    // Set content-range header and body data
    let range_result = set_content_range(
        resp,
        AnyInclusiveRange::FromTo { start: start as u64, end: (end - 1) as u64 },
        len as u64,
    );
    match range_result {
        Ok(_) => {},
        Err(e) => {
            return Err(e);
        },
    }
    response_set_body_data(resp, subdata);
    Ok(())
}

/// What `set_body_file_range` resolves for a response whose status bytes
/// are `status`: the half-open interval produced by the exclusive-form
/// converter against `[0, file_size)`, which must be non-empty; the error
/// cases are as for [`spec_data_range_outcome`].
pub open spec fn spec_file_range_outcome(
    status: Seq<u8>,
    file_size: u64,
    range: AnyInclusiveRange<u64>,
) -> Result<(u64, u64), RangeError> {
    if status != status_206() {
        Err(RangeError::WrongResponseStatus)
    } else {
        match spec_resolve_exclusive_u64(range, 0, file_size) {
            None => Err(RangeError::RangeOutOfBounds),
            Some(p) => if p.0 < p.1 {
                Ok(p)
            } else {
                Err(RangeError::RangeInvalid)
            },
        }
    }
}

/// Resolves `range` against a file of `file_size` bytes and, for a `206`
/// response, writes the matching `Content-Range` and `Content-Length`
/// headers; on failure the response is left untouched. On success the
/// resolved half-open interval `(start, end)` is handed back: the caller
/// seeks the file to `start` and installs a reader bounded to
/// `end - start` bytes as the body.
pub fn set_file_range_headers(resp: &mut Response, range: AnyInclusiveRange<u64>, file_size: u64) -> (r: Result<(u64, u64), RangeError>)
    ensures
        match spec_file_range_outcome(status_of(*old(resp)), file_size, range) {
            Ok(p) => {
                &&& r == Ok::<(u64, u64), RangeError>(p)
                &&& fields_of(*final(resp)) == upsert_field(
                    upsert_field(
                        fields_of(*old(resp)),
                        "Content-Range".spec_bytes(),
                        spec_content_range_value(p.0, (p.1 - 1) as u64, file_size),
                    ),
                    "Content-Length".spec_bytes(),
                    dec_digits((p.1 - p.0) as nat),
                )
                &&& status_of(*final(resp)) == status_of(*old(resp))
                &&& body_of(*final(resp)) == body_of(*old(resp))
            },
            Err(e) => r == Err::<(u64, u64), RangeError>(e) && *final(resp) == *old(resp),
        },
{
    // Ensure that we are a 206
    if !status_is_206(resp) {
        return Err(RangeError::WrongResponseStatus);
    }

    // Resolve the range against the file size
    let (start, end) = match resolve_exclusive_u64(range, 0, file_size) {
        Some(p) => p,
        None => {
            return Err(RangeError::RangeOutOfBounds);
        },
    };
    if start >= end {
        return Err(RangeError::RangeInvalid);
    }

    // Set content-range and content-length header
    let range_result = set_content_range(
        resp,
        AnyInclusiveRange::FromTo { start, end: end - 1 },
        file_size,
    );
    match range_result {
        Ok(_) => {},
        Err(e) => {
            return Err(e);
        },
    }
    let len = end.saturating_sub(start);
    response_set_field(resp, "Content-Length", u64_to_dec(len));
    Ok((start, end))
}

/// An empty in-memory resource admits no range: against a zero-length
/// buffer every range request on a `206` response fails, with
/// `RangeInvalid` or `RangeOutOfBounds`, and never resolves to an
/// interval.
pub proof fn lemma_empty_data_rejects_ranges(range: AnyInclusiveRange<usize>)
    ensures
        spec_data_range_outcome(status_206(), Seq::<u8>::empty(), range) matches Err(e) && (e
            == RangeError::RangeInvalid || e == RangeError::RangeOutOfBounds),
{
}

/// An empty file-backed resource admits no range either, and neither does
/// a `Content-Range` header over a zero-length resource.
pub proof fn lemma_empty_resource_rejects_ranges(range: AnyInclusiveRange<u64>)
    ensures
        spec_file_range_outcome(status_206(), 0, range) matches Err(e) && (e
            == RangeError::RangeInvalid || e == RangeError::RangeOutOfBounds),
        spec_content_range_outcome(range, 0) == Err::<(u64, u64), RangeError>(
            RangeError::RangeOutOfBounds,
        ),
{
}

} // verus!
