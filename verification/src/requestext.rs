//! Parsing the `Range` request header field: `bytes=<start>-<end>`, where
//! each boundary is an optionally empty run of decimal digits.

use crate::RangeError;
use crate::anyrange::AnyInclusiveRange;
use crate::decimal::{
    dec_digits, is_digit, lemma_dec_digits_are_digits, lemma_dec_digits_value, parse_u64,
    spec_parse_u64,
};
use crate::ehttpd_api::request_field_bytes;
use ehttpd::http::Request;
use vstd::prelude::*;
use vstd::slice::{slice_index_get, slice_subrange};

verus! {

/// The position of the first occurrence of `b` in `s`, if any.
pub open spec fn spec_find_byte(s: Seq<u8>, b: u8) -> Option<int>
    decreases s.len(),
{
    if s.len() == 0 {
        None
    } else if s[0] == b {
        Some(0)
    } else {
        match spec_find_byte(s.drop_first(), b) {
            Some(i) => Some(i + 1),
            None => None,
        }
    }
}

/// `spec_find_byte` names the first occurrence: the byte stands there, and
/// nowhere earlier; `None` means the byte does not occur at all.
pub proof fn lemma_find_byte_characterization(s: Seq<u8>, b: u8)
    ensures
        match spec_find_byte(s, b) {
            Some(i) => 0 <= i < s.len() && s[i] == b && forall|k: int|
                0 <= k < i ==> s[k] != b,
            None => forall|k: int| 0 <= k < s.len() ==> s[k] != b,
        },
    decreases s.len(),
{
    if s.len() > 0 && s[0] != b {
        let sub = s.drop_first();
        lemma_find_byte_characterization(sub, b);
        match spec_find_byte(sub, b) {
            Some(i) => {
                assert(sub[i] == s[i + 1]);
                assert forall|k: int| 0 <= k < i + 1 implies s[k] != b by {
                    if k > 0 {
                        assert(sub[k - 1] != b);
                    }
                }
            },
            None => {
                assert forall|k: int| 0 <= k < s.len() implies s[k] != b by {
                    if k > 0 {
                        assert(sub[k - 1] != b);
                    }
                }
            },
        }
    }
}

/// A byte that stands at `i` with no earlier occurrence pins the result of
/// `spec_find_byte` to `i`.
pub proof fn lemma_find_byte_is(s: Seq<u8>, b: u8, i: int)
    requires
        0 <= i < s.len(),
        s[i] == b,
        forall|k: int| 0 <= k < i ==> s[k] != b,
    ensures
        spec_find_byte(s, b) == Some(i),
{
    lemma_find_byte_characterization(s, b);
    match spec_find_byte(s, b) {
        Some(j) => {
            if j < i {
                assert(s[j] == b);
            } else if j > i {
                assert(s[i] != b);
            }
        },
        None => {
            assert(s[i] != b);
        },
    }
}

/// The position of the first occurrence of `b` in `s`, if any.
pub fn find_byte(s: &[u8], b: u8) -> (r: Option<usize>)
    ensures
        match r {
            Some(i) => i < s@.len() && spec_find_byte(s@, b) == Some(i as int),
            None => spec_find_byte(s@, b) is None,
        },
{
    let mut i: usize = 0;
    while i < s.len()
        invariant
            0 <= i <= s@.len(),
            forall|k: int| 0 <= k < i ==> s@[k] != b,
        decreases s@.len() - i,
    {
        if s[i] == b {
            proof {
                lemma_find_byte_is(s@, b, i as int);
            }
            return Some(i);
        }
        i = i + 1;
    }
    proof {
        lemma_find_byte_characterization(s@, b);
        match spec_find_byte(s@, b) {
            Some(j) => {
                assert(s@[j] != b);
            },
            None => {},
        }
    }
    None
}

/// The bytes of the `bytes` unit token.
pub open spec fn bytes_unit() -> Seq<u8> {
    seq![98u8, 121u8, 116u8, 101u8, 115u8]
}

/// What parsing a `Range` header value yields. The value must hold exactly
/// one `=` splitting the unit token from the range token, the unit must be
/// the literal `bytes`, and the range token splits on its first `-` into an
/// optionally empty decimal start and end; a broken structure or wrong unit
/// is `MalformedRangeHeader`, a non-decimal or overlong boundary token is
/// `InvalidRangeNumber`.
pub open spec fn spec_parse_range(s: Seq<u8>) -> Result<AnyInclusiveRange<u64>, RangeError> {
    match spec_find_byte(s, 61) {
        None => Err(RangeError::MalformedRangeHeader),
        Some(eq) => {
            let unit = s.subrange(0, eq);
            let rest = s.subrange(eq + 1, s.len() as int);
            if unit != bytes_unit() {
                Err(RangeError::MalformedRangeHeader)
            } else {
                match spec_find_byte(rest, 45) {
                    None => Err(RangeError::MalformedRangeHeader),
                    Some(dash) => {
                        let start_tok = rest.subrange(0, dash);
                        let end_tok = rest.subrange(dash + 1, rest.len() as int);
                        if start_tok.len() == 0 && end_tok.len() == 0 {
                            Ok(AnyInclusiveRange::Full)
                        } else if end_tok.len() == 0 {
                            match spec_parse_u64(start_tok) {
                                Some(v) => Ok(AnyInclusiveRange::From { start: v }),
                                None => Err(RangeError::InvalidRangeNumber),
                            }
                        } else if start_tok.len() == 0 {
                            match spec_parse_u64(end_tok) {
                                Some(v) => Ok(AnyInclusiveRange::To { end: v }),
                                None => Err(RangeError::InvalidRangeNumber),
                            }
                        } else {
                            match (spec_parse_u64(start_tok), spec_parse_u64(end_tok)) {
                                (Some(s), Some(e)) => Ok(
                                    AnyInclusiveRange::FromTo { start: s, end: e },
                                ),
                                _ => Err(RangeError::InvalidRangeNumber),
                            }
                        }
                    },
                }
            }
        },
    }
}

/// Parses a `Range` header value into a typed range, per
/// [`spec_parse_range`].
pub fn parse_range_value(raw: &[u8]) -> (r: Result<AnyInclusiveRange<u64>, RangeError>)
    ensures
        r == spec_parse_range(raw@),
{
    // Split once on the first `=`
    let eq = match find_byte(raw, 61) {
        Some(i) => i,
        None => {
            return Err(RangeError::MalformedRangeHeader);
        },
    };
    let unit = slice_subrange(raw, 0, eq);

    // The unit token must be the literal `bytes`
    let unit_ok = unit.len() == 5 && *slice_index_get(unit, 0) == 98 && *slice_index_get(unit, 1)
        == 121 && *slice_index_get(unit, 2) == 116 && *slice_index_get(unit, 3) == 101
        && *slice_index_get(unit, 4) == 115;
    proof {
        if unit_ok {
            assert(unit@ =~= bytes_unit());
        } else {
            assert(unit@ != bytes_unit());
        }
    }
    if !unit_ok {
        return Err(RangeError::MalformedRangeHeader);
    }

    // Split the remainder once on the first `-`
    let rest = slice_subrange(raw, eq + 1, raw.len());
    let dash = match find_byte(rest, 45) {
        Some(i) => i,
        None => {
            return Err(RangeError::MalformedRangeHeader);
        },
    };
    let start_tok = slice_subrange(rest, 0, dash);
    let end_tok = slice_subrange(rest, dash + 1, rest.len());

    // Read the start and end tokens
    if start_tok.len() == 0 && end_tok.len() == 0 {
        Ok(AnyInclusiveRange::Full)
    } else if end_tok.len() == 0 {
        match parse_u64(start_tok) {
            Some(v) => Ok(AnyInclusiveRange::From { start: v }),
            None => Err(RangeError::InvalidRangeNumber),
        }
    } else if start_tok.len() == 0 {
        match parse_u64(end_tok) {
            Some(v) => Ok(AnyInclusiveRange::To { end: v }),
            None => Err(RangeError::InvalidRangeNumber),
        }
    } else {
        match (parse_u64(start_tok), parse_u64(end_tok)) {
            (Some(s), Some(e)) => Ok(AnyInclusiveRange::FromTo { start: s, end: e }),
            _ => Err(RangeError::InvalidRangeNumber),
        }
    }
}

/// The grammar reports only the two parse errors: a broken structure or
/// wrong unit, and a broken number.
pub proof fn lemma_parse_range_errors(s: Seq<u8>)
    ensures
        spec_parse_range(s) matches Err(e) ==> (e == RangeError::MalformedRangeHeader || e
            == RangeError::InvalidRangeNumber),
{
}

/// The request's `Range` field parsed into a typed range: `Ok(None)` where
/// the request carries no `Range` field, otherwise the field's bytes read
/// per [`spec_parse_range`]. What a request holds is opaque here, so the
/// contract promises only that the outcome is one the grammar produces;
/// [`parse_range_value`] carries the exact statement.
pub fn range<'a, const HEADER_SIZE_MAX: usize>(req: &Request<'a, HEADER_SIZE_MAX>) -> (r: Result<
    Option<AnyInclusiveRange<u64>>,
    RangeError,
>)
    ensures
        match r {
            Ok(Some(ar)) => exists|raw: Seq<u8>|
                spec_parse_range(raw) == Ok::<AnyInclusiveRange<u64>, RangeError>(ar),
            Ok(None) => true,
            Err(e) => (e == RangeError::MalformedRangeHeader || e
                == RangeError::InvalidRangeNumber) && exists|raw: Seq<u8>|
                spec_parse_range(raw) == Err::<AnyInclusiveRange<u64>, RangeError>(e),
        },
{
    // Get the range request
    let raw = match request_field_bytes(req, "Range") {
        Some(raw) => raw,
        None => {
            return Ok(None);
        },
    };

    // Parse the range header
    match parse_range_value(raw.as_slice()) {
        Ok(ar) => {
            proof {
                assert(spec_parse_range(raw@) == Ok::<AnyInclusiveRange<u64>, RangeError>(ar));
            }
            Ok(Some(ar))
        },
        Err(e) => {
            proof {
                assert(spec_parse_range(raw@) == Err::<AnyInclusiveRange<u64>, RangeError>(e));
                lemma_parse_range_errors(raw@);
            }
            Err(e)
        },
    }
}

/// The bytes of the header value `bytes=<start>-<end>`.
pub open spec fn spec_range_header(start: u64, end: u64) -> Seq<u8> {
    bytes_unit() + seq![61u8] + dec_digits(start as nat) + seq![45u8] + dec_digits(end as nat)
}

/// Round trip: for every interval `start <= end < total`, the header value
/// `bytes=<start>-<end>` parses to the doubly-bounded range carrying
/// exactly `(start, end)`, and resolving that range against the domain
/// `[0, total)` yields `(start, end)` again.
pub proof fn lemma_range_round_trip(start: u64, end: u64, total: u64)
    requires
        start <= end,
        end < total,
    ensures
        spec_parse_range(spec_range_header(start, end)) == Ok::<
            AnyInclusiveRange<u64>,
            RangeError,
        >(AnyInclusiveRange::FromTo { start, end }),
        (AnyInclusiveRange::FromTo { start, end }).spec_to_inclusive(0u64, (total - 1) as u64)
            == Ok::<(u64, u64), RangeError>((start, end)),
{
    let s = spec_range_header(start, end);
    let ds = dec_digits(start as nat);
    let de = dec_digits(end as nat);
    lemma_dec_digits_are_digits(start as nat);
    lemma_dec_digits_are_digits(end as nat);
    lemma_dec_digits_value(start as nat);
    lemma_dec_digits_value(end as nat);

    // The first `=` stands at index 5, right after the `bytes` unit token
    assert(s[5] == 61);
    assert forall|k: int| 0 <= k < 5 implies s[k] != 61 by {
        assert(s[k] == bytes_unit()[k]);
    }
    lemma_find_byte_is(s, 61, 5);
    assert(s.subrange(0, 5) =~= bytes_unit());

    // Behind the `=`, the first `-` stands right after the start digits
    let rest = s.subrange(6, s.len() as int);
    let dlen = ds.len() as int;
    assert(rest =~= ds + seq![45u8] + de);
    assert(rest[dlen] == 45);
    assert forall|k: int| 0 <= k < dlen implies rest[k] != 45 by {
        assert(rest[k] == ds[k]);
        assert(is_digit(ds[k]));
    }
    lemma_find_byte_is(rest, 45, dlen);

    // The two tokens are the rendered digits, which read back as the
    // numbers they were rendered from
    assert(rest.subrange(0, dlen) =~= ds);
    assert(rest.subrange(dlen + 1, rest.len() as int) =~= de);
    assert(spec_parse_u64(ds) == Some(start));
    assert(spec_parse_u64(de) == Some(end));
}

} // verus!
