//! Normalization of the loosely-shaped "ajax" response family.
//!
//! The provider's own API is inconsistent across these sub-operations, so the
//! body is probed by an ordered list of extraction rules: a boolean
//! `has_phone` field wins, else a boolean `success` field, else the result is
//! `false` with no error. The probing order is a deliberate compatibility
//! policy.

use crate::error::ApiError;
use crate::raw::json_accepts;
use crate::raw::json_field_bool;
use crate::raw::json_field_bool_of;
use crate::raw::json_parses;
use vstd::prelude::*;

verus! {

/// What probing one field of a loosely-typed response found.
#[derive(Clone, Copy, Debug, PartialEq, Eq, Structural)]
pub enum FieldProbe {
    /// The field is absent or null.
    Missing,
    /// The field is a boolean.
    Bool(bool),
    /// The field is present but not a boolean.
    NonBool,
}

/// The probing policy: `has_phone` first, then `success`, else `false`;
/// nothing when the winning field is present but not a boolean.
pub open spec fn spec_probe_ajax(has_phone: FieldProbe, success: FieldProbe) -> Option<bool> {
    match has_phone {
        FieldProbe::Bool(b) => Some(b),
        FieldProbe::NonBool => None,
        FieldProbe::Missing => match success {
            FieldProbe::Bool(b) => Some(b),
            FieldProbe::NonBool => None,
            FieldProbe::Missing => Some(false),
        },
    }
}

/// Applies the probing policy to the two field probes of an ajax response.
pub fn probe_ajax(has_phone: FieldProbe, success: FieldProbe) -> (r: Result<bool, ApiError>)
    ensures
        match r {
            Ok(b) => spec_probe_ajax(has_phone, success) == Some(b),
            Err(e) => spec_probe_ajax(has_phone, success) is None && (e matches ApiError::Decode(m)
                && m@ == (if has_phone is NonBool {
                "failed to parse has_phone field into boolean"@
            } else {
                "failed to parse success field into boolean"@
            })),
        },
{
    match has_phone {
        FieldProbe::Bool(b) => Ok(b),
        FieldProbe::NonBool => Err(
            ApiError::Decode("failed to parse has_phone field into boolean".to_owned()),
        ),
        FieldProbe::Missing => match success {
            FieldProbe::Bool(b) => Ok(b),
            FieldProbe::NonBool => Err(
                ApiError::Decode("failed to parse success field into boolean".to_owned()),
            ),
            FieldProbe::Missing => Ok(false),
        },
    }
}

/// The field probe one extraction outcome stands for: absent or null counts
/// as missing.
pub open spec fn probe_of(x: Option<Option<bool>>) -> FieldProbe {
    match x {
        None => FieldProbe::Missing,
        Some(inner) => match inner {
            Some(b) => FieldProbe::Bool(b),
            None => FieldProbe::NonBool,
        },
    }
}

/// Converts one extraction outcome into its field probe.
fn field_probe(x: Option<Option<bool>>) -> (r: FieldProbe)
    ensures
        r == probe_of(x),
{
    match x {
        None => FieldProbe::Missing,
        Some(inner) => match inner {
            Some(b) => FieldProbe::Bool(b),
            None => FieldProbe::NonBool,
        },
    }
}

/// Decodes the body of an ajax response: a body that is not JSON is a decode
/// error carrying the raw body; a JSON body is probed for its `has_phone` and
/// `success` fields and answered exactly by the policy above.
pub fn decode_phoneajax(body: &str) -> (r: Result<bool, ApiError>)
    ensures
        !json_parses(body@) ==> (r matches Err(e) && e matches ApiError::Decode(m) && m@ == body@),
        json_parses(body@) ==> (match r {
            Ok(b) => spec_probe_ajax(
                probe_of(json_field_bool_of(body@, "has_phone"@)),
                probe_of(json_field_bool_of(body@, "success"@)),
            ) == Some(b),
            Err(e) => spec_probe_ajax(
                probe_of(json_field_bool_of(body@, "has_phone"@)),
                probe_of(json_field_bool_of(body@, "success"@)),
            ) is None && (e matches ApiError::Decode(m) && m@ == (if probe_of(
                json_field_bool_of(body@, "has_phone"@),
            ) is NonBool {
                "failed to parse has_phone field into boolean"@
            } else {
                "failed to parse success field into boolean"@
            })),
        }),
{
    if !json_accepts(body) {
        return Err(ApiError::Decode(body.to_owned()));
    }
    let has_phone = field_probe(json_field_bool(body, "has_phone"));
    let success = field_probe(json_field_bool(body, "success"));
    probe_ajax(has_phone, success)
}

} // verus!
