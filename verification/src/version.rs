//! The protocol version tag and its decoding from the summarized top-level
//! object of a PUT `/version` body: an object holding exactly one entry,
//! `version`, whose value is the string of one of the supported tags.

use vstd::prelude::*;
use vstd::string::StringExecFns;

use crate::json::fields_view;
use crate::text::str_eq;

verus! {

/// The supported protocol version identifiers.
#[derive(Clone, Copy, Debug, PartialEq, Eq, Structural)]
pub enum MmdsVersion {
    V1,
    V2,
}

/// The version decoded from the summarized entries of the body's top-level
/// object, or `None` when the entries do not decode: anything but exactly
/// one `version` entry whose value is the string "V1" or "V2".
pub open spec fn spec_version_of_fields(fs: Seq<(Seq<char>, bool, Option<Seq<char>>)>) -> Option<
    MmdsVersion,
> {
    if fs.len() == 1 && fs[0].0 == "version"@ && !fs[0].1 {
        match fs[0].2 {
            Some(t) => if t == "V1"@ {
                Some(MmdsVersion::V1)
            } else if t == "V2"@ {
                Some(MmdsVersion::V2)
            } else {
                None
            },
            None => None,
        }
    } else {
        None
    }
}

/// Decodes a version tag from the summarized entries of the body's
/// top-level object.
pub fn version_from_fields(fields: &Vec<(String, bool, Option<String>)>) -> (r: Result<
    MmdsVersion,
    String,
>)
    ensures
        match spec_version_of_fields(fields_view(fields@)) {
            Some(v) => r == Ok::<MmdsVersion, String>(v),
            None => r is Err,
        },
{
    if fields.len() == 1 {
        let f = &fields[0];
        if str_eq(f.0.as_str(), "version") && !f.1 {
            match &f.2 {
                Some(t) => {
                    if str_eq(t.as_str(), "V1") {
                        return Ok(MmdsVersion::V1);
                    }
                    if str_eq(t.as_str(), "V2") {
                        return Ok(MmdsVersion::V2);
                    }
                    return Err(String::from_str("the `version` field names an unsupported version"));
                },
                None => {
                    return Err(String::from_str("the `version` field must be a string"));
                },
            }
        }
        return Err(String::from_str("the version body must hold exactly a `version` field"));
    }
    Err(String::from_str("the version body must hold exactly a `version` field"))
}

} // verus!
