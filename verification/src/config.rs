//! The MMDS configuration payload and its decoding from the summarized
//! top-level object of a PUT `/config` body. The body must be a JSON object
//! holding nothing but an optional `ipv4_address` entry; the address, when
//! given as a string, must be a syntactically valid IPv4 address; a null or
//! absent address asks for a reset to the default.

use vstd::prelude::*;
use vstd::string::StringExecFns;

use crate::ipv4::{ipv4_text_ok, is_ipv4_text};
use crate::json::fields_view;
use crate::text::str_eq;

verus! {

/// The service's network configuration: at most an IPv4 address; `None`
/// resets the address to its default.
#[derive(Clone, Debug, PartialEq)]
pub struct MmdsConfig {
    pub ipv4_address: Option<String>,
}

impl View for MmdsConfig {
    type V = Option<Seq<char>>;

    open spec fn view(&self) -> Option<Seq<char>> {
        match self.ipv4_address {
            Some(a) => Some(a@),
            None => None,
        }
    }
}

/// The configuration decoded from the summarized entries of the body's
/// top-level object, or `None` when the entries do not decode: an entry
/// other than `ipv4_address`, more than one entry, a value that is neither
/// null nor a string, or a string that is not a valid IPv4 address.
pub open spec fn spec_config_of_fields(fs: Seq<(Seq<char>, bool, Option<Seq<char>>)>) -> Option<
    Option<Seq<char>>,
> {
    if fs.len() == 0 {
        Some(None)
    } else if fs.len() == 1 && fs[0].0 == "ipv4_address"@ {
        if fs[0].1 {
            Some(None)
        } else {
            match fs[0].2 {
                Some(a) => if ipv4_text_ok(a) {
                    Some(Some(a))
                } else {
                    None
                },
                None => None,
            }
        }
    } else {
        None
    }
}

/// Decodes a configuration from the summarized entries of the body's
/// top-level object.
pub fn config_from_fields(fields: &Vec<(String, bool, Option<String>)>) -> (r: Result<
    MmdsConfig,
    String,
>)
    ensures
        match spec_config_of_fields(fields_view(fields@)) {
            Some(addr) => r matches Ok(c) && c@ == addr,
            None => r is Err,
        },
{
    if fields.len() == 0 {
        return Ok(MmdsConfig { ipv4_address: None });
    }
    if fields.len() == 1 {
        let f = &fields[0];
        if str_eq(f.0.as_str(), "ipv4_address") {
            if f.1 {
                return Ok(MmdsConfig { ipv4_address: None });
            }
            match &f.2 {
                Some(a) => {
                    if is_ipv4_text(a.as_str()) {
                        return Ok(MmdsConfig { ipv4_address: Some(a.clone()) });
                    }
                    return Err(String::from_str("the `ipv4_address` field is not a valid IPv4 address"));
                },
                None => {
                    return Err(String::from_str("the `ipv4_address` field must be a string or null"));
                },
            }
        }
        return Err(String::from_str("the configuration body holds an unknown field"));
    }
    Err(String::from_str("the configuration body holds an unknown field"))
}

} // verus!
