//! Translation of inbound MMDS control-plane requests (HTTP method, an
//! optional second path token, and a raw body) into a small closed set of
//! typed actions, with exact error classification and request counters.

mod config;
mod ipv4;
mod json;
mod metrics;
mod request;
mod text;
mod version;

pub use config::{config_from_fields, MmdsConfig};
pub use ipv4::is_ipv4_text;
pub use json::{json_object_fields, json_ok};
pub use metrics::MmdsMetrics;
pub use request::{
    parse_get_mmds, parse_patch_mmds, parse_put_mmds, Action, Body, Error, ExecutionMode,
    ParsedRequest, StatusCode,
};
pub use text::{str_eq, unrecognized_message};
pub use version::{version_from_fields, MmdsVersion};
