//! Body output formats for a REST API: the requested rendering of a
//! response body, and the configuration format a request's media type
//! selects.

use crate::text::str_eq;
use vstd::prelude::*;

verus! {

/// Body output format used for the REST API.
#[derive(Clone, Copy, Debug, PartialEq, Eq, Structural)]
pub enum BodyFormat {
    Json,
    PrettyJson,
}

/// The canonical name of a body format, as it appears in a query string.
pub open spec fn body_format_name(f: BodyFormat) -> Seq<char> {
    match f {
        BodyFormat::Json => "json"@,
        BodyFormat::PrettyJson => "pretty_json"@,
    }
}

/// A value that can render itself as response-body bytes in a requested
/// format. How a value encodes itself is the implementor's affair; an
/// error means the value could not be serialized.
pub trait RestResponse {
    fn format(&self, body_format: BodyFormat) -> Result<Vec<u8>, ()>;
}

impl BodyFormat {
    /// The canonical rendering of this body format.
    pub fn as_str(&self) -> (r: &str)
        ensures
            r@ == body_format_name(*self),
    {
        match self {
            BodyFormat::Json => "json",
            BodyFormat::PrettyJson => "pretty_json",
        }
    }

    /// Renders whichever side a result holds, in this body format.
    pub fn result_to_vec<T: RestResponse, E: RestResponse>(&self, result: &Result<T, E>) -> Result<
        Vec<u8>,
        (),
    > {
        match result {
            Ok(value) => value.format(*self),
            Err(err) => err.format(*self),
        }
    }
}

impl Default for BodyFormat {
    /// The default body format is pretty-printed JSON.
    fn default() -> (r: Self)
        ensures
            r matches BodyFormat::PrettyJson,
    {
        BodyFormat::PrettyJson
    }
}

/// The configuration formats a request body may arrive in.
#[derive(Clone, Copy, Debug, PartialEq, Eq, Structural)]
pub enum ConfigFormat {
    Json,
    Toml,
    Yaml,
}

/// Selects the configuration format that a request's content-type subtype
/// names: `json`, `toml` or `yaml`. A request without a content type
/// defaults to JSON; any other subtype is unsupported and yields nothing.
pub fn config_format_from_content_type(subtype: Option<&str>) -> (r: Option<ConfigFormat>)
    ensures
        match subtype {
            None => r == Some(ConfigFormat::Json),
            Some(s) => r == (if s@ == "json"@ {
                Some(ConfigFormat::Json)
            } else if s@ == "toml"@ {
                Some(ConfigFormat::Toml)
            } else if s@ == "yaml"@ {
                Some(ConfigFormat::Yaml)
            } else {
                None::<ConfigFormat>
            }),
        },
{
    match subtype {
        None => Some(ConfigFormat::Json),
        Some(s) => {
            if str_eq(s, "json") {
                Some(ConfigFormat::Json)
            } else if str_eq(s, "toml") {
                Some(ConfigFormat::Toml)
            } else if str_eq(s, "yaml") {
                Some(ConfigFormat::Yaml)
            } else {
                None
            }
        },
    }
}

} // verus!
