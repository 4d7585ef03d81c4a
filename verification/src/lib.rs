//! Datetime format compilation, parsing and rendering for document
//! ingestion.
//!
//! A pattern string — strptime-style or Java `SimpleDateFormat`-style — is
//! compiled once into a reusable [`StrptimeParser`]; input strings are
//! parsed into a canonical UTC [`UtcInstant`], and instants are rendered
//! back into one of several output representations. The
//! [`DateTimeInputFormat`] and [`DateTimeOutputFormat`] selectors dispatch
//! between the named standards, raw Unix timestamps and custom patterns,
//! under fixed case-insensitive short names.

pub mod formats;
pub mod infer;
pub mod instant;
pub mod java_format;
pub mod rest;
pub mod strptime;
pub mod text;
pub mod time_bridge;

pub use formats::DateTimeInputFormat;
pub use formats::DateTimeOutputFormat;
pub use formats::JsonValue;
pub use formats::is_strftime_formatting;
pub use infer::infer_year;
pub use instant::UtcInstant;
pub use java_format::FormatItem;
pub use java_format::resolve_java_datetime_format_alias;
pub use java_format::tokenize_java_pattern;
pub use rest::BodyFormat;
pub use rest::ConfigFormat;
pub use rest::RestResponse;
pub use rest::config_format_from_content_type;
pub use strptime::StrptimeParser;
