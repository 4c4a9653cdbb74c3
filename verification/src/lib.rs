//! Verified building blocks of the armature fuzzing harness: request-line
//! synthesis, the input shaping and limits each fuzz target applies before
//! handing data to the framework, and the tables the targets drive the
//! router with.

pub mod header_fields;
pub mod headers;
pub mod http_request;
pub mod http_response;
pub mod json_text;
pub mod method;
pub mod path_params;
pub mod query_params;
pub mod request_line;
pub mod routing;
pub mod text;
pub mod url_parsing;
