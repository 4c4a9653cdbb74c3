//! The request methods the fuzz targets pick from.

use vstd::prelude::*;

verus! {

/// A request method that the framework names by a constant of its own
/// method type. The application layer turns each kind into that value; the
/// library only decides which one a fuzz input stands for.
#[derive(Clone, Copy, Debug, PartialEq, Eq, Structural)]
pub enum HttpMethodKind {
    Get,
    Post,
    Put,
    Delete,
    Patch,
    Head,
    Options,
    Query,
}

} // verus!
