//! The HTTP status codes that protocol decisions answer with.

use vstd::prelude::*;

verus! {

pub const ACCEPTED: u16 = 202;

pub const BAD_REQUEST: u16 = 400;

/// The request's signature does not hold.
pub const UNAUTHORIZED: u16 = 401;

pub const NOT_FOUND: u16 = 404;

pub const NOT_ACCEPTABLE: u16 = 406;

pub const UNSUPPORTED_MEDIA_TYPE: u16 = 415;

/// The server's own configuration or state is unusable.
pub const INTERNAL_SERVER_ERROR: u16 = 500;

/// A remote server could not be reached or answered wrongly.
pub const BAD_GATEWAY: u16 = 502;

} // verus!
