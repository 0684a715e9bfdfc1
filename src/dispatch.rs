//! Routing of requests by method.

use vstd::prelude::*;
use vstd::string::StringExecFns;

verus! {

/// The engine a request goes to.
#[derive(Clone, Copy, Debug, PartialEq, Eq, Structural)]
pub enum Route {
    /// `GET`: a directory listing or a download.
    Download,
    /// `POST`: an upload.
    Upload,
    /// `DELETE`: a removal.
    Delete,
    /// Any other method, answered with 405.
    NotAllowed,
}

pub open spec fn route_of(method: Seq<char>) -> Route {
    if method == "GET"@ {
        Route::Download
    } else if method == "POST"@ {
        Route::Upload
    } else if method == "DELETE"@ {
        Route::Delete
    } else {
        Route::NotAllowed
    }
}

/// Routes a request by its method name.
pub fn route(method: &str) -> (r: Route)
    ensures
        r == route_of(method@),
{
    let m = String::from_str(method);
    if m == String::from_str("GET") {
        Route::Download
    } else if m == String::from_str("POST") {
        Route::Upload
    } else if m == String::from_str("DELETE") {
        Route::Delete
    } else {
        Route::NotAllowed
    }
}

/// The status of a request whose method no engine serves.
pub fn method_not_allowed_status() -> (r: u16)
    ensures
        r == 405,
{
    405
}

} // verus!
