//! Which behaviour a request path selects.

use crate::percent::{decode_name, decoded_name};
use vstd::prelude::*;
use vstd::string::*;

verus! {

/// The path of the listing page, and the beginning of the path of a file.
pub const FILES_ROOT: &'static str = "/files/";

/// What a request path asks for.
#[derive(Clone, Debug, PartialEq, Eq)]
pub enum Route {
    /// The listing page.
    Listing,
    /// The file with this name.
    Serve { name: String },
    /// A file, under a name that does not decode to text.
    InvalidName,
    /// Nothing that the gateway offers.
    Unknown,
}

/// A [`Route`] as a value of specifications.
pub enum RouteView {
    Listing,
    Serve { name: Seq<char> },
    InvalidName,
    Unknown,
}

impl View for Route {
    type V = RouteView;

    open spec fn view(&self) -> RouteView {
        match *self {
            Route::Listing => RouteView::Listing,
            Route::Serve { name } => RouteView::Serve { name: name@ },
            Route::InvalidName => RouteView::InvalidName,
            Route::Unknown => RouteView::Unknown,
        }
    }
}

/// The route of a path. The path of the listing page selects the listing. A
/// longer path that begins with it selects the file whose name the rest of
/// the path spells, percent-encoded. Every other path selects nothing.
pub open spec fn routed(path: Seq<char>) -> RouteView {
    if path == FILES_ROOT@ {
        RouteView::Listing
    } else if FILES_ROOT@.is_prefix_of(path) {
        match decoded_name(path.skip(FILES_ROOT@.len() as int)) {
            Some(name) => RouteView::Serve { name },
            None => RouteView::InvalidName,
        }
    } else {
        RouteView::Unknown
    }
}

/// Selects the route of a request path.
pub fn route(path: &str) -> (selected: Route)
    ensures
        selected@ == routed(path@),
{
    proof {
        reveal_strlit("/files/");
    }
    let length = path.unicode_len();
    if length < 7 {
        return Route::Unknown;
    }
    let head = String::from_str(path.substring_char(0, 7));
    if !(head == String::from_str(FILES_ROOT)) {
        assert(path@ == FILES_ROOT@ ==> path@.subrange(0, 7) =~= path@);
        return Route::Unknown;
    }
    if length == 7 {
        assert(path@ =~= path@.subrange(0, 7));
        return Route::Listing;
    }
    let rest = path.substring_char(7, length);
    assert(rest@ =~= path@.skip(7));
    match decode_name(rest) {
        Some(name) => Route::Serve { name },
        None => Route::InvalidName,
    }
}

} // verus!
