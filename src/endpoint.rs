//! Where the portal is reached, and how the client introduces itself.
use vstd::prelude::*;

use crate::model::text_of;
use crate::text::{trim_slashes_at_end, trim_trailing_slashes};

verus! {

/// The portal's address, used when none is configured.
pub const API_BASE_URL: &'static str = "https://www.rika-firenet.com";

/// The user agent sent with every request; the portal was made for
/// browsers.
pub const FIREFOX_USER_AGENT: &'static str =
    "Mozilla/5.0 (X11; Linux x86_64; rv:110.0) Gecko/20100101 Firefox/110.0";

/// The base address requests are made against: the configured one, or the
/// portal's, without slashes at its end.
pub open spec fn base_url_spec(configured: Option<Seq<char>>) -> Seq<char> {
    trim_trailing_slashes(
        match configured {
            Some(url) => url,
            None => API_BASE_URL@,
        },
    )
}

/// The base address requests are made against: `configured`, or the
/// portal's, without slashes at its end.
pub fn base_url(configured: Option<String>) -> (r: String)
    ensures
        r@ == base_url_spec(text_of(configured)),
{
    match configured {
        Some(url) => trim_slashes_at_end(url.as_str()),
        None => trim_slashes_at_end(API_BASE_URL),
    }
}

} // verus!
