//! Where a webcam's snapshot is fetched from.
use vstd::prelude::*;

use super::api::WebCamInformation;

verus! {

/// Whether a URL is relative to the daemon's host.
pub open spec fn is_host_relative(url: Seq<char>) -> bool {
    url.len() > 0 && url[0] == '/'
}

/// The snapshot URL with a host-relative one qualified by the daemon's host.
pub open spec fn qualified_url(host: Seq<char>, url: Seq<char>) -> Seq<char> {
    if is_host_relative(url) {
        "http://"@ + host + url
    } else {
        url
    }
}

/// Qualifies a host-relative snapshot URL with the daemon's host; any other
/// URL is kept as it is.
pub fn qualify_snapshot_url(host: &str, info: WebCamInformation) -> (r: WebCamInformation)
    ensures
        r.snapshot_url@ == qualified_url(host@, info.snapshot_url@),
{
    let url = info.snapshot_url;
    let relative = url.as_str().unicode_len() > 0 && url.as_str().get_char(0) == '/';
    if relative {
        WebCamInformation {
            snapshot_url: String::from_str("http://").concat(host).concat(url.as_str()),
        }
    } else {
        WebCamInformation { snapshot_url: url }
    }
}

} // verus!
