//! URL normalization and the hand-off to the system browser.

use vstd::prelude::*;
use vstd::string::StringExecFns;
use crate::strutil::spec_starts_with;
use crate::strutil::starts_with_str;

verus! {

/// A bare host or path gets the secure scheme prefixed; a URL that already
/// names `http://` or `https://` is left unchanged.
pub open spec fn spec_normalize_url(u: Seq<char>) -> Seq<char> {
    if spec_starts_with(u, "https://"@) || spec_starts_with(u, "http://"@) {
        u
    } else {
        "https://"@ + u
    }
}

/// Prefixes `https://` when neither `http://` nor `https://` is already
/// present.
pub fn normalize_url(url: &str) -> (r: String)
    ensures
        r@ == spec_normalize_url(url@),
{
    if starts_with_str(url, "https://") || starts_with_str(url, "http://") {
        url.to_owned()
    } else {
        let mut r = "https://".to_owned();
        r.append(url);
        r
    }
}

/// Relies on webbrowser::open to hand a URL to the default browser. Whether
/// a browser accepts it depends on the environment, so nothing is promised
/// of the result.
#[verifier::external_body]
fn launch_browser(url: &str) -> bool {
    webbrowser::open(url).is_ok()
}

/// Normalizes `url` and hands it to the default browser. The result says
/// whether the browser accepted the URL; it depends on the environment.
pub fn open_url(url: &str) -> bool {
    let target = normalize_url(url);
    launch_browser(target.as_str())
}

} // verus!
