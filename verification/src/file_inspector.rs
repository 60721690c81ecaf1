//! The file inspector: a small web service that lists the files under a data path.

use vstd::prelude::*;
use crate::text::{contains, contains_text, strip_all, trim_start_matches};

verus! {

/// The HTTP methods of a request.
pub enum HttpMethod {
    Get,
    Put,
    Post,
    Delete,
    Options,
    Head,
    Trace,
    Connect,
    Patch,
}

/// The fairing that lets any origin read the service's answers.
pub struct CORS {}

impl CORS {
    /// Whether the answer to a request with this method gets the
    /// `Access-Control-Allow-Origin: *` header: only GET and POST requests do.
    pub fn applies_to(&self, method: &HttpMethod) -> (r: bool)
        ensures
            r == (*method is Get || *method is Post),
    {
        match method {
            HttpMethod::Get => true,
            HttpMethod::Post => true,
            _ => false,
        }
    }
}

/// A path found while walking the data directory is listed (or entered)
/// unless it holds `..`.
pub fn is_listed_path(path: &str) -> (r: bool)
    ensures
        r == !contains_text(path@, ".."@),
{
    !contains(path, "..")
}

/// The entries relative to `path`: each with every leading `path/` removed.
pub fn get_entries(entries: Vec<String>, path: &str) -> (r: Vec<String>)
    ensures
        r@.len() == entries@.len(),
        forall|i: int| 0 <= i < r@.len() ==> (#[trigger] r@[i])@ == strip_all(entries@[i]@, path@ + "/"@),
{
    let mut prefix = String::from_str(path);
    prefix.append("/");
    let mut out: Vec<String> = Vec::new();
    let n = entries.len();
    let mut i: usize = 0;
    while i < n
        invariant
            n == entries@.len(),
            i <= n,
            prefix@ == path@ + "/"@,
            out@.len() == i,
            forall|k: int| 0 <= k < i ==> (#[trigger] out@[k])@ == strip_all(entries@[k]@, path@ + "/"@),
        decreases n - i,
    {
        out.push(trim_start_matches(entries[i].as_str(), prefix.as_str()));
        i = i + 1;
    }
    out
}

} // verus!
