//! The files of the web interface.

use crate::text::{strip_prefix, after_prefix};
use vstd::prelude::*;

verus! {

/// The page that is served where no file is named.
pub const INDEX: &'static str = "index.html";

/// How long a browser may keep a file.
pub const CACHE_CONTROL: &'static str = "public, max-age=3600";

/// The file that a path under `/admin/` names.
pub open spec fn named_file(path: Seq<char>) -> Seq<char> {
    match after_prefix(path, "/admin/"@) {
        Some(rest) => rest,
        None => path,
    }
}

/// The file that a path under `/admin/` names.
pub fn asset_name(path: &str) -> (r: &str)
    ensures
        r@ == named_file(path@),
{
    match strip_prefix(path, "/admin/") {
        Some(rest) => rest,
        None => path,
    }
}

/// The file that is served for a path. `known` says whether there is a file with
/// the name that the path gives. Any other path is left to the page itself.
pub fn admin_asset<'a>(path: &'a str, known: bool) -> (r: &'a str)
    ensures
        r@ == if known && named_file(path@).len() > 0 {
            named_file(path@)
        } else {
            INDEX@
        },
{
    let name: &str = asset_name(path);
    if known && name.unicode_len() > 0 {
        name
    } else {
        INDEX
    }
}

/// The media type that a file's name suggests.
pub uninterp spec fn suggested_type(name: Seq<char>) -> Seq<char>;

/// Calls `mime_guess::from_path` and takes the first guess, or else the type of
/// bytes of any kind; the result is named.
#[verifier::external_body]
fn guess_type(name: &str) -> (r: String)
    ensures
        r@ == suggested_type(name@),
{
    mime_guess::from_path(name).first_or_octet_stream().to_string()
}

/// The headers that a file is served with.
#[derive(Clone, Debug, PartialEq, Eq)]
pub struct AssetHeaders {
    pub content_type: String,
    pub cache_control: &'static str,
}

/// The headers that a file is served with.
pub fn serve_embedded(name: &str) -> (r: AssetHeaders)
    ensures
        r.content_type@ == suggested_type(name@),
        r.cache_control == CACHE_CONTROL,
{
    AssetHeaders { content_type: guess_type(name), cache_control: CACHE_CONTROL }
}

} // verus!
