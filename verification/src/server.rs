//! What the embedded asset server decides: the address it listens on and the asset that a
//! request path stands for.

use vstd::prelude::*;
use vstd::string::*;
use crate::content::{HTTPS_SCHEME, HTTP_SCHEME, INDEX_FILE_PATH};
use crate::text::{replace, replaced, same_text};

verus! {

/// The root path of a request.
pub const ROOT_PATH: &'static str = "/";

/// The address to listen on for a server address: the same without `http://` and
/// `https://`, wherever they stand.
pub open spec fn listen_address(server_url: Seq<char>) -> Seq<char> {
    replaced(replaced(server_url, HTTP_SCHEME@, Seq::empty()), HTTPS_SCHEME@, Seq::empty())
}

/// The asset that a request path stands for: the entry document for the root path, else
/// the path itself.
pub open spec fn asset_of(request_path: Seq<char>) -> Seq<char> {
    if request_path == ROOT_PATH@ {
        INDEX_FILE_PATH@
    } else {
        request_path
    }
}

/// The address on which the asset server listens for `server_url`.
pub fn server_address(server_url: &str) -> (address: String)
    ensures
        address@ == listen_address(server_url@),
{
    proof {
        reveal_strlit("");
    }
    assert(""@ =~= Seq::<char>::empty());
    let without_http = replace(server_url, HTTP_SCHEME, "");
    replace(without_http.as_str(), HTTPS_SCHEME, "")
}

/// The key under which the asset for a request path is looked up.
pub fn asset_path(request_path: &str) -> (asset: String)
    ensures
        asset@ == asset_of(request_path@),
{
    if same_text(request_path, ROOT_PATH) {
        String::from_str(INDEX_FILE_PATH)
    } else {
        String::from_str(request_path)
    }
}

} // verus!
