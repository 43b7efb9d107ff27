//! Node-level configuration. The surrounding node keeps the configured
//! gateway URL in its own storage; this module computes the byte form that
//! storage holds.

use vstd::prelude::*;
use vstd::slice::slice_to_vec;
use vstd::utf8::encode_utf8;

verus! {

/// Prepare the node's optional gateway URL for storage: the URL string
/// becomes its UTF-8 byte form, an absent URL stays absent.
pub fn init(geth_url: Option<String>) -> (r: Option<Vec<u8>>)
    ensures
        match geth_url {
            Some(url) => r is Some && r.unwrap()@ == encode_utf8(url@),
            None => r is None,
        },
{
    match geth_url {
        Some(url) => Some(slice_to_vec(url.as_str().as_bytes())),
        None => None,
    }
}

} // verus!
