use vstd::prelude::*;
use crate::utils::compress::{Compress, compress_spec};

verus! {

/// The body a page is stored with: its text compressed, and nothing where
/// the page has no text or its compression failed.
pub fn stored_html(html: Option<&str>) -> (r: Option<Vec<u8>>)
    ensures
        match html {
            None => r is None,
            Some(text) => match compress_spec(text@) {
                Some(frame) => r is Some && r->Some_0@ == frame,
                None => r is None,
            },
        },
{
    match html {
        Some(text) => match text.compress() {
            Ok(frame) => Some(frame),
            Err(_) => None,
        },
        None => None,
    }
}

} // verus!
