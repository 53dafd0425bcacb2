//! Audio of a YouTube video: what is sent, and which thumbnail goes with it.
use vstd::prelude::*;

verus! {

/// An audio file to send, its title, and the file of its thumbnail if any.
pub struct AudioFile {
    pub file: String,
    pub title: String,
    pub thumb: Option<String>,
}

/// The thumbnail to fetch: the first one the video lists, if any.
pub fn thumbnail_to_fetch(thumbnails: &Vec<String>) -> (res: Option<String>)
    ensures
        thumbnails@.len() == 0 ==> res is None,
        thumbnails@.len() > 0 ==> (res matches Some(t) && t@ == thumbnails@[0]@),
{
    if thumbnails.len() == 0 {
        None
    } else {
        Some(thumbnails[0].clone())
    }
}

} // verus!
