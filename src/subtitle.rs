//! What remote services return about subtitles.

use vstd::prelude::*;

verus! {

/// A subtitle candidate found by a search.
pub struct Subtitle {
    pub id: i32,
    pub language: String,
    pub source: String,
    pub quality: i32,
    pub file: String,
    pub url: String,
    pub date: String,
}

/// A TV show.
pub struct Show {
    pub id: i32,
    pub title: String,
}

/// A TV episode with the subtitles known for it.
pub struct Episode {
    pub id: i32,
    pub title: String,
    pub season: i32,
    pub episode: i32,
    pub code: String,
    pub description: String,
    pub date: String,
    pub subtitles: Vec<Subtitle>,
    pub show: Show,
}

} // verus!
