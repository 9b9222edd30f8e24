//! The answers of Bangumi, as they are decoded. Scores and episode numbers
//! are kept in thousandths.

use vstd::prelude::*;

verus! {

/// The answer to a search.
#[derive(Debug)]
pub struct SearchResponse {
    pub list: Option<Vec<Subject>>,
    pub results: Option<i32>,
}

/// A subject: an anime series or movie.
#[derive(Debug)]
pub struct Subject {
    pub id: i32,
    pub subject_type: i32,
    pub name: String,
    pub name_cn: Option<String>,
    pub summary: Option<String>,
    pub date: Option<String>,
    pub air_date: Option<String>,
    pub images: Option<Images>,
    pub eps: Option<i32>,
    pub rating: Option<Rating>,
    pub tags: Option<Vec<Tag>>,
    pub infobox: Option<Vec<InfoBox>>,
}

/// The images of a subject, by size.
#[derive(Debug)]
pub struct Images {
    pub large: Option<String>,
    pub common: Option<String>,
    pub medium: Option<String>,
    pub small: Option<String>,
    pub grid: Option<String>,
}

/// The rating of a subject.
#[derive(Debug)]
pub struct Rating {
    pub score: Option<i64>,
    pub total: Option<i32>,
}

/// A tag of a subject.
#[derive(Debug)]
pub struct Tag {
    pub name: String,
    pub count: Option<i32>,
}

/// One entry of the info box of a subject.
#[derive(Debug)]
pub struct InfoBox {
    pub key: String,
    pub value: InfoBoxValue,
}

/// The value of an entry of the info box: a text, or a list of items.
#[derive(Debug)]
pub enum InfoBoxValue {
    String(String),
    Array(Vec<InfoBoxItem>),
}

/// One item of a list in the info box.
#[derive(Debug)]
pub struct InfoBoxItem {
    pub v: Option<String>,
}

/// An episode of a subject.
#[derive(Debug)]
pub struct Episode {
    pub id: i32,
    pub episode_type: i32,
    pub name: Option<String>,
    pub name_cn: Option<String>,
    pub sort: i64,
    pub ep: Option<i64>,
    pub airdate: Option<String>,
    pub duration: Option<String>,
    pub desc: Option<String>,
}

/// The episodes of a subject.
#[derive(Debug)]
pub struct EpisodesResponse {
    pub data: Vec<Episode>,
    pub total: i32,
}

/// The type of a subject that is an anime series.
pub const SUBJECT_TYPE_ANIME: i32 = 2;

/// The type of a subject that is a movie.
pub const SUBJECT_TYPE_MOVIE: i32 = 6;

} // verus!
