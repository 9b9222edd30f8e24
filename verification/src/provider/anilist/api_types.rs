//! The answers of AniList, as they are decoded.

use vstd::prelude::*;
use crate::text::{append_chars, padded, padded_text, string_of};

verus! {

/// The envelope of every answer.
#[derive(Debug)]
pub struct GraphQLResponse<T> {
    pub data: Option<T>,
    pub errors: Option<Vec<GraphQLError>>,
}

/// An error that an answer reports.
#[derive(Debug)]
pub struct GraphQLError {
    pub message: String,
}

/// The data of an answer to a search.
#[derive(Debug)]
pub struct SearchData {
    pub page: Page,
}

/// One page of anime.
#[derive(Debug)]
pub struct Page {
    pub media: Vec<Media>,
}

/// The data of an answer that holds one anime.
#[derive(Debug)]
pub struct MediaData {
    pub media: Media,
}

/// An anime, with as much of it as the query asked for.
#[derive(Debug)]
pub struct Media {
    pub id: i32,
    pub title: Title,
    pub format: Option<String>,
    pub status: Option<String>,
    pub description: Option<String>,
    pub season: Option<String>,
    pub season_year: Option<i32>,
    pub episodes: Option<i32>,
    pub duration: Option<i32>,
    pub cover_image: Option<CoverImage>,
    pub banner_image: Option<String>,
    pub average_score: Option<i32>,
    pub popularity: Option<i32>,
    pub genres: Option<Vec<String>>,
    pub tags: Option<Vec<Tag>>,
    pub studios: Option<Studios>,
    pub start_date: Option<FuzzyDate>,
    pub end_date: Option<FuzzyDate>,
    pub id_mal: Option<i32>,
    pub synonyms: Option<Vec<String>>,
    pub characters: Option<Characters>,
    pub staff: Option<Staff>,
}

/// The titles of an anime.
#[derive(Debug)]
pub struct Title {
    pub romaji: Option<String>,
    pub english: Option<String>,
    pub native: Option<String>,
}

/// The cover of an anime, in two sizes.
#[derive(Debug)]
pub struct CoverImage {
    pub large: Option<String>,
    pub extra_large: Option<String>,
}

/// A tag of an anime and how well it fits, out of a hundred.
#[derive(Debug)]
pub struct Tag {
    pub name: String,
    pub rank: Option<i32>,
}

/// The studios of an anime.
#[derive(Debug)]
pub struct Studios {
    pub nodes: Vec<Studio>,
}

/// A studio.
#[derive(Debug)]
pub struct Studio {
    pub name: String,
    pub is_animation_studio: bool,
}

/// A date of which the month and the day may be unknown.
#[derive(Clone, Copy, Debug, PartialEq, Eq, Structural)]
pub struct FuzzyDate {
    pub year: Option<i32>,
    pub month: Option<i32>,
    pub day: Option<i32>,
}

/// A date as text: the year in four digits, then the month and the day in
/// two digits each as far as they are known, with hyphens between them.
/// There is no text for a date without a year, nor for one with a day and no
/// month.
pub open spec fn date_text(date: FuzzyDate) -> Option<Seq<char>> {
    match (date.year, date.month, date.day) {
        (Some(y), Some(m), Some(d)) => Some(
            padded_text(y as int, 4) + seq!['-'] + padded_text(m as int, 2) + seq!['-']
                + padded_text(d as int, 2),
        ),
        (Some(y), Some(m), None) => Some(
            padded_text(y as int, 4) + seq!['-'] + padded_text(m as int, 2),
        ),
        (Some(y), None, None) => Some(padded_text(y as int, 4)),
        _ => None,
    }
}

impl FuzzyDate {
    /// The date as text, as far as it is known.
    pub fn to_string(&self) -> (r: Option<String>)
        ensures
            r.deep_view() == date_text(*self),
    {
        match (self.year, self.month, self.day) {
            (Some(y), Some(m), Some(d)) => {
                let mut out = padded(y as i64, 4);
                out.push('-');
                let month = padded(m as i64, 2);
                append_chars(&mut out, month.as_slice());
                out.push('-');
                let day = padded(d as i64, 2);
                append_chars(&mut out, day.as_slice());
                assert(out@ =~= padded_text(y as int, 4) + seq!['-'] + padded_text(m as int, 2)
                    + seq!['-'] + padded_text(d as int, 2));
                Some(string_of(out.as_slice()))
            },
            (Some(y), Some(m), None) => {
                let mut out = padded(y as i64, 4);
                out.push('-');
                let month = padded(m as i64, 2);
                append_chars(&mut out, month.as_slice());
                assert(out@ =~= padded_text(y as int, 4) + seq!['-'] + padded_text(m as int, 2));
                Some(string_of(out.as_slice()))
            },
            (Some(y), None, None) => {
                let out = padded(y as i64, 4);
                Some(string_of(out.as_slice()))
            },
            _ => None,
        }
    }
}

/// The characters of an anime.
#[derive(Debug)]
pub struct Characters {
    pub edges: Vec<CharacterEdge>,
}

/// A character, its role and its voice actors.
#[derive(Debug)]
pub struct CharacterEdge {
    pub node: Character,
    pub role: Option<String>,
    pub voice_actors: Option<Vec<VoiceActor>>,
}

/// A character.
#[derive(Debug)]
pub struct Character {
    pub id: i32,
    pub name: CharacterName,
    pub image: Option<CharacterImage>,
}

/// The name of a character or a person.
#[derive(Debug)]
pub struct CharacterName {
    pub full: Option<String>,
}

/// The image of a character or a person.
#[derive(Debug)]
pub struct CharacterImage {
    pub large: Option<String>,
}

/// A voice actor.
#[derive(Debug)]
pub struct VoiceActor {
    pub id: i32,
    pub name: CharacterName,
    pub image: Option<CharacterImage>,
    pub language: Option<String>,
}

/// The staff of an anime.
#[derive(Debug)]
pub struct Staff {
    pub edges: Vec<StaffEdge>,
}

/// A member of the staff and the role.
#[derive(Debug)]
pub struct StaffEdge {
    pub node: StaffNode,
    pub role: Option<String>,
}

/// A member of the staff.
#[derive(Debug)]
pub struct StaffNode {
    pub id: i32,
    pub name: CharacterName,
    pub image: Option<CharacterImage>,
}

} // verus!
