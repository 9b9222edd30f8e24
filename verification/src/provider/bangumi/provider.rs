//! The requests that go to Bangumi and the reading of its answers.

use vstd::prelude::*;
use vstd::string::StringSliceAdditionalSpecFns;
use super::api_types::{
    Episode, EpisodesResponse, Images, InfoBox, InfoBoxItem, InfoBoxValue, Rating,
    SearchResponse, Subject, Tag, SUBJECT_TYPE_ANIME, SUBJECT_TYPE_MOVIE,
};
use crate::error::{concat, no_results_text, ScraperError, ScraperErrorView};
use crate::types::info_views;
use crate::provider::common::{
    date_year, decimal_string, field_before, take_field, year_of_date,
};
use crate::provider::traits::{MetadataProvider, SearchOptions};
use crate::text::{same_str, 
    chars_of, decimal_text, is_digit, natural_text, parse_i32,
    parsed_i32, string_of, unsigned_decimal,
};
use crate::types::{
    person_views, EpisodeInfo, EpisodeInfoView, ExternalIds, ExternalIdsView, ImageSet,
    ImageSetView, MediaInfo, MediaInfoView, MediaMetadata, MediaMetadataView, MediaType,
    PersonInfo, PersonInfoView,
};

verus! {

/// Where the API lives.
pub const BANGUMI_API_URL: &'static str = "https://api.bgm.tv";

/// Whether a byte stands for itself in a percent-encoded text: the ASCII
/// letters and digits, and `-`, `.`, `_`, `~`.
pub open spec fn unreserved(b: u8) -> bool {
    ||| 0x30 <= b <= 0x39
    ||| 0x41 <= b <= 0x5A
    ||| 0x61 <= b <= 0x7A
    ||| b == 0x2D
    ||| b == 0x2E
    ||| b == 0x5F
    ||| b == 0x7E
}

/// The hexadecimal digit of a value from 0 to 15, in upper case.
pub open spec fn hex_digit(d: int) -> char {
    seq!['0', '1', '2', '3', '4', '5', '6', '7', '8', '9', 'A', 'B', 'C', 'D', 'E', 'F'][d]
}

/// How one byte is written in a percent-encoded text.
pub open spec fn escaped(b: u8) -> Seq<char> {
    if unreserved(b) {
        seq![b as char]
    } else {
        seq!['%', hex_digit(b as int / 16), hex_digit(b as int % 16)]
    }
}

/// The percent-encoded form of a sequence of bytes.
pub open spec fn percent_encoded(bytes: Seq<u8>) -> Seq<char>
    decreases bytes.len(),
{
    if bytes.len() == 0 {
        Seq::empty()
    } else {
        percent_encoded(bytes.drop_last()) + escaped(bytes.last())
    }
}

/// Calls `urlencoding::encode`, which percent-encodes every byte of the
/// text's UTF-8 form except the ASCII letters and digits and `-`, `_`, `.`,
/// `~`, with hexadecimal digits in upper case.
#[verifier::external_body]
fn url_encode(text: &str) -> (r: String)
    ensures
        r@ == percent_encoded(text.spec_bytes()),
{
    urlencoding::encode(text).into_owned()
}

/// A text that is set and not empty.
pub open spec fn non_empty(t: Option<Seq<char>>) -> Option<Seq<char>> {
    match t {
        Some(s) => if s.len() > 0 {
            t
        } else {
            None
        },
        None => None,
    }
}

/// The first of two options that is set.
pub open spec fn or_else(first: Option<Seq<char>>, second: Option<Seq<char>>) -> Option<Seq<char>> {
    if first is Some {
        first
    } else {
        second
    }
}

/// The title of a subject: the Chinese name where it is set and not empty,
/// else the name.
pub open spec fn subject_title(subject: Subject) -> Seq<char> {
    match non_empty(subject.name_cn.deep_view()) {
        Some(t) => t,
        None => subject.name@,
    }
}

/// The date of a subject: its date, else its air date.
pub open spec fn subject_date(subject: Subject) -> Option<Seq<char>> {
    or_else(subject.date.deep_view(), subject.air_date.deep_view())
}

/// The poster of a subject: the large image, else the common one.
pub open spec fn poster_of(images: Option<Images>) -> Option<Seq<char>> {
    match images {
        Some(i) => or_else(i.large.deep_view(), i.common.deep_view()),
        None => None,
    }
}

/// The score of a rating that may be missing.
pub open spec fn score_of(rating: Option<Rating>) -> Option<i64> {
    match rating {
        Some(r) => r.score,
        None => None,
    }
}

/// The number of votes of a rating that may be missing.
pub open spec fn total_of(rating: Option<Rating>) -> Option<i32> {
    match rating {
        Some(r) => r.total,
        None => None,
    }
}

/// The candidate that stands for a subject.
pub open spec fn subject_info(subject: Subject) -> MediaInfoView {
    MediaInfoView {
        id: decimal_text(subject.id as int),
        title: subject_title(subject),
        original_title: Some(subject.name@),
        alt_titles: Seq::empty(),
        media_type: MediaType::Anime,
        year: date_year(subject_date(subject)),
        poster_url: poster_of(subject.images),
        overview: subject.summary.deep_view(),
        rating: score_of(subject.rating),
        provider: "bangumi"@,
        popularity: None,
    }
}

/// Whether an entry of the info box names the studio.
pub open spec fn studio_key(key: Seq<char>) -> bool {
    key == "动画制作"@ || key == "製作"@
}

/// Whether an entry of the info box names the director.
pub open spec fn director_key(key: Seq<char>) -> bool {
    key == "导演"@ || key == "監督"@
}

/// The values of a list of items that are set, in order.
pub open spec fn item_values(items: Seq<InfoBoxItem>) -> Seq<Seq<char>>
    decreases items.len(),
{
    if items.len() == 0 {
        Seq::empty()
    } else {
        let rest = item_values(items.drop_last());
        match items.last().v {
            Some(v) => rest.push(v@),
            None => rest,
        }
    }
}

/// The studios that one entry of the info box names.
pub open spec fn studios_in(entry: InfoBox) -> Seq<Seq<char>> {
    if studio_key(entry.key@) {
        match entry.value {
            InfoBoxValue::String(s) => seq![s@],
            InfoBoxValue::Array(items) => item_values(items@),
        }
    } else {
        Seq::empty()
    }
}

/// The studios that the info box names, in order.
pub open spec fn studios_from(entries: Seq<InfoBox>) -> Seq<Seq<char>>
    decreases entries.len(),
{
    if entries.len() == 0 {
        Seq::empty()
    } else {
        studios_from(entries.drop_last()) + studios_in(entries.last())
    }
}

/// The director that the info box names: the text of the last entry for the
/// director that is a plain text.
pub open spec fn director_from(entries: Seq<InfoBox>) -> Option<Seq<char>>
    decreases entries.len(),
{
    if entries.len() == 0 {
        None
    } else {
        let last = entries.last();
        match last.value {
            InfoBoxValue::String(s) => if director_key(last.key@) {
                Some(s@)
            } else {
                director_from(entries.drop_last())
            },
            InfoBoxValue::Array(_) => director_from(entries.drop_last()),
        }
    }
}

/// The entries of an info box that may be missing.
pub open spec fn entries_of(infobox: Option<Vec<InfoBox>>) -> Seq<InfoBox> {
    match infobox {
        Some(e) => e@,
        None => Seq::empty(),
    }
}

/// The names of the first ten tags.
pub open spec fn genres_of(tags: Option<Vec<Tag>>) -> Seq<Seq<char>> {
    match tags {
        Some(t) => {
            let kept = if t.len() > 10 {
                t@.take(10)
            } else {
                t@
            };
            kept.map_values(|g: Tag| g.name@)
        },
        None => Seq::empty(),
    }
}

/// What a type of subject is called.
pub open spec fn format_of(subject_type: i32) -> Seq<char> {
    if subject_type == SUBJECT_TYPE_ANIME {
        "TV"@
    } else if subject_type == SUBJECT_TYPE_MOVIE {
        "Movie"@
    } else {
        "Unknown"@
    }
}

/// The crew of a subject: its director, where the info box names one.
pub open spec fn crew_of(director: Option<Seq<char>>) -> Seq<PersonInfoView> {
    match director {
        Some(d) => seq![
            PersonInfoView {
                id: Seq::empty(),
                name: d,
                role: Some("Director"@),
                image_url: None,
                order: Some(0i32),
            },
        ],
        None => Seq::empty(),
    }
}

/// The metadata that stands for a subject.
pub open spec fn subject_metadata(subject: Subject) -> MediaMetadataView {
    MediaMetadataView {
        id: decimal_text(subject.id as int),
        title: subject_title(subject),
        original_title: Some(subject.name@),
        sort_title: Some(subject_title(subject)),
        media_type: MediaType::Anime,
        tagline: None,
        overview: subject.summary.deep_view(),
        release_date: subject_date(subject),
        end_date: None,
        runtime: None,
        rating: score_of(subject.rating),
        vote_count: total_of(subject.rating),
        genres: genres_of(subject.tags),
        tags: Seq::empty(),
        studios: studios_from(entries_of(subject.infobox)),
        language: Some("ja"@),
        content_rating: None,
        status: Some(format_of(subject.subject_type)),
        images: ImageSetView { poster: poster_of(subject.images), ..ImageSetView::empty() },
        external_ids: ExternalIdsView {
            bangumi: Some(decimal_text(subject.id as int)),
            ..ExternalIdsView::empty()
        },
        provider: "bangumi"@,
        season_count: None,
        episode_count: subject.eps,
        seasons: Seq::empty(),
        cast: Seq::empty(),
        crew: crew_of(director_from(entries_of(subject.infobox))),
    }
}

/// The digits that a text begins with.
pub open spec fn leading_digits(s: Seq<char>) -> Seq<char>
    decreases s.len(),
{
    if s.len() == 0 || !is_digit(s.first()) {
        Seq::empty()
    } else {
        seq![s.first()] + leading_digits(s.drop_first())
    }
}

/// The minutes that a duration writes: the number in front of the first
/// colon where there is a colon, else the number that the text begins with.
pub open spec fn duration_minutes(duration: Option<Seq<char>>) -> Option<i32> {
    match duration {
        Some(d) => if d.contains(':') {
            parsed_i32(field_before(d, ':'))
        } else {
            parsed_i32(leading_digits(d))
        },
        None => None,
    }
}

/// The whole part of a number given in thousandths, as a 32-bit integer: the
/// number without its fraction, and the nearest bound where that does not
/// fit.
pub open spec fn whole_part(thousandths: i64) -> i32 {
    let q: int = if thousandths >= 0 {
        thousandths as int / 1000
    } else {
        -((-(thousandths as int)) / 1000)
    };
    if q > i32::MAX {
        i32::MAX
    } else if q < i32::MIN {
        i32::MIN
    } else {
        q as i32
    }
}

/// Whether an episode is the one with the number `wanted`: by its episode
/// number, or by its place in the order.
pub open spec fn is_episode(e: Episode, wanted: i32) -> bool {
    (e.ep matches Some(n) && whole_part(n) == wanted) || whole_part(e.sort) == wanted
}

/// The place of the first episode with the number `wanted`.
pub open spec fn episode_position(episodes: Seq<Episode>, wanted: i32) -> Option<int>
    decreases episodes.len(),
{
    if episodes.len() == 0 {
        None
    } else {
        match episode_position(episodes.drop_last(), wanted) {
            Some(i) => Some(i),
            None => if is_episode(episodes.last(), wanted) {
                Some(episodes.len() - 1)
            } else {
                None
            },
        }
    }
}

/// The episode that stands for an episode of Bangumi that was asked for by
/// the number `wanted`.
pub open spec fn episode_info(e: Episode, wanted: i32) -> EpisodeInfoView {
    EpisodeInfoView {
        id: decimal_text(e.id as int),
        title: match or_else(non_empty(e.name_cn.deep_view()), e.name.deep_view()) {
            Some(t) => t,
            None => "Episode "@ + decimal_text(wanted as int),
        },
        season: 1,
        episode: match e.ep {
            Some(n) => whole_part(n),
            None => whole_part(e.sort),
        },
        absolute_number: Some(whole_part(e.sort)),
        air_date: e.airdate.deep_view(),
        overview: e.desc.deep_view(),
        runtime: duration_minutes(e.duration.deep_view()),
        rating: None,
        still_url: None,
        provider: "bangumi"@,
    }
}

/// Whether a subject passes the year filter of a search: every subject
/// where no year is asked for, else those whose date has that year.
pub open spec fn in_year(subject: Subject, year: Option<i32>) -> bool {
    match year {
        Some(y) => date_year(subject_date(subject)) == Some(y),
        None => true,
    }
}

/// A text that is set and not empty.
fn keep_non_empty(t: &Option<String>) -> (r: Option<String>)
    ensures
        r.deep_view() == non_empty(t.deep_view()),
{
    match t {
        Some(s) => if chars_of(s.as_str()).len() > 0 {
            Some(s.clone())
        } else {
            None
        },
        None => None,
    }
}

/// The first of two options that is set.
fn first_set(first: &Option<String>, second: &Option<String>) -> (r: Option<String>)
    ensures
        r.deep_view() == or_else(first.deep_view(), second.deep_view()),
{
    match first {
        Some(s) => Some(s.clone()),
        None => second.clone(),
    }
}

/// The whole part of a number given in thousandths.
fn whole(thousandths: i64) -> (r: i32)
    ensures
        r == whole_part(thousandths),
{
    let q: i64 = if thousandths >= 0 {
        thousandths / 1000
    } else if thousandths == i64::MIN {
        -9223372036854775
    } else {
        -((-thousandths) / 1000)
    };
    if q > 2147483647 {
        2147483647
    } else if q < -2147483648 {
        -2147483648
    } else {
        q as i32
    }
}

/// The digits that a text begins with.
fn take_digits(s: &[char]) -> (r: Vec<char>)
    ensures
        r@ == leading_digits(s@),
{
    let mut out: Vec<char> = Vec::new();
    let mut i: usize = 0;
    assert(s@.skip(0) == s@);
    assert(out@ + leading_digits(s@) =~= leading_digits(s@));
    while i < s.len() && '0' <= s[i] && s[i] <= '9'
        invariant
            i <= s.len(),
            leading_digits(s@) == out@ + leading_digits(s@.skip(i as int)),
        decreases s.len() - i,
    {
        proof {
            let rest = s@.skip(i as int);
            assert(rest.first() == s@[i as int]);
            assert(rest.drop_first() == s@.skip(i + 1));
            assert(out@.push(s@[i as int]) + leading_digits(s@.skip(i + 1)) =~= out@ + (
            seq![s@[i as int]] + leading_digits(s@.skip(i + 1))));
        }
        out.push(s[i]);
        i = i + 1;
    }
    proof {
        let rest = s@.skip(i as int);
        if i < s.len() {
            assert(rest.first() == s@[i as int]);
        }
        assert(out@ + Seq::<char>::empty() =~= out@);
    }
    out
}

/// Whether a text holds a character.
fn has_char(s: &[char], c: char) -> (r: bool)
    ensures
        r == s@.contains(c),
{
    let mut i: usize = 0;
    while i < s.len()
        invariant
            i <= s.len(),
            forall|j: int| 0 <= j < i ==> s@[j] != c,
        decreases s.len() - i,
    {
        if s[i] == c {
            return true;
        }
        i = i + 1;
    }
    false
}

/// The provider for Bangumi.
pub struct BangumiProvider;

impl BangumiProvider {
    /// The provider.
    pub fn new() -> BangumiProvider {
        BangumiProvider
    }

    /// The title of a subject.
    fn title_of(subject: &Subject) -> (r: String)
        ensures
            r@ == subject_title(*subject),
    {
        match keep_non_empty(&subject.name_cn) {
            Some(t) => t,
            None => subject.name.clone(),
        }
    }

    /// The poster of a subject.
    fn poster(images: &Option<Images>) -> (r: Option<String>)
        ensures
            r.deep_view() == poster_of(*images),
    {
        match images {
            Some(i) => first_set(&i.large, &i.common),
            None => None,
        }
    }

    /// The candidate that stands for a subject.
    pub fn subject_to_info(subject: &Subject) -> (r: MediaInfo)
        ensures
            r@ == subject_info(*subject),
    {
        let title = Self::title_of(subject);
        let date = first_set(&subject.date, &subject.air_date);
        let rating = match &subject.rating {
            Some(r) => r.score,
            None => None,
        };
        let id = decimal_string(subject.id as i64);
        MediaInfo::new(id.as_str(), title.as_str(), "bangumi").with_type(
            MediaType::Anime,
        ).with_year(year_of_date(&date)).with_original_title(Some(subject.name.clone())).with_poster(
            Self::poster(&subject.images),
        ).with_overview(subject.summary.clone()).with_rating(rating)
    }

    /// The studios and the director that an info box names.
    fn read_infobox(infobox: &Option<Vec<InfoBox>>) -> (r: (Vec<String>, Option<String>))
        ensures
            r.0.deep_view() == studios_from(entries_of(*infobox)),
            r.1.deep_view() == director_from(entries_of(*infobox)),
    {
        let mut studios: Vec<String> = Vec::new();
        let mut director: Option<String> = None;
        match infobox {
            Some(entries) => {
                let mut i: usize = 0;
                assert(studios.deep_view() =~= studios_from(entries@.take(0)));
                while i < entries.len()
                    invariant
                        i <= entries.len(),
                        studios.deep_view() == studios_from(entries@.take(i as int)),
                        director.deep_view() == director_from(entries@.take(i as int)),
                    decreases entries.len() - i,
                {
                    let entry = &entries[i];
                    let ghost before = studios.deep_view();
                    proof {
                        assert(entries@.take(i + 1).drop_last() == entries@.take(i as int));
                        assert(entries@.take(i + 1).last() == *entry);
                    }
                    if same_str(entry.key.as_str(), "动画制作") || same_str(
                        entry.key.as_str(),
                        "製作",
                    ) {
                        match &entry.value {
                            InfoBoxValue::String(s) => {
                                studios.push(s.clone());
                                assert(studios.deep_view() =~= before + seq![s@]);
                            },
                            InfoBoxValue::Array(items) => {
                                let mut k: usize = 0;
                                assert(studios.deep_view() =~= before + item_values(
                                    items@.take(0),
                                ));
                                while k < items.len()
                                    invariant
                                        k <= items.len(),
                                        studios.deep_view() == before + item_values(
                                            items@.take(k as int),
                                        ),
                                    decreases items.len() - k,
                                {
                                    proof {
                                        assert(items@.take(k + 1).drop_last() == items@.take(
                                            k as int,
                                        ));
                                        assert(items@.take(k + 1).last() == items[k as int]);
                                    }
                                    match &items[k].v {
                                        Some(v) => {
                                            let ghost so_far = studios.deep_view();
                                            studios.push(v.clone());
                                            assert(studios.deep_view() =~= so_far.push(v@));
                                            assert(item_values(items@.take(k + 1)) == item_values(
                                                items@.take(k as int),
                                            ).push(v@));
                                            assert(studios.deep_view() =~= before + item_values(
                                                items@.take(k + 1),
                                            ));
                                        },
                                        None => {},
                                    }
                                    k = k + 1;
                                }
                                assert(items@.take(items.len() as int) == items@);
                            },
                        }
                    } else {
                        assert(studios.deep_view() =~= before + Seq::<Seq<char>>::empty());
                    }
                    if same_str(entry.key.as_str(), "导演") || same_str(
                        entry.key.as_str(),
                        "監督",
                    ) {
                        match &entry.value {
                            InfoBoxValue::String(s) => {
                                director = Some(s.clone());
                            },
                            InfoBoxValue::Array(_) => {},
                        }
                    }
                    i = i + 1;
                }
                assert(entries@.take(entries.len() as int) == entries@);
            },
            None => {
                assert(studios.deep_view() =~= Seq::<Seq<char>>::empty());
            },
        }
        (studios, director)
    }

    /// The names of the first ten tags.
    fn genres(tags: &Option<Vec<Tag>>) -> (r: Vec<String>)
        ensures
            r.deep_view() == genres_of(*tags),
    {
        let mut out: Vec<String> = Vec::new();
        match tags {
            Some(t) => {
                let count: usize = if t.len() > 10 {
                    10
                } else {
                    t.len()
                };
                let mut i: usize = 0;
                while i < count
                    invariant
                        i <= count <= t.len(),
                        out.len() == i,
                        forall|j: int| 0 <= j < i ==> out[j]@ == t[j].name@,
                    decreases count - i,
                {
                    out.push(t[i].name.clone());
                    i = i + 1;
                }
                assert(out.deep_view() =~= genres_of(*tags));
            },
            None => {
                assert(out.deep_view() =~= genres_of(*tags));
            },
        }
        out
    }

    /// The metadata that stands for a subject.
    pub fn subject_to_metadata(subject: &Subject) -> (r: MediaMetadata)
        ensures
            r@ == subject_metadata(*subject),
    {
        let title = Self::title_of(subject);
        let (studios, director) = Self::read_infobox(&subject.infobox);
        let format = if subject.subject_type == SUBJECT_TYPE_ANIME {
            "TV"
        } else if subject.subject_type == SUBJECT_TYPE_MOVIE {
            "Movie"
        } else {
            "Unknown"
        };
        let mut images = ImageSet::default();
        images.poster = Self::poster(&subject.images);
        let mut external_ids = ExternalIds::default();
        external_ids.bangumi = Some(decimal_string(subject.id as i64));
        let mut crew: Vec<PersonInfo> = Vec::new();
        match director {
            Some(d) => {
                crew.push(
                    PersonInfo {
                        id: String::new(),
                        name: d,
                        role: Some("Director".to_owned()),
                        image_url: None,
                        order: Some(0),
                    },
                );
            },
            None => {},
        }
        assert(person_views(crew@) =~= crew_of(director_from(entries_of(subject.infobox))));
        let mut metadata = MediaMetadata::default();
        metadata.id = decimal_string(subject.id as i64);
        metadata.title = title.clone();
        metadata.original_title = Some(subject.name.clone());
        metadata.sort_title = Some(title);
        metadata.media_type = MediaType::Anime;
        metadata.overview = subject.summary.clone();
        metadata.release_date = first_set(&subject.date, &subject.air_date);
        metadata.rating = match &subject.rating {
            Some(r) => r.score,
            None => None,
        };
        metadata.vote_count = match &subject.rating {
            Some(r) => r.total,
            None => None,
        };
        metadata.genres = Self::genres(&subject.tags);
        metadata.studios = studios;
        metadata.language = Some("ja".to_owned());
        metadata.status = Some(format.to_owned());
        metadata.images = images;
        metadata.external_ids = external_ids;
        metadata.provider = "bangumi".to_owned();
        metadata.episode_count = subject.eps;
        metadata.crew = crew;
        metadata
    }

    /// The minutes that a duration such as `24:00` or `24分` writes.
    pub fn parse_duration(duration: &Option<String>) -> (r: Option<i32>)
        ensures
            r == duration_minutes(duration.deep_view()),
    {
        match duration {
            Some(d) => {
                let chars = chars_of(d.as_str());
                if has_char(chars.as_slice(), ':') {
                    let minutes = take_field(chars.as_slice(), ':');
                    parse_i32(minutes.as_slice())
                } else {
                    let digits = take_digits(chars.as_slice());
                    parse_i32(digits.as_slice())
                }
            },
            None => None,
        }
    }

    /// The endpoint that searches subjects: the query percent-encoded in the
    /// path, anime only, and as the greatest number of results the limit, or
    /// 20 where there is none.
    pub fn search_endpoint(query: &str, options: &SearchOptions) -> (r: String)
        ensures
            r@ == "/search/subject/"@ + percent_encoded(query.spec_bytes())
                + "?type=2&responseGroup=small&max_results="@ + natural_text(
                (match options@.limit {
                    Some(n) => n,
                    None => 20,
                }) as int,
            ),
    {
        let limit: usize = match options.limit {
            Some(n) => n,
            None => 20,
        };
        let encoded = url_encode(query);
        let a = concat("/search/subject/", encoded.as_str());
        let b = concat(a.as_str(), "?type=2&responseGroup=small&max_results=");
        let digits = unsigned_decimal(limit as u64);
        concat(b.as_str(), string_of(digits.as_slice()).as_str())
    }

    /// The result of a search, from its answer: the subjects that pass the
    /// year filter, as candidates. Where the answer lists no subject, or
    /// none passes the filter, the result is the error that nothing was
    /// found.
    pub fn search(query: &str, options: &SearchOptions, response: &SearchResponse) -> (r: Result<
        Vec<MediaInfo>,
        ScraperError,
    >)
        ensures
            match r {
                Ok(found) => found.len() > 0 && info_views(found@) == (match response.list {
                    Some(list) => list@,
                    None => Seq::empty(),
                }).filter(|s: Subject| in_year(s, options@.year)).map_values(
                    |s: Subject| subject_info(s),
                ),
                Err(e) => e@ == ScraperErrorView::NotFound(no_results_text(query@)) && (
                match response.list {
                    Some(list) => list@,
                    None => Seq::empty(),
                }).filter(|s: Subject| in_year(s, options@.year)).len() == 0,
            },
    {
        let mut out: Vec<MediaInfo> = Vec::new();
        let ghost keep = |s: Subject| in_year(s, options@.year);
        match &response.list {
            Some(list) => {
                let mut i: usize = 0;
                assert(info_views(out@) =~= list@.take(0).filter(keep).map_values(
                    |s: Subject| subject_info(s),
                )) by {
                    reveal(Seq::filter);
                }
                while i < list.len()
                    invariant
                        i <= list.len(),
                        keep == (|s: Subject| in_year(s, options@.year)),
                        info_views(out@) == list@.take(i as int).filter(keep).map_values(
                            |s: Subject| subject_info(s),
                        ),
                    decreases list.len() - i,
                {
                    let s = &list[i];
                    proof {
                        reveal(Seq::filter);
                        assert(list@.take(i + 1).drop_last() == list@.take(i as int));
                        assert(list@.take(i + 1).last() == *s);
                    }
                    let passes = match options.year {
                        Some(y) => {
                            let date = first_set(&s.date, &s.air_date);
                            match year_of_date(&date) {
                                Some(found) => found == y,
                                None => false,
                            }
                        },
                        None => true,
                    };
                    if passes {
                        let ghost before = info_views(out@);
                        out.push(Self::subject_to_info(s));
                        assert(info_views(out@) =~= before.push(subject_info(*s)));
                        assert(info_views(out@) =~= list@.take(i + 1).filter(keep).map_values(
                            |s: Subject| subject_info(s),
                        ));
                    }
                    i = i + 1;
                }
                assert(list@.take(list.len() as int) == list@);
            },
            None => {
                assert(info_views(out@) =~= Seq::<Subject>::empty().filter(keep).map_values(
                    |s: Subject| subject_info(s),
                )) by {
                    reveal(Seq::filter);
                }
            },
        }
        if out.len() == 0 {
            return Err(ScraperError::no_results(query));
        }
        Ok(out)
    }

    /// The endpoint that fetches a subject.
    pub fn get_metadata(id: &str) -> (r: String)
        ensures
            r@ == "/v0/subjects/"@ + id@,
    {
        concat("/v0/subjects/", id)
    }

    /// The endpoint that lists the episodes of a subject.
    pub fn episodes_endpoint(series_id: &str) -> (r: String)
        ensures
            r@ == "/v0/episodes?subject_id="@ + series_id@ + "&type=0&limit=100"@,
    {
        let a = concat("/v0/episodes?subject_id=", series_id);
        concat(a.as_str(), "&type=0&limit=100")
    }

    /// The episode with the number `episode` among those that were listed:
    /// the first whose episode number, or whose place in the order, is that
    /// number; the error that the episode was not found where there is none.
    pub fn get_episode(episode: i32, response: &EpisodesResponse) -> (r: Result<
        EpisodeInfo,
        ScraperError,
    >)
        ensures
            match r {
                Ok(info) => episode_position(response.data@, episode) matches Some(at) && info@
                    == episode_info(response.data[at], episode),
                Err(e) => episode_position(response.data@, episode) is None && e@
                    == ScraperErrorView::NotFound(
                    "Episode "@ + decimal_text(episode as int) + " not found"@,
                ),
            },
    {
        let number = decimal_string(episode as i64);
        let mut i: usize = 0;
        while i < response.data.len()
            invariant
                i <= response.data.len(),
                number@ == decimal_text(episode as int),
                episode_position(response.data@.take(i as int), episode) is None,
            decreases response.data.len() - i,
        {
            let e = &response.data[i];
            proof {
                assert(response.data@.take(i + 1).drop_last() == response.data@.take(i as int));
                assert(response.data@.take(i + 1).last() == *e);
            }
            let by_number = match e.ep {
                Some(n) => whole(n) == episode,
                None => false,
            };
            if by_number || whole(e.sort) == episode {
                proof {
                    lemma_episode_position_stays(response.data@, episode, i + 1);
                }
                let preferred = keep_non_empty(&e.name_cn);
                let title = match first_set(&preferred, &e.name) {
                    Some(t) => t,
                    None => concat("Episode ", number.as_str()),
                };
                return Ok(
                    EpisodeInfo {
                        id: decimal_string(e.id as i64),
                        title,
                        season: 1,
                        episode: match e.ep {
                            Some(n) => whole(n),
                            None => whole(e.sort),
                        },
                        absolute_number: Some(whole(e.sort)),
                        air_date: e.airdate.clone(),
                        overview: e.desc.clone(),
                        runtime: Self::parse_duration(&e.duration),
                        rating: None,
                        still_url: None,
                        provider: "bangumi".to_owned(),
                    },
                );
            }
            i = i + 1;
        }
        assert(response.data@.take(response.data.len() as int) == response.data@);
        let head = concat("Episode ", number.as_str());
        Err(ScraperError::NotFound(concat(head.as_str(), " not found")))
    }
}

/// An episode that is the first with its number among the first `upto`
/// episodes is the first with it among all.
pub proof fn lemma_episode_position_stays(episodes: Seq<Episode>, wanted: i32, upto: int)
    requires
        0 <= upto <= episodes.len(),
        episode_position(episodes.take(upto), wanted) is Some,
    ensures
        episode_position(episodes, wanted) == episode_position(episodes.take(upto), wanted),
    decreases episodes.len() - upto,
{
    if upto < episodes.len() {
        assert(episodes.take(upto + 1).drop_last() == episodes.take(upto));
        lemma_episode_position_stays(episodes, wanted, upto + 1);
    } else {
        assert(episodes.take(upto) == episodes);
    }
}

/// The priority of Bangumi for a kind of media.
pub open spec fn bangumi_priority(media_type: MediaType) -> i32 {
    match media_type {
        MediaType::Anime => 80,
        _ => 0,
    }
}

impl MetadataProvider for BangumiProvider {
    open spec fn identifier(&self) -> Seq<char> {
        "bangumi"@
    }

    open spec fn kinds(&self) -> Seq<MediaType> {
        seq![MediaType::Anime]
    }

    open spec fn priority(&self, media_type: MediaType) -> i32 {
        bangumi_priority(media_type)
    }

    open spec fn title(&self) -> Seq<char> {
        "Bangumi"@
    }

    open spec fn needs_api_key(&self) -> bool {
        false
    }

    fn id(&self) -> (r: &'static str) {
        "bangumi"
    }

    fn name(&self) -> (r: &'static str) {
        "Bangumi"
    }

    fn supported_types(&self) -> (r: Vec<MediaType>) {
        let mut kinds: Vec<MediaType> = Vec::new();
        kinds.push(MediaType::Anime);
        assert(kinds@ =~= seq![MediaType::Anime]);
        kinds
    }

    fn requires_api_key(&self) -> (r: bool) {
        false
    }

    fn priority_for(&self, media_type: MediaType) -> (r: i32) {
        match media_type {
            MediaType::Anime => 80,
            _ => 0,
        }
    }
}

} // verus!
