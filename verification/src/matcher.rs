//! The ranker: a deterministic score for each candidate against a parsed
//! filename, a confidence bucket over the score, and a stable ranking.

use vstd::prelude::*;
use crate::order::{
    insertion_point, lemma_insertion_point, lemma_rank_order_is_permutation,
    lemma_rank_order_sorted_stable, rank_order,
};
use crate::parser::{MediaHint, ParsedMedia, ParsedMediaView};
use crate::text::{
    alphanumeric_or_space, chars_of, contains_text, find_text, join_words, joined,
    keep_alphanumeric_and_space, lowercase, same_str, same_text, split_words, string_of, texts,
    to_lowercase, words,
};
use crate::types::{info_views, MediaInfo, MediaInfoView, MediaType};

verus! {

/// Match confidence level, from the weakest to the strongest.
#[derive(Clone, Copy, Debug, PartialEq, Eq, PartialOrd, Ord, Structural)]
pub enum Confidence {
    /// No match
    NoMatch,
    /// Low confidence - might be wrong
    Low,
    /// Medium confidence - likely correct
    Medium,
    /// High confidence - almost certainly correct
    High,
    /// Exact match
    Exact,
}

impl Confidence {
    /// The place of the level in the order `NoMatch < Low < Medium < High < Exact`.
    pub open spec fn level(self) -> int {
        match self {
            Confidence::NoMatch => 0,
            Confidence::Low => 1,
            Confidence::Medium => 2,
            Confidence::High => 3,
            Confidence::Exact => 4,
        }
    }

    /// The place of the level in the order, as a number.
    pub fn ordinal(&self) -> (r: u8)
        ensures
            r == self.level(),
    {
        match self {
            Confidence::NoMatch => 0,
            Confidence::Low => 1,
            Confidence::Medium => 2,
            Confidence::High => 3,
            Confidence::Exact => 4,
        }
    }

    /// The name of the level as it is shown.
    pub open spec fn label(self) -> Seq<char> {
        match self {
            Confidence::NoMatch => "None"@,
            Confidence::Low => "Low"@,
            Confidence::Medium => "Medium"@,
            Confidence::High => "High"@,
            Confidence::Exact => "Exact"@,
        }
    }

    /// The name of the level as it is shown.
    pub fn name(&self) -> (r: &'static str)
        ensures
            r@ == self.label(),
    {
        match self {
            Confidence::NoMatch => "None",
            Confidence::Low => "Low",
            Confidence::Medium => "Medium",
            Confidence::High => "High",
            Confidence::Exact => "Exact",
        }
    }

    /// Whether this level is `floor` or a stronger one.
    pub fn at_least(&self, floor: Confidence) -> (r: bool)
        ensures
            r == (self.level() >= floor.level()),
    {
        self.ordinal() >= floor.ordinal()
    }
}

/// Breakdown of how the score was calculated.
#[derive(Clone, Copy, Debug, PartialEq, Eq, Structural)]
pub struct ScoreBreakdown {
    pub title_score: i32,
    pub year_score: i32,
    pub type_score: i32,
    pub provider_score: i32,
    pub popularity_score: i32,
}

impl ScoreBreakdown {
    /// The sum of the five components.
    pub open spec fn total(self) -> int {
        self.title_score + self.year_score + self.type_score + self.provider_score
            + self.popularity_score
    }

    /// Each component lies within its declared range.
    pub open spec fn within_bounds(self) -> bool {
        &&& 0 <= self.title_score <= 40
        &&& 0 <= self.year_score <= 20
        &&& 0 <= self.type_score <= 20
        &&& 0 <= self.provider_score <= 10
        &&& 0 <= self.popularity_score <= 10
    }
}

impl Default for ScoreBreakdown {
    fn default() -> (r: ScoreBreakdown)
        ensures
            r == (ScoreBreakdown {
                title_score: 0,
                year_score: 0,
                type_score: 0,
                provider_score: 0,
                popularity_score: 0,
            }),
    {
        ScoreBreakdown {
            title_score: 0,
            year_score: 0,
            type_score: 0,
            provider_score: 0,
            popularity_score: 0,
        }
    }
}

/// A scored match result.
#[derive(Debug)]
pub struct ScoredMatch {
    /// The matched media info
    pub info: MediaInfo,
    /// Match score (0-100)
    pub score: i32,
    /// Confidence level
    pub confidence: Confidence,
    /// Breakdown of score components
    pub breakdown: ScoreBreakdown,
}

/// What a `ScoredMatch` holds, as mathematical values.
pub struct ScoredMatchView {
    pub info: MediaInfoView,
    pub score: i32,
    pub confidence: Confidence,
    pub breakdown: ScoreBreakdown,
}

impl View for ScoredMatch {
    type V = ScoredMatchView;

    open spec fn view(&self) -> ScoredMatchView {
        ScoredMatchView {
            info: self.info@,
            score: self.score,
            confidence: self.confidence,
            breakdown: self.breakdown,
        }
    }
}

impl Clone for ScoredMatch {
    fn clone(&self) -> (r: ScoredMatch)
        ensures
            r@ == self@,
    {
        ScoredMatch {
            info: self.info.clone(),
            score: self.score,
            confidence: self.confidence,
            breakdown: self.breakdown,
        }
    }
}

/// A similarity between 0 and 1, as an exact fraction.
#[derive(Clone, Copy, Debug, PartialEq, Eq, Structural)]
pub struct Similarity {
    pub numerator: u128,
    pub denominator: u128,
}

/// The normal form in which titles are compared: lower case, only
/// alphanumeric characters and white space, words joined by single spaces.
pub open spec fn normalized(title: Seq<char>) -> Seq<char> {
    joined(words(lowercase(title).filter(|c: char| alphanumeric_or_space(c))))
}

/// The set of the words of a text.
pub open spec fn word_set(s: Seq<char>) -> Set<Seq<char>> {
    words(s).to_set()
}

/// The similarity of two texts as numerator and denominator: 1 for equal
/// texts, 0 if either is empty or neither has a word; else the share of the
/// common words among all words of both, plus a fifth if one text contains
/// the other, and at most 1.
pub open spec fn similarity(a: Seq<char>, b: Seq<char>) -> (int, int) {
    let shared = word_set(a).intersect(word_set(b)).len() as int;
    let all = word_set(a).union(word_set(b)).len() as int;
    if a == b {
        (1, 1)
    } else if a.len() == 0 || b.len() == 0 || all == 0 {
        (0, 1)
    } else {
        let bonus: int = if contains_text(a, b) || contains_text(b, a) {
            all
        } else {
            0
        };
        if 5 * shared + bonus > 5 * all {
            (1, 1)
        } else {
            (5 * shared + bonus, 5 * all)
        }
    }
}

/// The points that one candidate title earns against the query title, both in
/// normal form: forty times their similarity, rounded down.
pub open spec fn similarity_points(title: Seq<char>, query: Seq<char>) -> int {
    let (n, d) = similarity(title, query);
    (40 * n) / d
}

/// The points that one candidate title earns against the query title.
pub open spec fn title_points(title: Seq<char>, query: Seq<char>) -> int {
    similarity_points(normalized(title), normalized(query))
}

/// The best points among the candidate's titles, 0 where it has none.
pub open spec fn best_title_points(titles: Seq<Seq<char>>, query: Seq<char>) -> int
    decreases titles.len(),
{
    if titles.len() == 0 {
        0
    } else {
        let rest = best_title_points(titles.drop_last(), query);
        let last = title_points(titles.last(), query);
        if last > rest {
            last
        } else {
            rest
        }
    }
}

/// Points for the distance between the two years.
pub open spec fn year_points(info_year: Option<i32>, parsed_year: Option<i32>) -> int {
    match (info_year, parsed_year) {
        (Some(a), Some(b)) => {
            let diff = if a >= b {
                a - b
            } else {
                b - a
            };
            if diff == 0 {
                20
            } else if diff == 1 {
                15
            } else if diff == 2 {
                10
            } else {
                0
            }
        },
        (None, None) => 10,
        _ => 5,
    }
}

/// Points for the agreement between the candidate's kind and the hint.
pub open spec fn type_points(info_type: MediaType, hint: MediaHint) -> int {
    match (info_type, hint) {
        (MediaType::Movie, MediaHint::Movie) => 20,
        (MediaType::Tv, MediaHint::TvShow) => 20,
        (MediaType::Anime, MediaHint::Anime) => 20,
        (MediaType::Tv, MediaHint::Anime) => 15,
        (MediaType::Anime, MediaHint::TvShow) => 15,
        (_, MediaHint::Unknown) => 10,
        _ => 0,
    }
}

/// Points for how well the provider suits the kind.
pub open spec fn provider_points(provider: Seq<char>, media_type: MediaType) -> int {
    if provider == "anilist"@ && media_type == MediaType::Anime {
        10
    } else if provider == "bangumi"@ && media_type == MediaType::Anime {
        8
    } else if provider == "tmdb"@ && media_type == MediaType::Movie {
        10
    } else if provider == "tmdb"@ && media_type == MediaType::Tv {
        9
    } else {
        5
    }
}

/// Points for the popularity, which is given in thousandths.
pub open spec fn popularity_points(popularity: Option<i64>) -> int {
    match popularity {
        Some(p) => if p > 1_000_000 {
            10
        } else if p > 100_000 {
            7
        } else if p > 10_000 {
            5
        } else {
            3
        },
        None => 5,
    }
}

/// The confidence bucket of a total score, given the title's share of it.
pub open spec fn confidence_of(total: int, title_score: int) -> Confidence {
    if title_score < 20 {
        Confidence::NoMatch
    } else if 90 <= total <= 100 {
        Confidence::Exact
    } else if 75 <= total <= 89 {
        Confidence::High
    } else if 55 <= total <= 74 {
        Confidence::Medium
    } else if 35 <= total <= 54 {
        Confidence::Low
    } else {
        Confidence::NoMatch
    }
}

/// The five components of a candidate's score against a parsed filename.
pub open spec fn breakdown_of(info: MediaInfoView, parsed: ParsedMediaView) -> ScoreBreakdown {
    ScoreBreakdown {
        title_score: best_title_points(info.all_titles(), parsed.title) as i32,
        year_score: year_points(info.year, parsed.year) as i32,
        type_score: type_points(info.media_type, parsed.hint) as i32,
        provider_score: provider_points(info.provider, info.media_type) as i32,
        popularity_score: popularity_points(info.popularity) as i32,
    }
}

/// A candidate with its score, confidence and breakdown.
pub open spec fn scored(info: MediaInfoView, parsed: ParsedMediaView) -> ScoredMatchView {
    let breakdown = breakdown_of(info, parsed);
    ScoredMatchView {
        info,
        score: breakdown.total() as i32,
        confidence: confidence_of(breakdown.total(), breakdown.title_score as int),
        breakdown,
    }
}

/// The scores of a list of scored candidates.
pub open spec fn scores_of(matches: Seq<ScoredMatchView>) -> Seq<int> {
    matches.map_values(|m: ScoredMatchView| m.score as int)
}

/// The scored candidates in rank order.
pub open spec fn ranked(matches: Seq<ScoredMatchView>) -> Seq<ScoredMatchView> {
    rank_order(scores_of(matches)).map_values(|i: int| matches[i])
}

/// Each candidate of the list with its score.
pub open spec fn scored_all(infos: Seq<MediaInfoView>, parsed: ParsedMediaView) -> Seq<
    ScoredMatchView,
> {
    infos.map_values(|info: MediaInfoView| scored(info, parsed))
}

/// The views of a list of scored candidates, in order.
pub open spec fn match_views(v: Seq<ScoredMatch>) -> Seq<ScoredMatchView> {
    v.map_values(|m: ScoredMatch| m@)
}

/// Whether `word` is one of `list`.
fn has_word(list: &Vec<Vec<char>>, word: &Vec<char>) -> (r: bool)
    ensures
        r == texts(list@).contains(word@),
{
    let mut i: usize = 0;
    while i < list.len()
        invariant
            i <= list.len(),
            forall|j: int| 0 <= j < i ==> texts(list@)[j] != word@,
        decreases list.len() - i,
    {
        if same_text(list[i].as_slice(), word.as_slice()) {
            assert(texts(list@)[i as int] == word@);
            return true;
        }
        i = i + 1;
    }
    false
}

/// The words of `list`, each once, in the order of their first occurrence.
fn distinct_words(list: &Vec<Vec<char>>) -> (r: Vec<Vec<char>>)
    ensures
        texts(r@).no_duplicates(),
        texts(r@).to_set() == texts(list@).to_set(),
{
    let mut out: Vec<Vec<char>> = Vec::new();
    let mut i: usize = 0;
    while i < list.len()
        invariant
            i <= list.len(),
            texts(out@).no_duplicates(),
            texts(out@).to_set() == texts(list@).take(i as int).to_set(),
        decreases list.len() - i,
    {
        let ghost before = texts(out@);
        let ghost seen = texts(list@).take(i as int);
        let ghost next = texts(list@).take(i + 1);
        proof {
            assert(next == seen.push(list@[i as int]@));
            assert forall|w: Seq<char>| next.to_set().contains(w) <==> (seen.to_set().contains(w)
                || w == list@[i as int]@) by {
                if next.contains(w) {
                    let k = choose|k: int| 0 <= k < next.len() && next[k] == w;
                    if k < i {
                        assert(seen[k] == w);
                    }
                }
                if seen.contains(w) {
                    let k = choose|k: int| 0 <= k < seen.len() && seen[k] == w;
                    assert(next[k] == w);
                }
                if w == list@[i as int]@ {
                    assert(next[i as int] == w);
                }
            }
        }
        if !has_word(&out, &list[i]) {
            out.push(chars_copy(&list[i]));
            proof {
                let after = texts(out@);
                assert(after == before.push(list@[i as int]@));
                assert forall|w: Seq<char>| after.to_set().contains(w) <==> (
                before.to_set().contains(w) || w == list@[i as int]@) by {
                    if after.contains(w) {
                        let k = choose|k: int| 0 <= k < after.len() && after[k] == w;
                        if k < before.len() {
                            assert(before[k] == w);
                        }
                    }
                    if before.contains(w) {
                        let k = choose|k: int| 0 <= k < before.len() && before[k] == w;
                        assert(after[k] == w);
                    }
                    if w == list@[i as int]@ {
                        assert(after[after.len() - 1] == w);
                    }
                }
                assert(after.to_set() =~= next.to_set());
            }
        } else {
            assert(texts(out@).to_set() =~= next.to_set());
        }
        i = i + 1;
    }
    assert(texts(list@).take(list.len() as int) == texts(list@));
    out
}

/// A copy of a text.
fn chars_copy(v: &Vec<char>) -> (r: Vec<char>)
    ensures
        r@ == v@,
{
    let mut out: Vec<char> = Vec::new();
    let mut i: usize = 0;
    while i < v.len()
        invariant
            i <= v.len(),
            out@ == v@.take(i as int),
        decreases v.len() - i,
    {
        out.push(v[i]);
        assert(v@.take(i + 1) == v@.take(i as int).push(v@[i as int]));
        i = i + 1;
    }
    assert(v@.take(v.len() as int) == v@);
    out
}

/// How many of the words of `a`, which holds no word twice, are words of `b`.
fn count_common(a: &Vec<Vec<char>>, b: &Vec<Vec<char>>) -> (r: usize)
    requires
        texts(a@).no_duplicates(),
    ensures
        r == texts(a@).to_set().intersect(texts(b@).to_set()).len(),
        r <= a.len(),
{
    let mut common: Vec<Vec<char>> = Vec::new();
    let mut i: usize = 0;
    while i < a.len()
        invariant
            i <= a.len(),
            common.len() <= i,
            texts(a@).no_duplicates(),
            texts(common@).no_duplicates(),
            texts(common@).to_set() == texts(a@).take(i as int).to_set().intersect(
                texts(b@).to_set(),
            ),
        decreases a.len() - i,
    {
        let ghost before = texts(common@);
        let ghost seen = texts(a@).take(i as int);
        let ghost next = texts(a@).take(i + 1);
        let ghost word = a@[i as int]@;
        proof {
            assert(next == seen.push(word));
            assert(texts(a@)[i as int] == word);
            assert forall|w: Seq<char>| next.to_set().contains(w) <==> (seen.to_set().contains(w)
                || w == word) by {
                if next.contains(w) {
                    let k = choose|k: int| 0 <= k < next.len() && next[k] == w;
                    if k < i {
                        assert(seen[k] == w);
                    }
                }
                if seen.contains(w) {
                    let k = choose|k: int| 0 <= k < seen.len() && seen[k] == w;
                    assert(next[k] == w);
                }
                if w == word {
                    assert(next[i as int] == w);
                }
            }
            assert(!seen.contains(word)) by {
                if seen.contains(word) {
                    let k = choose|k: int| 0 <= k < seen.len() && seen[k] == word;
                    assert(texts(a@)[k] == word);
                }
            }
        }
        if has_word(b, &a[i]) {
            common.push(chars_copy(&a[i]));
            proof {
                let after = texts(common@);
                assert(after == before.push(word));
                assert(!before.contains(word)) by {
                    if before.contains(word) {
                        assert(before.to_set().contains(word));
                    }
                }
                assert forall|w: Seq<char>| after.to_set().contains(w) <==> (
                before.to_set().contains(w) || w == word) by {
                    if after.contains(w) {
                        let k = choose|k: int| 0 <= k < after.len() && after[k] == w;
                        if k < before.len() {
                            assert(before[k] == w);
                        }
                    }
                    if before.contains(w) {
                        let k = choose|k: int| 0 <= k < before.len() && before[k] == w;
                        assert(after[k] == w);
                    }
                    if w == word {
                        assert(after[after.len() - 1] == w);
                    }
                }
                assert(after.to_set() =~= next.to_set().intersect(texts(b@).to_set()));
            }
        } else {
            assert(texts(common@).to_set() =~= next.to_set().intersect(texts(b@).to_set()));
        }
        i = i + 1;
    }
    proof {
        assert(texts(a@).take(a.len() as int) == texts(a@));
        texts(common@).unique_seq_to_set();
    }
    common.len()
}

/// Scoring and ranking of search results.
pub struct Matcher;

impl Matcher {
    /// Brings a title into the normal form in which titles are compared.
    pub fn normalize_title(title: &str) -> (r: String)
        ensures
            r@ == normalized(title@),
    {
        let lower = to_lowercase(title);
        let chars = chars_of(lower.as_str());
        let kept = keep_alphanumeric_and_space(chars.as_slice());
        let parts = split_words(kept.as_slice());
        let joined = join_words(&parts);
        string_of(joined.as_slice())
    }

    /// The similarity of two texts, as an exact fraction between 0 and 1.
    pub fn string_similarity(a: &str, b: &str) -> (r: Similarity)
        ensures
            (r.numerator as int, r.denominator as int) == similarity(a@, b@),
            r.numerator <= r.denominator,
            0 < r.denominator <= 10 * usize::MAX,
    {
        let ca = chars_of(a);
        let cb = chars_of(b);
        if same_text(ca.as_slice(), cb.as_slice()) {
            return Similarity { numerator: 1, denominator: 1 };
        }
        if ca.len() == 0 || cb.len() == 0 {
            return Similarity { numerator: 0, denominator: 1 };
        }
        let wa = split_words(ca.as_slice());
        let wb = split_words(cb.as_slice());
        let da = distinct_words(&wa);
        let db = distinct_words(&wb);
        let shared = count_common(&da, &wb);
        proof {
            texts(da@).unique_seq_to_set();
            texts(db@).unique_seq_to_set();
            vstd::set_lib::lemma_set_intersect_union_lens(word_set(a@), word_set(b@));
            texts(wa@).lemma_cardinality_of_set();
            texts(wb@).lemma_cardinality_of_set();
        }
        let all: u128 = (da.len() as u128) + (db.len() as u128) - (shared as u128);
        if all == 0 {
            return Similarity { numerator: 0, denominator: 1 };
        }
        let one_in_other = find_text(ca.as_slice(), cb.as_slice()).is_some() || find_text(
            cb.as_slice(),
            ca.as_slice(),
        ).is_some();
        let bonus: u128 = if one_in_other {
            all
        } else {
            0
        };
        let numerator: u128 = 5 * (shared as u128) + bonus;
        let denominator: u128 = 5 * all;
        if numerator > denominator {
            Similarity { numerator: 1, denominator: 1 }
        } else {
            Similarity { numerator, denominator }
        }
    }
}

/// Every title earns between 0 and 40 points.
pub proof fn lemma_similarity_points_bounds(title: Seq<char>, query: Seq<char>)
    ensures
        0 <= similarity_points(title, query) <= 40,
        title == query ==> similarity_points(title, query) == 40,
{
    let (n, d) = similarity(title, query);
    assert(0 <= n <= d && d > 0);
    assert((40 * 1int) / 1int == 40);
    assert(0 <= (40 * n) / d <= 40) by (nonlinear_arith)
        requires
            0 <= n <= d,
            d > 0,
    ;
}

/// The best points lie between 0 and 40 and are not below those of any one
/// title.
pub proof fn lemma_best_title_points(titles: Seq<Seq<char>>, query: Seq<char>)
    ensures
        0 <= best_title_points(titles, query) <= 40,
        forall|i: int|
            0 <= i < titles.len() ==> title_points(#[trigger] titles[i], query)
                <= best_title_points(titles, query),
    decreases titles.len(),
{
    if titles.len() > 0 {
        lemma_best_title_points(titles.drop_last(), query);
        lemma_similarity_points_bounds(normalized(titles.last()), normalized(query));
        assert forall|i: int| 0 <= i < titles.len() implies title_points(
            #[trigger] titles[i],
            query,
        ) <= best_title_points(titles, query) by {
            if i < titles.len() - 1 {
                assert(titles.drop_last()[i] == titles[i]);
            }
        }
    }
}

/// The components of every breakdown lie within their ranges, so the total
/// lies between 0 and 100.
pub proof fn lemma_breakdown_bounds(info: MediaInfoView, parsed: ParsedMediaView)
    ensures
        breakdown_of(info, parsed).within_bounds(),
        breakdown_of(info, parsed).title_score == best_title_points(
            info.all_titles(),
            parsed.title,
        ),
        0 <= breakdown_of(info, parsed).total() <= 100,
        0 <= scored(info, parsed).score <= 100,
        scored(info, parsed).score == breakdown_of(info, parsed).total(),
{
    lemma_best_title_points(info.all_titles(), parsed.title);
}

impl Matcher {
    /// The best points that any of the titles earns against the query.
    pub fn score_title(titles: &[&str], query: &str) -> (r: i32)
        ensures
            r == best_title_points(titles.deep_view(), query@),
            0 <= r <= 40,
    {
        let query_normalized = Self::normalize_title(query);
        let mut best_score: i32 = 0;
        let mut i: usize = 0;
        proof {
            lemma_best_title_points(titles.deep_view(), query@);
        }
        while i < titles.len()
            invariant
                i <= titles.len(),
                query_normalized@ == normalized(query@),
                best_score == best_title_points(titles.deep_view().take(i as int), query@),
                0 <= best_score <= 40,
                0 <= best_title_points(titles.deep_view(), query@) <= 40,
                forall|k: int|
                    0 <= k < titles.len() ==> title_points(
                        #[trigger] titles.deep_view()[k],
                        query@,
                    ) <= best_title_points(titles.deep_view(), query@),
            decreases titles.len() - i,
        {
            let title_normalized = Self::normalize_title(titles[i]);
            proof {
                let upto = titles.deep_view().take(i + 1);
                assert(upto.drop_last() == titles.deep_view().take(i as int));
                assert(upto.last() == titles[i as int]@);
                assert(titles.deep_view()[i as int] == titles[i as int]@);
                lemma_similarity_points_bounds(title_normalized@, query_normalized@);
            }
            if same_str(title_normalized.as_str(), query_normalized.as_str()) {
                return 40;
            }
            let sim = Self::string_similarity(
                title_normalized.as_str(),
                query_normalized.as_str(),
            );
            assert(40 * sim.numerator <= 40 * sim.denominator) by (nonlinear_arith)
                requires
                    sim.numerator <= sim.denominator,
            ;
            assert((40 * sim.numerator) / (sim.denominator as int) <= 40) by (nonlinear_arith)
                requires
                    0 <= sim.numerator <= sim.denominator,
                    sim.denominator > 0,
            ;
            let points: u128 = (40 * sim.numerator) / sim.denominator;
            let score: i32 = points as i32;
            if score > best_score {
                best_score = score;
            }
            i = i + 1;
        }
        assert(titles.deep_view().take(titles.len() as int) == titles.deep_view());
        best_score
    }

    /// Points for the distance between the candidate's year and the parsed
    /// one.
    pub fn score_year(info_year: Option<i32>, parsed_year: Option<i32>) -> (r: i32)
        ensures
            r == year_points(info_year, parsed_year),
    {
        match (info_year, parsed_year) {
            (Some(a), Some(b)) => {
                let diff: i64 = if a >= b {
                    a as i64 - b as i64
                } else {
                    b as i64 - a as i64
                };
                if diff == 0 {
                    20
                } else if diff == 1 {
                    15
                } else if diff == 2 {
                    10
                } else {
                    0
                }
            },
            (None, None) => 10,
            _ => 5,
        }
    }

    /// Points for the agreement between the candidate's kind and the hint.
    pub fn score_type(info_type: MediaType, hint: MediaHint) -> (r: i32)
        ensures
            r == type_points(info_type, hint),
    {
        match (info_type, hint) {
            (MediaType::Movie, MediaHint::Movie) => 20,
            (MediaType::Tv, MediaHint::TvShow) => 20,
            (MediaType::Anime, MediaHint::Anime) => 20,
            (MediaType::Tv, MediaHint::Anime) => 15,
            (MediaType::Anime, MediaHint::TvShow) => 15,
            (_, MediaHint::Unknown) => 10,
            _ => 0,
        }
    }

    /// Points for how well the provider suits the candidate's kind.
    pub fn score_provider(provider: &str, media_type: MediaType) -> (r: i32)
        ensures
            r == provider_points(provider@, media_type),
    {
        if same_str(provider, "anilist") && media_type == MediaType::Anime {
            10
        } else if same_str(provider, "bangumi") && media_type == MediaType::Anime {
            8
        } else if same_str(provider, "tmdb") && media_type == MediaType::Movie {
            10
        } else if same_str(provider, "tmdb") && media_type == MediaType::Tv {
            9
        } else {
            5
        }
    }

    /// Points for the popularity, which is given in thousandths.
    pub fn score_popularity(popularity: Option<i64>) -> (r: i32)
        ensures
            r == popularity_points(popularity),
    {
        match popularity {
            Some(p) => if p > 1_000_000 {
                10
            } else if p > 100_000 {
                7
            } else if p > 10_000 {
                5
            } else {
                3
            },
            None => 5,
        }
    }

    /// The confidence bucket of a total score. A title score under 20 gives
    /// `NoMatch` whatever the total.
    pub fn calculate_confidence(total_score: i32, breakdown: &ScoreBreakdown) -> (r: Confidence)
        ensures
            r == confidence_of(total_score as int, breakdown.title_score as int),
            breakdown.title_score < 20 ==> r == Confidence::NoMatch,
    {
        if breakdown.title_score < 20 {
            return Confidence::NoMatch;
        }
        if 90 <= total_score && total_score <= 100 {
            Confidence::Exact
        } else if 75 <= total_score && total_score <= 89 {
            Confidence::High
        } else if 55 <= total_score && total_score <= 74 {
            Confidence::Medium
        } else if 35 <= total_score && total_score <= 54 {
            Confidence::Low
        } else {
            Confidence::NoMatch
        }
    }

    /// Score a single match.
    pub fn score_match(info: &MediaInfo, parsed: &ParsedMedia) -> (r: ScoredMatch)
        ensures
            r@ == scored(info@, parsed@),
            r.breakdown.within_bounds(),
            r.score == r.breakdown.total(),
            0 <= r.score <= 100,
            r.breakdown.title_score < 20 ==> r.confidence == Confidence::NoMatch,
    {
        proof {
            lemma_breakdown_bounds(info@, parsed@);
        }
        let titles = info.all_titles();
        let breakdown = ScoreBreakdown {
            title_score: Self::score_title(titles.as_slice(), parsed.title.as_str()),
            year_score: Self::score_year(info.year, parsed.year),
            type_score: Self::score_type(info.media_type, parsed.hint),
            provider_score: Self::score_provider(info.provider.as_str(), info.media_type),
            popularity_score: Self::score_popularity(info.popularity),
        };
        let total_score = breakdown.title_score + breakdown.year_score + breakdown.type_score
            + breakdown.provider_score + breakdown.popularity_score;
        let confidence = Self::calculate_confidence(total_score, &breakdown);
        ScoredMatch { info: info.clone(), score: total_score, confidence, breakdown }
    }
}

/// Ranking one candidate more: the ranking of the others, with the new one
/// put in at its insertion point.
pub proof fn lemma_ranked_step(matches: Seq<ScoredMatchView>)
    requires
        matches.len() > 0,
    ensures
        ranked(matches) == ranked(matches.drop_last()).insert(
            insertion_point(scores_of(ranked(matches.drop_last())), matches.last().score as int),
            matches.last(),
        ),
{
    let scores = scores_of(matches);
    let shorter = matches.drop_last();
    let before = rank_order(scores.drop_last());
    let placed = before.map_values(|i: int| scores[i]);
    let at = insertion_point(placed, scores.last());
    assert(scores.drop_last() == scores_of(shorter));
    lemma_rank_order_is_permutation(scores_of(shorter));
    lemma_insertion_point(placed, scores.last());
    assert(ranked(shorter) =~= before.map_values(|i: int| matches[i]));
    assert(placed =~= scores_of(ranked(shorter)));
    assert(ranked(matches) =~= ranked(shorter).insert(at, matches.last()));
}

/// The ranking is a rearrangement of its input: as long as the input, with
/// every input position taken once; its scores never rise; and candidates of
/// equal score keep the order in which they were given.
pub proof fn lemma_ranked_is_stable_sort(matches: Seq<ScoredMatchView>)
    ensures
        ranked(matches).len() == matches.len(),
        rank_order(scores_of(matches)).no_duplicates(),
        forall|k: int|
            0 <= k < matches.len() ==> {
                let from = #[trigger] rank_order(scores_of(matches))[k];
                &&& 0 <= from < matches.len()
                &&& ranked(matches)[k] == matches[from]
            },
        forall|p: int, q: int|
            0 <= p < q < matches.len() ==> {
                let a = #[trigger] rank_order(scores_of(matches))[p];
                let b = #[trigger] rank_order(scores_of(matches))[q];
                &&& ranked(matches)[p].score >= ranked(matches)[q].score
                &&& (ranked(matches)[p].score == ranked(matches)[q].score ==> a < b)
            },
{
    lemma_rank_order_is_permutation(scores_of(matches));
    lemma_rank_order_sorted_stable(scores_of(matches));
}

impl Matcher {
    /// Score and rank search results against parsed media info: best score
    /// first, candidates of equal score in the order in which they were given.
    pub fn rank(results: Vec<MediaInfo>, parsed: &ParsedMedia) -> (r: Vec<ScoredMatch>)
        ensures
            match_views(r@) == ranked(scored_all(info_views(results@), parsed@)),
            r.len() == results.len(),
            forall|k: int|
                0 <= k < r.len() ==> 0 <= (#[trigger] r[k]).score <= 100
                    && r[k].breakdown.within_bounds() && r[k].score == r[k].breakdown.total()
                    && (r[k].breakdown.title_score < 20 ==> r[k].confidence
                    == Confidence::NoMatch),
    {
        let ghost all = scored_all(info_views(results@), parsed@);
        let mut out: Vec<ScoredMatch> = Vec::new();
        let mut i: usize = 0;
        assert(match_views(out@) =~= ranked(all.take(0)));
        while i < results.len()
            invariant
                i <= results.len(),
                all == scored_all(info_views(results@), parsed@),
                out.len() == i,
                match_views(out@) == ranked(all.take(i as int)),
                forall|k: int|
                    0 <= k < out.len() ==> 0 <= (#[trigger] out[k]).score <= 100
                        && out[k].breakdown.within_bounds() && out[k].score
                        == out[k].breakdown.total() && (out[k].breakdown.title_score < 20
                        ==> out[k].confidence == Confidence::NoMatch),
            decreases results.len() - i,
        {
            let m = Self::score_match(&results[i], parsed);
            let ghost placed = scores_of(match_views(out@));
            let mut at: usize = out.len();
            assert(placed.take(at as int) == placed);
            while at > 0 && out[at - 1].score < m.score
                invariant
                    at <= out.len(),
                    placed == scores_of(match_views(out@)),
                    insertion_point(placed, m.score as int) == insertion_point(
                        placed.take(at as int),
                        m.score as int,
                    ),
                decreases at,
            {
                assert(placed.take(at as int).drop_last() == placed.take(at - 1));
                assert(placed.take(at as int).last() == out[at - 1].score);
                at = at - 1;
            }
            proof {
                if at > 0 {
                    assert(placed.take(at as int).last() == out[at - 1].score);
                }
                let upto = all.take(i + 1);
                assert(upto.drop_last() == all.take(i as int));
                assert(upto.last() == m@);
                lemma_ranked_step(upto);
            }
            let ghost before = match_views(out@);
            let ghost old_out = out@;
            out.insert(at, m);
            assert(match_views(out@) =~= before.insert(at as int, m@));
            assert forall|k: int| 0 <= k < out.len() implies 0 <= (#[trigger] out[k]).score
                <= 100 && out[k].breakdown.within_bounds() && out[k].score
                == out[k].breakdown.total() && (out[k].breakdown.title_score < 20
                ==> out[k].confidence == Confidence::NoMatch) by {
                if k < at {
                    assert(out[k] == old_out[k]);
                } else if k > at {
                    assert(out[k] == old_out[k - 1]);
                }
            }
            i = i + 1;
        }
        assert(all.take(results.len() as int) == all);
        out
    }

    /// Get the best match if confidence is high enough: the first of the
    /// ranking, where its confidence is `Medium` or stronger.
    pub fn best_match(results: Vec<MediaInfo>, parsed: &ParsedMedia) -> (r: Option<ScoredMatch>)
        ensures
            match r {
                Some(m) => {
                    &&& results.len() > 0
                    &&& m@ == ranked(scored_all(info_views(results@), parsed@))[0]
                    &&& m.confidence.level() >= Confidence::Medium.level()
                },
                None => results.len() == 0 || ranked(
                    scored_all(info_views(results@), parsed@),
                )[0].confidence.level() < Confidence::Medium.level(),
            },
    {
        let mut ranked_list = Self::rank(results, parsed);
        if ranked_list.len() == 0 {
            return None;
        }
        let best = ranked_list.swap_remove(0);
        if best.confidence.at_least(Confidence::Medium) {
            Some(best)
        } else {
            None
        }
    }
}

/// A candidate whose title score is under 20 has no confidence, whatever
/// its total score.
pub proof fn lemma_weak_title_has_no_confidence(info: MediaInfoView, parsed: ParsedMediaView)
    requires
        best_title_points(info.all_titles(), parsed.title) < 20,
    ensures
        scored(info, parsed).confidence == Confidence::NoMatch,
{
    lemma_breakdown_bounds(info, parsed);
}

/// A candidate one of whose titles has the normal form of the parsed title,
/// whose year is the parsed year and whose kind is the one the hint names,
/// has confidence `High` or `Exact`.
pub proof fn lemma_exact_match_is_high(info: MediaInfoView, parsed: ParsedMediaView, which: int)
    requires
        0 <= which < info.all_titles().len(),
        normalized(info.all_titles()[which]) == normalized(parsed.title),
        info.year == parsed.year,
        type_points(info.media_type, parsed.hint) == 20,
    ensures
        scored(info, parsed).confidence.level() >= Confidence::High.level(),
{
    lemma_best_title_points(info.all_titles(), parsed.title);
    lemma_similarity_points_bounds(normalized(parsed.title), normalized(parsed.title));
    assert(title_points(info.all_titles()[which], parsed.title) == 40);
}

} // verus!
