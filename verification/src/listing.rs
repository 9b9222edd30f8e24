//! Listing a library: which items a query selects, in which order, and which
//! page of them is shown.

use vstd::prelude::*;
use crate::order::{positions, rank_indices, rank_order, wide};
use crate::provider::common::{date_year, year_of_date};
use crate::text::{
    chars_of, contains_text, find_text, lowercase, same_str, to_lowercase,
};

verus! {

/// Query parameters for library listing.
#[derive(Debug)]
pub struct LibraryQuery {
    /// Page number (1-indexed)
    pub page: Option<u32>,
    /// Items per page
    pub limit: Option<u32>,
    /// Sort by field: title, year, rating, added
    pub sort: Option<String>,
    /// Sort order: asc, desc
    pub order: Option<String>,
    /// Search query
    pub search: Option<String>,
}

/// What a listing reads of a library item. The average of the votes is kept
/// in thousandths; the time at which the item was added is a count that
/// grows with time.
#[derive(Debug)]
pub struct ItemKeys {
    pub title: String,
    pub release_date: Option<String>,
    pub vote_average: Option<i64>,
    pub added_at: i64,
}

/// The field by which a listing is sorted.
#[derive(Clone, Copy, Debug, PartialEq, Eq, Structural)]
pub enum SortField {
    Title,
    Year,
    Rating,
    Added,
}

/// Whether `a` comes before `b` in the order of the dictionary, character by
/// character.
pub open spec fn lex_less(a: Seq<char>, b: Seq<char>) -> bool
    decreases a.len(),
{
    if b.len() == 0 {
        false
    } else if a.len() == 0 {
        true
    } else if a.first() < b.first() {
        true
    } else if a.first() > b.first() {
        false
    } else {
        lex_less(a.drop_first(), b.drop_first())
    }
}

/// Whether an item passes the search filter: every item where nothing is
/// searched for, else those whose title holds the search text, both in lower
/// case.
pub open spec fn passes(item: ItemKeys, search: Option<Seq<char>>) -> bool {
    match search {
        Some(s) => contains_text(lowercase(item.title@), lowercase(s)),
        None => true,
    }
}

/// The places of the items that pass the search filter, in order.
pub open spec fn passing(items: Seq<ItemKeys>, search: Option<Seq<char>>) -> Seq<int>
    decreases items.len(),
{
    if items.len() == 0 {
        Seq::empty()
    } else {
        let rest = passing(items.drop_last(), search);
        if passes(items.last(), search) {
            rest.push(items.len() - 1)
        } else {
            rest
        }
    }
}

/// The field that a name stands for; any other name sorts nothing.
pub open spec fn field_named(sort: Option<Seq<char>>) -> Option<SortField> {
    match sort {
        Some(s) => if s == "title"@ {
            Some(SortField::Title)
        } else if s == "year"@ {
            Some(SortField::Year)
        } else if s == "rating"@ {
            Some(SortField::Rating)
        } else if s == "added"@ {
            Some(SortField::Added)
        } else {
            None
        },
        None => None,
    }
}

/// How many of the chosen items have a title that comes before `title`.
pub open spec fn earlier_titles(items: Seq<ItemKeys>, chosen: Seq<int>, title: Seq<char>) -> int
    decreases chosen.len(),
{
    if chosen.len() == 0 {
        0
    } else {
        earlier_titles(items, chosen.drop_last(), title) + (if lex_less(
            items[chosen.last()].title@,
            title,
        ) {
            1int
        } else {
            0int
        })
    }
}

/// The number by which an item is sorted. By title, it is the number of
/// chosen titles that come before the item's; a year or a rating that is
/// missing counts as less than any that is there.
pub open spec fn sort_key(items: Seq<ItemKeys>, chosen: Seq<int>, field: SortField, at: int)
    -> int {
    let item = items[at];
    match field {
        SortField::Title => earlier_titles(items, chosen, item.title@),
        SortField::Year => match date_year(item.release_date.deep_view()) {
            Some(y) => y as int,
            None => i32::MIN - 1,
        },
        SortField::Rating => match item.vote_average {
            Some(v) => v as int,
            None => i64::MIN - 1,
        },
        SortField::Added => item.added_at as int,
    }
}

/// The scores by which the chosen items are ranked: their sort keys where
/// the greatest comes first, the negated keys where the least does.
pub open spec fn sort_scores(
    items: Seq<ItemKeys>,
    chosen: Seq<int>,
    field: SortField,
    descending: bool,
) -> Seq<int> {
    Seq::new(
        chosen.len(),
        |k: int|
            if descending {
                sort_key(items, chosen, field, chosen[k])
            } else {
                -sort_key(items, chosen, field, chosen[k])
            },
    )
}

/// The chosen items in the order of the listing: sorted by the field, items
/// of equal key in the order given; as given where no field is named.
pub open spec fn arranged(
    items: Seq<ItemKeys>,
    chosen: Seq<int>,
    sort: Option<Seq<char>>,
    order: Option<Seq<char>>,
) -> Seq<int> {
    match field_named(sort) {
        Some(field) => rank_order(
            sort_scores(items, chosen, field, order == Some("desc"@)),
        ).map_values(|p: int| chosen[p]),
        None => chosen,
    }
}

/// One page of a list: where a page and a limit are given, the items from
/// `(page - 1) * limit` on, `limit` of them at most, with page 0 counting as
/// page 1; else the whole list.
pub open spec fn page_of(list: Seq<int>, page: Option<u32>, limit: Option<u32>) -> Seq<int> {
    match (page, limit) {
        (Some(p), Some(l)) => {
            let first: int = if p == 0 {
                0
            } else {
                (p - 1) * l
            };
            if first < list.len() {
                list.subrange(
                    first,
                    if first + l < list.len() {
                        first + l
                    } else {
                        list.len() as int
                    },
                )
            } else {
                Seq::empty()
            }
        },
        _ => list,
    }
}

/// The places of the items that a query lists, in the order of the listing.
pub open spec fn listed(items: Seq<ItemKeys>, params: LibraryQuery) -> Seq<int> {
    page_of(
        arranged(
            items,
            passing(items, params.search.deep_view()),
            params.sort.deep_view(),
            params.order.deep_view(),
        ),
        params.page,
        params.limit,
    )
}

/// Whether `a` comes before `b` in the order of the dictionary.
pub fn text_less(a: &[char], b: &[char]) -> (r: bool)
    ensures
        r == lex_less(a@, b@),
{
    let mut i: usize = 0;
    assert(a@.skip(0) == a@ && b@.skip(0) == b@);
    while i < a.len() && i < b.len()
        invariant
            i <= a.len(),
            i <= b.len(),
            lex_less(a@, b@) == lex_less(a@.skip(i as int), b@.skip(i as int)),
        decreases a.len() - i,
    {
        proof {
            assert(a@.skip(i as int).first() == a@[i as int]);
            assert(b@.skip(i as int).first() == b@[i as int]);
            assert(a@.skip(i as int).drop_first() == a@.skip(i + 1));
            assert(b@.skip(i as int).drop_first() == b@.skip(i + 1));
        }
        if a[i] < b[i] {
            return true;
        }
        if a[i] > b[i] {
            return false;
        }
        i = i + 1;
    }
    i < b.len()
}

/// The field that a name stands for.
pub fn parse_sort_field(sort: &Option<String>) -> (r: Option<SortField>)
    ensures
        r == field_named(sort.deep_view()),
{
    match sort {
        Some(s) => {
            let s = s.as_str();
            if same_str(s, "title") {
                Some(SortField::Title)
            } else if same_str(s, "year") {
                Some(SortField::Year)
            } else if same_str(s, "rating") {
                Some(SortField::Rating)
            } else if same_str(s, "added") {
                Some(SortField::Added)
            } else {
                None
            }
        },
        None => None,
    }
}

/// The places of the items that pass the search filter.
pub fn filter_items(items: &Vec<ItemKeys>, search: &Option<String>) -> (r: Vec<usize>)
    ensures
        positions(r@) == passing(items@, search.deep_view()),
        forall|k: int| 0 <= k < r.len() ==> (#[trigger] r[k]) < items.len(),
{
    let needle: Option<Vec<char>> = match search {
        Some(s) => Some(chars_of(to_lowercase(s.as_str()).as_str())),
        None => None,
    };
    let mut out: Vec<usize> = Vec::new();
    let mut i: usize = 0;
    assert(positions(out@) =~= passing(items@.take(0), search.deep_view()));
    while i < items.len()
        invariant
            i <= items.len(),
            match needle {
                Some(n) => search.deep_view() matches Some(s) && n@ == lowercase(s),
                None => search is None,
            },
            positions(out@) == passing(items@.take(i as int), search.deep_view()),
            forall|k: int| 0 <= k < out.len() ==> (#[trigger] out[k]) < i,
        decreases items.len() - i,
    {
        proof {
            assert(items@.take(i + 1).drop_last() == items@.take(i as int));
            assert(items@.take(i + 1).last() == items[i as int]);
        }
        let keep = match &needle {
            Some(n) => {
                let title = chars_of(to_lowercase(items[i].title.as_str()).as_str());
                find_text(title.as_slice(), n.as_slice()).is_some()
            },
            None => true,
        };
        if keep {
            let ghost before = positions(out@);
            out.push(i);
            assert(positions(out@) =~= before.push(i as int));
        }
        i = i + 1;
    }
    assert(items@.take(items.len() as int) == items@);
    out
}

/// The number by which an item is sorted.
fn key_of(items: &Vec<ItemKeys>, chosen: &Vec<usize>, field: SortField, at: usize) -> (r: i128)
    requires
        at < items.len(),
        forall|k: int| 0 <= k < chosen.len() ==> (#[trigger] chosen[k]) < items.len(),
    ensures
        r == sort_key(items@, positions(chosen@), field, at as int),
        -9223372036854775809 <= r <= 18446744073709551615,
{
    match field {
        SortField::Title => {
            let title = chars_of(items[at].title.as_str());
            let ghost picked = positions(chosen@);
            let mut count: usize = 0;
            let mut k: usize = 0;
            while k < chosen.len()
                invariant
                    k <= chosen.len(),
                    count <= k,
                    picked == positions(chosen@),
                    title@ == items[at as int].title@,
                    forall|j: int| 0 <= j < chosen.len() ==> (#[trigger] chosen[j]) < items.len(),
                    count == earlier_titles(items@, picked.take(k as int), title@),
                decreases chosen.len() - k,
            {
                proof {
                    assert(picked.take(k + 1).drop_last() == picked.take(k as int));
                    assert(picked.take(k + 1).last() == chosen[k as int]);
                }
                let other = chars_of(items[chosen[k]].title.as_str());
                if text_less(other.as_slice(), title.as_slice()) {
                    count = count + 1;
                }
                k = k + 1;
            }
            assert(picked.take(chosen.len() as int) == picked);
            count as i128
        },
        SortField::Year => match year_of_date(&items[at].release_date) {
            Some(y) => y as i128,
            None => -2147483649,
        },
        SortField::Rating => match items[at].vote_average {
            Some(v) => v as i128,
            None => -9223372036854775809,
        },
        SortField::Added => items[at].added_at as i128,
    }
}

/// The chosen items in the order of the listing.
pub fn sort_items(
    items: &Vec<ItemKeys>,
    chosen: Vec<usize>,
    sort: &Option<String>,
    order: &Option<String>,
) -> (r: Vec<usize>)
    requires
        forall|k: int| 0 <= k < chosen.len() ==> (#[trigger] chosen[k]) < items.len(),
    ensures
        positions(r@) == arranged(
            items@,
            positions(chosen@),
            sort.deep_view(),
            order.deep_view(),
        ),
        r.len() == chosen.len(),
        forall|k: int| 0 <= k < r.len() ==> (#[trigger] r[k]) < items.len(),
{
    let field = match parse_sort_field(sort) {
        Some(f) => f,
        None => {
            return chosen;
        },
    };
    let descending = match order {
        Some(o) => same_str(o.as_str(), "desc"),
        None => false,
    };
    let ghost picked = positions(chosen@);
    let ghost wanted = sort_scores(items@, picked, field, descending);
    let mut scores: Vec<i128> = Vec::new();
    let mut k: usize = 0;
    while k < chosen.len()
        invariant
            k <= chosen.len(),
            scores.len() == k,
            picked == positions(chosen@),
            wanted == sort_scores(items@, picked, field, descending),
            forall|j: int| 0 <= j < chosen.len() ==> (#[trigger] chosen[j]) < items.len(),
            forall|j: int| 0 <= j < k ==> (#[trigger] scores[j]) == wanted[j],
        decreases chosen.len() - k,
    {
        let key = key_of(items, &chosen, field, chosen[k]);
        assert(picked[k as int] == chosen[k as int]);
        scores.push(
            if descending {
                key
            } else {
                -key
            },
        );
        k = k + 1;
    }
    assert(wide(scores@) =~= wanted);
    let order_of = rank_indices(&scores);
    let mut out: Vec<usize> = Vec::new();
    let mut p: usize = 0;
    while p < order_of.len()
        invariant
            p <= order_of.len(),
            out.len() == p,
            order_of.len() == chosen.len(),
            forall|j: int| 0 <= j < order_of.len() ==> (#[trigger] order_of[j]) < chosen.len(),
            forall|j: int| 0 <= j < chosen.len() ==> (#[trigger] chosen[j]) < items.len(),
            forall|j: int| 0 <= j < p ==> (#[trigger] out[j]) == chosen[order_of[j] as int],
        decreases order_of.len() - p,
    {
        out.push(chosen[order_of[p]]);
        p = p + 1;
    }
    assert(positions(out@) =~= positions(order_of@).map_values(|q: int| picked[q]));
    out
}

/// One page of a list.
pub fn paginate(list: Vec<usize>, page: Option<u32>, limit: Option<u32>) -> (r: Vec<usize>)
    ensures
        positions(r@) == page_of(positions(list@), page, limit),
        forall|k: int| 0 <= k < r.len() ==> list@.contains(#[trigger] r@[k]),
{
    let (p, l) = match (page, limit) {
        (Some(p), Some(l)) => (p, l),
        _ => {
            return list;
        },
    };
    let first: u64 = if p == 0 {
        0
    } else {
        assert((p - 1) * l <= 0xFFFF_FFFF * 0xFFFF_FFFF) by (nonlinear_arith)
            requires
                0 <= p - 1 <= 0xFFFF_FFFF,
                0 <= l <= 0xFFFF_FFFF,
        ;
        ((p - 1) as u64) * (l as u64)
    };
    let mut out: Vec<usize> = Vec::new();
    if first >= list.len() as u64 {
        assert(positions(out@) =~= Seq::<int>::empty());
        return out;
    }
    let start: usize = first as usize;
    let end: usize = if first + (l as u64) < list.len() as u64 {
        (first + (l as u64)) as usize
    } else {
        list.len()
    };
    let mut i: usize = start;
    while i < end
        invariant
            start <= i <= end <= list.len(),
            out@ == list@.subrange(start as int, i as int),
        decreases end - i,
    {
        out.push(list[i]);
        assert(list@.subrange(start as int, i + 1) == list@.subrange(start as int, i as int).push(
            list@[i as int],
        ));
        i = i + 1;
    }
    assert(positions(out@) =~= positions(list@).subrange(start as int, end as int));
    assert forall|k: int| 0 <= k < out.len() implies list@.contains(#[trigger] out@[k]) by {
        assert(list@[start + k] == out@[k]);
    }
    out
}

/// The places of the items that a query lists, in the order of the listing:
/// the items that pass the search filter, sorted, and of those one page.
pub fn apply_filters_and_sort(items: &Vec<ItemKeys>, params: &LibraryQuery) -> (r: Vec<usize>)
    ensures
        positions(r@) == listed(items@, *params),
        forall|k: int| 0 <= k < r.len() ==> (#[trigger] r[k]) < items.len(),
{
    let chosen = filter_items(items, &params.search);
    let sorted = sort_items(items, chosen, &params.sort, &params.order);
    let page = paginate(sorted, params.page, params.limit);
    assert forall|k: int| 0 <= k < page.len() implies (#[trigger] page[k]) < items.len() by {
        assert(sorted@.contains(page@[k]));
        let j = choose|j: int| 0 <= j < sorted.len() && sorted@[j] == page@[k];
        assert(sorted[j] < items.len());
    }
    page
}

} // verus!
