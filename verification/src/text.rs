//! Character sequences: the conversions between strings and vectors of
//! characters, Unicode character classes, and the small text operations that
//! the parser, the ranker and the providers share.

use vstd::prelude::*;

verus! {

/// Whether `c` has the Unicode `White_Space` property.
pub uninterp spec fn is_whitespace(c: char) -> bool;

/// Whether `c` is alphabetic or numeric in the sense of the Unicode character
/// database.
pub uninterp spec fn is_alphanumeric(c: char) -> bool;

/// The lower-case form of a text, by the Unicode default case conversion.
pub uninterp spec fn lowercase(s: Seq<char>) -> Seq<char>;

/// The upper-case form of a text, by the Unicode default case conversion.
pub uninterp spec fn uppercase(s: Seq<char>) -> Seq<char>;

/// Calls `char::is_whitespace`. The contract only names the answer, which is a
/// function of the character alone.
#[verifier::external_body]
pub(crate) fn char_is_whitespace(c: char) -> (r: bool)
    ensures
        r == is_whitespace(c),
{
    c.is_whitespace()
}

/// Calls `char::is_alphanumeric`. The contract only names the answer, which is
/// a function of the character alone.
#[verifier::external_body]
pub(crate) fn char_is_alphanumeric(c: char) -> (r: bool)
    ensures
        r == is_alphanumeric(c),
{
    c.is_alphanumeric()
}

/// Calls `str::to_lowercase`. The contract only names the result, which is a
/// function of the text alone.
#[verifier::external_body]
pub(crate) fn to_lowercase(s: &str) -> (r: String)
    ensures
        r@ == lowercase(s@),
{
    s.to_lowercase()
}

/// Calls `str::to_uppercase`. The contract only names the result, which is a
/// function of the text alone.
#[verifier::external_body]
pub(crate) fn to_uppercase(s: &str) -> (r: String)
    ensures
        r@ == uppercase(s@),
{
    s.to_uppercase()
}

/// Collects characters into a `String` with `Iterator::collect`; the string
/// holds exactly the characters given, in order.
#[verifier::external_body]
pub(crate) fn string_of(v: &[char]) -> (s: String)
    ensures
        s@ == v@,
{
    v.iter().collect()
}

/// The characters of a string, in order.
pub fn chars_of(s: &str) -> (v: Vec<char>)
    ensures
        v@ == s@,
{
    let mut v: Vec<char> = Vec::new();
    for c in it: s.chars()
        invariant
            it.seq() == s@,
            v@ == it.seq().take(it.index()),
    {
        v.push(c);
    }
    v
}

/// Whether two texts hold the same characters.
pub fn same_text(a: &[char], b: &[char]) -> (r: bool)
    ensures
        r == (a@ == b@),
{
    if a.len() != b.len() {
        return false;
    }
    let mut i: usize = 0;
    while i < a.len()
        invariant
            i <= a.len(),
            a.len() == b.len(),
            forall|j: int| 0 <= j < i ==> a@[j] == b@[j],
        decreases a.len() - i,
    {
        if a[i] != b[i] {
            return false;
        }
        i = i + 1;
    }
    assert(a@ =~= b@);
    true
}

/// Whether two strings hold the same text.
pub fn same_str(a: &str, b: &str) -> (r: bool)
    ensures
        r == (a@ == b@),
{
    let ca = chars_of(a);
    let cb = chars_of(b);
    same_text(ca.as_slice(), cb.as_slice())
}

/// Whether `needle` stands in `hay` at offset `at`.
pub open spec fn occurs_at(hay: Seq<char>, needle: Seq<char>, at: int) -> bool {
    &&& 0 <= at
    &&& at + needle.len() <= hay.len()
    &&& hay.subrange(at, at + needle.len()) == needle
}

/// Whether `needle` stands somewhere in `hay`.
pub open spec fn contains_text(hay: Seq<char>, needle: Seq<char>) -> bool {
    exists|at: int| occurs_at(hay, needle, at)
}

/// Whether `at` is the first offset at which `needle` stands in `hay`.
pub open spec fn first_occurrence(hay: Seq<char>, needle: Seq<char>, at: int) -> bool {
    &&& occurs_at(hay, needle, at)
    &&& forall|k: int| 0 <= k < at ==> !occurs_at(hay, needle, k)
}

/// Whether `needle` stands in `hay` at offset `at`; `at` may be any offset.
pub fn matches_at(hay: &[char], needle: &[char], at: usize) -> (r: bool)
    ensures
        r == occurs_at(hay@, needle@, at as int),
{
    if at > hay.len() || needle.len() > hay.len() - at {
        return false;
    }
    let mut i: usize = 0;
    while i < needle.len()
        invariant
            i <= needle.len(),
            at + needle.len() <= hay.len(),
            forall|j: int| 0 <= j < i ==> hay@[at + j] == needle@[j],
        decreases needle.len() - i,
    {
        if hay[at + i] != needle[i] {
            assert(hay@.subrange(at as int, at + needle.len())[i as int] == hay@[at + i]);
            return false;
        }
        i = i + 1;
    }
    assert(hay@.subrange(at as int, at + needle.len()) =~= needle@);
    true
}

/// The first offset at which `needle` stands in `hay`, if there is one.
pub fn find_text(hay: &[char], needle: &[char]) -> (r: Option<usize>)
    ensures
        match r {
            Some(at) => first_occurrence(hay@, needle@, at as int),
            None => !contains_text(hay@, needle@),
        },
{
    if needle.len() > hay.len() {
        return None;
    }
    let last: usize = hay.len() - needle.len();
    let mut at: usize = 0;
    loop
        invariant
            last == hay.len() - needle.len(),
            needle.len() <= hay.len(),
            at <= last,
            forall|k: int| 0 <= k < at ==> !occurs_at(hay@, needle@, k),
        decreases last - at,
    {
        if matches_at(hay, needle, at) {
            return Some(at);
        }
        if at == last {
            return None;
        }
        at = at + 1;
    }
}


/// Reading `s` from the left: the words that are complete, and the word that
/// is being read. A word is a maximal run of characters that are not white
/// space.
pub open spec fn word_scan(s: Seq<char>) -> (Seq<Seq<char>>, Seq<char>)
    decreases s.len(),
{
    if s.len() == 0 {
        (Seq::empty(), Seq::empty())
    } else {
        let (done, current) = word_scan(s.drop_last());
        if is_whitespace(s.last()) {
            if current.len() > 0 {
                (done.push(current), Seq::empty())
            } else {
                (done, current)
            }
        } else {
            (done, current.push(s.last()))
        }
    }
}

/// The words of `s`, in order: its maximal runs of characters that are not
/// white space.
pub open spec fn words(s: Seq<char>) -> Seq<Seq<char>> {
    let (done, current) = word_scan(s);
    if current.len() > 0 {
        done.push(current)
    } else {
        done
    }
}

/// The words with one space between each two neighbours.
pub open spec fn joined(ws: Seq<Seq<char>>) -> Seq<char>
    decreases ws.len(),
{
    if ws.len() == 0 {
        Seq::empty()
    } else if ws.len() == 1 {
        ws[0]
    } else {
        joined(ws.drop_last()) + seq![' '] + ws.last()
    }
}

/// The views of a list of texts, in order.
pub open spec fn texts(v: Seq<Vec<char>>) -> Seq<Seq<char>> {
    v.map_values(|w: Vec<char>| w@)
}

/// Splits a text into its words.
pub fn split_words(s: &[char]) -> (r: Vec<Vec<char>>)
    ensures
        texts(r@) == words(s@),
{
    let mut done: Vec<Vec<char>> = Vec::new();
    let mut current: Vec<char> = Vec::new();
    let mut i: usize = 0;
    while i < s.len()
        invariant
            i <= s.len(),
            (texts(done@), current@) == word_scan(s@.take(i as int)),
        decreases s.len() - i,
    {
        let c = s[i];
        proof {
            assert(s@.take(i + 1).drop_last() == s@.take(i as int));
            assert(s@.take(i + 1).last() == c);
        }
        if char_is_whitespace(c) {
            if current.len() > 0 {
                let ghost before = texts(done@);
                let ghost word = current@;
                done.push(current);
                current = Vec::new();
                assert(texts(done@) =~= before.push(word));
            }
        } else {
            current.push(c);
        }
        i = i + 1;
    }
    assert(s@.take(s.len() as int) == s@);
    if current.len() > 0 {
        let ghost before = texts(done@);
        let ghost word = current@;
        done.push(current);
        assert(texts(done@) =~= before.push(word));
    }
    done
}

/// Joins words with single spaces.
pub fn join_words(ws: &Vec<Vec<char>>) -> (r: Vec<char>)
    ensures
        r@ == joined(texts(ws@)),
{
    let mut out: Vec<char> = Vec::new();
    let mut i: usize = 0;
    while i < ws.len()
        invariant
            i <= ws.len(),
            out@ == joined(texts(ws@).take(i as int)),
        decreases ws.len() - i,
    {
        let ghost before = out@;
        if i > 0 {
            out.push(' ');
        }
        let w = &ws[i];
        let ghost spaced = out@;
        let mut j: usize = 0;
        while j < w.len()
            invariant
                j <= w.len(),
                out@ == spaced + w@.take(j as int),
            decreases w.len() - j,
        {
            out.push(w[j]);
            assert(w@.take(j + 1) == w@.take(j as int).push(w@[j as int]));
            j = j + 1;
        }
        proof {
            let upto = texts(ws@).take(i + 1);
            assert(w@.take(w.len() as int) == w@);
            assert(upto.drop_last() == texts(ws@).take(i as int));
            assert(upto.last() == w@);
            if i == 0 {
                assert(spaced + w@ =~= w@);
                assert(upto[0] == w@);
            } else if i == 1 {
                assert(joined(upto.drop_last()) == before);
                assert(spaced == before + seq![' ']);
            } else {
                assert(spaced == before + seq![' ']);
            }
        }
        i = i + 1;
    }
    assert(texts(ws@).take(ws.len() as int) == texts(ws@));
    out
}

/// The text without its leading white space.
pub open spec fn trimmed_start(s: Seq<char>) -> Seq<char>
    decreases s.len(),
{
    if s.len() > 0 && is_whitespace(s.first()) {
        trimmed_start(s.drop_first())
    } else {
        s
    }
}

/// The text without its trailing white space.
pub open spec fn trimmed_end(s: Seq<char>) -> Seq<char>
    decreases s.len(),
{
    if s.len() > 0 && is_whitespace(s.last()) {
        trimmed_end(s.drop_last())
    } else {
        s
    }
}

/// The text without white space at either end.
pub open spec fn trimmed(s: Seq<char>) -> Seq<char> {
    trimmed_end(trimmed_start(s))
}

/// Removes white space from both ends of a text.
pub fn trim(s: &[char]) -> (r: Vec<char>)
    ensures
        r@ == trimmed(s@),
{
    let mut start: usize = 0;
    assert(s@.skip(0) == s@);
    while start < s.len() && char_is_whitespace(s[start])
        invariant
            start <= s.len(),
            trimmed_start(s@) == trimmed_start(s@.skip(start as int)),
        decreases s.len() - start,
    {
        assert(s@.skip(start as int).drop_first() == s@.skip(start + 1));
        start = start + 1;
    }
    let mut end: usize = s.len();
    assert(s@.subrange(start as int, end as int) == s@.skip(start as int));
    while end > start && char_is_whitespace(s[end - 1])
        invariant
            start <= end <= s.len(),
            trimmed_start(s@) == s@.skip(start as int),
            trimmed(s@) == trimmed_end(s@.subrange(start as int, end as int)),
        decreases end - start,
    {
        assert(s@.subrange(start as int, end as int).drop_last() == s@.subrange(
            start as int,
            end - 1,
        ));
        end = end - 1;
    }
    let mut out: Vec<char> = Vec::new();
    let mut i: usize = start;
    while i < end
        invariant
            start <= i <= end <= s.len(),
            out@ == s@.subrange(start as int, i as int),
        decreases end - i,
    {
        out.push(s[i]);
        assert(s@.subrange(start as int, i + 1) == s@.subrange(start as int, i as int).push(
            s@[i as int],
        ));
        i = i + 1;
    }
    out
}

/// The text in which, of each run of white space, only the first character
/// is left.
pub open spec fn collapsed(s: Seq<char>) -> Seq<char>
    decreases s.len(),
{
    if s.len() == 0 {
        s
    } else {
        let rest = collapsed(s.drop_last());
        if is_whitespace(s.last()) && s.len() >= 2 && is_whitespace(s[s.len() - 2]) {
            rest
        } else {
            rest.push(s.last())
        }
    }
}

/// Drops every white-space character that follows another one.
pub fn collapse_whitespace(s: &[char]) -> (r: Vec<char>)
    ensures
        r@ == collapsed(s@),
{
    let mut out: Vec<char> = Vec::new();
    let mut prev_space = false;
    let mut i: usize = 0;
    while i < s.len()
        invariant
            i <= s.len(),
            out@ == collapsed(s@.take(i as int)),
            prev_space == (i > 0 && is_whitespace(s@[i - 1])),
        decreases s.len() - i,
    {
        let c = s[i];
        let space = char_is_whitespace(c);
        proof {
            let upto = s@.take(i + 1);
            assert(upto.drop_last() == s@.take(i as int));
            assert(upto.last() == c);
            if i > 0 {
                assert(upto[upto.len() - 2] == s@[i - 1]);
            }
        }
        if !(space && prev_space) {
            out.push(c);
        }
        prev_space = space;
        i = i + 1;
    }
    assert(s@.take(s.len() as int) == s@);
    out
}

/// Whether a character is alphanumeric or white space.
pub open spec fn alphanumeric_or_space(c: char) -> bool {
    is_alphanumeric(c) || is_whitespace(c)
}

/// Keeps the characters that are alphanumeric or white space.
pub fn keep_alphanumeric_and_space(s: &[char]) -> (r: Vec<char>)
    ensures
        r@ == s@.filter(|c: char| alphanumeric_or_space(c)),
{
    let ghost keep = |c: char| alphanumeric_or_space(c);
    let mut out: Vec<char> = Vec::new();
    let mut i: usize = 0;
    while i < s.len()
        invariant
            i <= s.len(),
            keep == (|c: char| alphanumeric_or_space(c)),
            out@ == s@.take(i as int).filter(keep),
        decreases s.len() - i,
    {
        let c = s[i];
        proof {
            reveal(Seq::filter);
            assert(s@.take(i + 1).drop_last() == s@.take(i as int));
            assert(s@.take(i + 1).last() == c);
        }
        if char_is_alphanumeric(c) || char_is_whitespace(c) {
            out.push(c);
        }
        i = i + 1;
    }
    assert(s@.take(s.len() as int) == s@);
    out
}

/// Whether `c` is one of the ten ASCII digits.
pub open spec fn is_digit(c: char) -> bool {
    '0' <= c <= '9'
}

/// The value of an ASCII digit.
pub open spec fn digit_value(c: char) -> int {
    c as int - '0' as int
}

/// The ASCII digit of a value from 0 to 9.
pub open spec fn digit_char(d: int) -> char {
    seq!['0', '1', '2', '3', '4', '5', '6', '7', '8', '9'][d]
}

/// Whether every character of `s` is an ASCII digit.
pub open spec fn all_digits(s: Seq<char>) -> bool {
    forall|i: int| 0 <= i < s.len() ==> is_digit(#[trigger] s[i])
}

/// The number that a run of ASCII digits writes in base ten.
pub open spec fn digits_value(s: Seq<char>) -> int
    decreases s.len(),
{
    if s.len() == 0 {
        0
    } else {
        10 * digits_value(s.drop_last()) + digit_value(s.last())
    }
}

/// The 32-bit integer that `s` writes: an optional sign, then one or more
/// ASCII digits and nothing else, with a value that fits.
pub open spec fn parsed_i32(s: Seq<char>) -> Option<i32> {
    let signed = s.len() > 0 && (s[0] == '-' || s[0] == '+');
    let digits = if signed {
        s.drop_first()
    } else {
        s
    };
    let value = if signed && s[0] == '-' {
        -digits_value(digits)
    } else {
        digits_value(digits)
    };
    if digits.len() > 0 && all_digits(digits) && i32::MIN <= value <= i32::MAX {
        Some(value as i32)
    } else {
        None
    }
}

/// A run of digits is worth at least as much as any of its beginnings, and
/// never less than 0.
pub proof fn lemma_digits_value_grows(s: Seq<char>, k: int)
    requires
        all_digits(s),
        0 <= k <= s.len(),
    ensures
        0 <= digits_value(s.take(k)) <= digits_value(s),
    decreases s.len() - k,
{
    lemma_digits_value_nonnegative(s.take(k));
    if k < s.len() {
        lemma_digits_value_grows(s, k + 1);
        assert(s.take(k + 1).drop_last() == s.take(k));
        assert(is_digit(s[k]));
        assert(s.take(k + 1).last() == s[k]);
    } else {
        assert(s.take(k) == s);
    }
}

/// A run of digits is worth at least 0.
pub proof fn lemma_digits_value_nonnegative(s: Seq<char>)
    requires
        all_digits(s),
    ensures
        0 <= digits_value(s),
    decreases s.len(),
{
    if s.len() > 0 {
        assert(is_digit(s.last()));
        assert forall|i: int| 0 <= i < s.drop_last().len() implies is_digit(
            #[trigger] s.drop_last()[i],
        ) by {
            assert(s.drop_last()[i] == s[i]);
        }
        lemma_digits_value_nonnegative(s.drop_last());
    }
}

/// Reads a 32-bit integer: an optional sign and then digits only.
pub fn parse_i32(s: &[char]) -> (r: Option<i32>)
    ensures
        r == parsed_i32(s@),
{
    if s.len() == 0 {
        return None;
    }
    let negative = s[0] == '-';
    let signed = negative || s[0] == '+';
    let first: usize = if signed {
        1
    } else {
        0
    };
    if first == s.len() {
        return None;
    }
    let ghost digits = s@.skip(first as int);
    assert(signed ==> digits == s@.drop_first());
    assert(!signed ==> digits == s@);
    let mut acc: i64 = 0;
    let mut i: usize = first;
    assert(digits.take(0) =~= Seq::<char>::empty());
    while i < s.len()
        invariant
            first <= i <= s.len(),
            first < s.len(),
            negative == (s@[0] == '-'),
            signed == (s@[0] == '-' || s@[0] == '+'),
            signed ==> digits == s@.drop_first(),
            !signed ==> digits == s@,
            digits == s@.skip(first as int),
            all_digits(digits.take(i - first)),
            acc == digits_value(digits.take(i - first)),
            0 <= acc <= 2147483648,
        decreases s.len() - i,
    {
        let c = s[i];
        assert(digits[i - first] == c);
        if !('0' <= c && c <= '9') {
            assert(!is_digit(digits[i - first]));
            return None;
        }
        let ghost upto = digits.take(i - first + 1);
        proof {
            assert(upto.drop_last() == digits.take(i - first));
            assert(upto.last() == c);
            assert forall|j: int| 0 <= j < upto.len() implies is_digit(#[trigger] upto[j]) by {
                if j < i - first {
                    assert(digits.take(i - first)[j] == upto[j]);
                }
            }
        }
        let d: i64 = (c as u32 - '0' as u32) as i64;
        let next: i64 = acc * 10 + d;
        assert(d == digit_value(c));
        assert(next == digits_value(upto));
        if next > 2147483648 {
            proof {
                if all_digits(digits) {
                    lemma_digits_value_grows(digits, i - first + 1);
                }
            }
            return None;
        }
        acc = next;
        i = i + 1;
    }
    assert(digits.take(s.len() - first) == digits);
    if negative {
        Some((-acc) as i32)
    } else if acc > 2147483647 {
        None
    } else {
        Some(acc as i32)
    }
}

/// The decimal digits of a number that is not negative, without leading
/// zeros.
pub open spec fn natural_text(n: int) -> Seq<char>
    decreases n,
{
    if n < 10 {
        seq![digit_char(n)]
    } else {
        natural_text(n / 10).push(digit_char(n % 10))
    }
}

/// A number in decimal, with a minus sign in front where it is negative.
pub open spec fn decimal_text(n: int) -> Seq<char> {
    if n < 0 {
        seq!['-'] + natural_text(-n)
    } else {
        natural_text(n)
    }
}

/// A number in decimal, filled up with zeros behind the sign until it is
/// `width` characters long.
pub open spec fn padded_text(n: int, width: int) -> Seq<char> {
    let sign = if n < 0 {
        seq!['-']
    } else {
        Seq::<char>::empty()
    };
    let body = natural_text(
        if n < 0 {
            -n
        } else {
            n
        },
    );
    let missing = width - sign.len() - body.len();
    let zeros = Seq::new(
        (if missing > 0 {
            missing
        } else {
            0
        }) as nat,
        |i: int| '0',
    );
    sign + zeros + body
}

/// The ASCII digit of a value from 0 to 9.
fn digit_of(d: u8) -> (c: char)
    requires
        d < 10,
    ensures
        c == digit_char(d as int),
{
    if d == 0 {
        '0'
    } else if d == 1 {
        '1'
    } else if d == 2 {
        '2'
    } else if d == 3 {
        '3'
    } else if d == 4 {
        '4'
    } else if d == 5 {
        '5'
    } else if d == 6 {
        '6'
    } else if d == 7 {
        '7'
    } else if d == 8 {
        '8'
    } else {
        '9'
    }
}

/// The decimal digits of a number, without leading zeros.
fn natural_digits(n: u64) -> (r: Vec<char>)
    ensures
        r@ == natural_text(n as int),
        1 <= r.len() <= 20,
    decreases n,
{
    if n < 10 {
        let mut out: Vec<char> = Vec::new();
        out.push(digit_of(n as u8));
        out
    } else {
        let mut out = natural_digits(n / 10);
        out.push(digit_of((n % 10) as u8));
        proof {
            reveal_with_fuel(pow10, 21);
            lemma_natural_text_len(n as int, 20);
        }
        out
    }
}

/// A number below the `k`-th power of ten has at most `k` digits.
pub proof fn lemma_natural_text_len(n: int, k: nat)
    requires
        0 <= n,
        k >= 1,
        n < pow10(k),
    ensures
        1 <= natural_text(n).len() <= k,
    decreases k,
{
    if n >= 10 {
        assert(k >= 2) by {
            if k == 1 {
                assert(pow10(1) == 10 * pow10(0));
            }
        }
        assert(pow10(k) == 10 * pow10((k - 1) as nat));
        lemma_natural_text_len(n / 10, (k - 1) as nat);
    }
}

/// The `k`-th power of ten.
pub open spec fn pow10(k: nat) -> int
    decreases k,
{
    if k == 0 {
        1
    } else {
        10 * pow10((k - 1) as nat)
    }
}

/// Writes a number that is not negative in decimal.
pub fn unsigned_decimal(n: u64) -> (r: Vec<char>)
    ensures
        r@ == natural_text(n as int),
{
    natural_digits(n)
}

/// Writes a number in decimal.
pub fn decimal(n: i64) -> (r: Vec<char>)
    ensures
        r@ == decimal_text(n as int),
{
    if n < 0 {
        let magnitude: u64 = if n == i64::MIN {
            9223372036854775808u64
        } else {
            (-n) as u64
        };
        let body = natural_digits(magnitude);
        let mut out: Vec<char> = Vec::new();
        out.push('-');
        append_chars(&mut out, body.as_slice());
        out
    } else {
        natural_digits(n as u64)
    }
}

/// Writes a number in decimal, filled up with zeros to `width` characters.
pub fn padded(n: i64, width: usize) -> (r: Vec<char>)
    ensures
        r@ == padded_text(n as int, width as int),
{
    let magnitude: u64 = if n == i64::MIN {
        9223372036854775808u64
    } else if n < 0 {
        (-n) as u64
    } else {
        n as u64
    };
    let body = natural_digits(magnitude);
    let mut out: Vec<char> = Vec::new();
    if n < 0 {
        out.push('-');
    }
    let ghost sign = out@;
    let used: usize = out.len() + body.len();
    let mut k: usize = used;
    while k < width
        invariant
            used <= k || used >= width,
            k <= width || used >= width,
            used >= width ==> k == used,
            out@ == sign + Seq::new((k - used) as nat, |i: int| '0'),
        decreases width - k,
    {
        out.push('0');
        k = k + 1;
        assert(out@ =~= sign + Seq::new((k - used) as nat, |i: int| '0'));
    }
    append_chars(&mut out, body.as_slice());
    out
}

/// Appends the characters of `more` to `out`.
pub fn append_chars(out: &mut Vec<char>, more: &[char])
    ensures
        final(out)@ == old(out)@ + more@,
{
    let mut i: usize = 0;
    while i < more.len()
        invariant
            i <= more.len(),
            out@ == old(out)@ + more@.take(i as int),
        decreases more.len() - i,
    {
        out.push(more[i]);
        assert(more@.take(i + 1) == more@.take(i as int).push(more@[i as int]));
        i = i + 1;
    }
    assert(more@.take(more.len() as int) == more@);
}

/// The text in which every occurrence of `from`, found from left to right
/// without overlap, is replaced by `to`. An empty `from` occurs nowhere.
pub open spec fn replaced(s: Seq<char>, from: Seq<char>, to: Seq<char>) -> Seq<char>
    decreases s.len(),
{
    if from.len() == 0 || s.len() < from.len() {
        s
    } else if occurs_at(s, from, 0) {
        to + replaced(s.skip(from.len() as int), from, to)
    } else {
        seq![s.first()] + replaced(s.drop_first(), from, to)
    }
}

/// Replaces every occurrence of `from` by `to`.
pub fn replace_text(s: &[char], from: &[char], to: &[char]) -> (r: Vec<char>)
    ensures
        r@ == replaced(s@, from@, to@),
{
    let mut out: Vec<char> = Vec::new();
    if from.len() == 0 {
        append_chars(&mut out, s);
        assert(out@ =~= s@);
        return out;
    }
    let mut i: usize = 0;
    assert(s@.skip(0) == s@);
    assert(out@ + replaced(s@, from@, to@) =~= replaced(s@, from@, to@));
    while i < s.len()
        invariant
            i <= s.len(),
            from.len() > 0,
            replaced(s@, from@, to@) == out@ + replaced(s@.skip(i as int), from@, to@),
        decreases s.len() - i,
    {
        let ghost rest = s@.skip(i as int);
        let ghost before = out@;
        if matches_at(s, from, i) {
            proof {
                assert(rest.subrange(0, from.len() as int) == s@.subrange(
                    i as int,
                    i + from.len(),
                ));
                assert(rest.skip(from.len() as int) == s@.skip(i + from.len()));
            }
            append_chars(&mut out, to);
            i = i + from.len();
            assert(out@ + replaced(s@.skip(i as int), from@, to@) =~= before + (to@ + replaced(
                s@.skip(i as int),
                from@,
                to@,
            )));
        } else {
            proof {
                if rest.len() >= from.len() {
                    assert(rest.subrange(0, from.len() as int) == s@.subrange(
                        i as int,
                        i + from.len(),
                    ));
                }
                assert(rest.first() == s@[i as int]);
                assert(rest.drop_first() == s@.skip(i + 1));
            }
            if s.len() - i < from.len() {
                append_chars(&mut out, tail_of(s, i));
                assert(out@ =~= before + rest);
                return out;
            }
            out.push(s[i]);
            i = i + 1;
            assert(out@ + replaced(s@.skip(i as int), from@, to@) =~= before + (seq![
                s@[i - 1],
            ] + replaced(s@.skip(i as int), from@, to@)));
        }
    }
    assert(out@ + Seq::<char>::empty() =~= out@);
    out
}

/// The part of a text from an offset on.
fn tail_of(s: &[char], from: usize) -> (r: &[char])
    requires
        from <= s.len(),
    ensures
        r@ == s@.skip(from as int),
{
    vstd::slice::slice_subrange(s, from, s.len())
}

/// The lower-case form of an ASCII capital letter; any other character
/// itself.
pub open spec fn ascii_lower(c: char) -> char {
    if 'A' <= c <= 'Z' {
        ((c as u8) + 32) as char
    } else {
        c
    }
}

/// The text with its ASCII capital letters in lower case.
pub open spec fn ascii_lowercase(s: Seq<char>) -> Seq<char> {
    s.map_values(|c: char| ascii_lower(c))
}

/// Whether two texts are equal but for the case of their ASCII letters.
pub open spec fn same_ignoring_ascii_case(a: Seq<char>, b: Seq<char>) -> bool {
    ascii_lowercase(a) == ascii_lowercase(b)
}

/// The lower-case form of an ASCII capital letter.
pub fn to_ascii_lower(c: char) -> (r: char)
    ensures
        r == ascii_lower(c),
{
    if 'A' <= c && c <= 'Z' {
        ((c as u8) + 32) as char
    } else {
        c
    }
}

/// Puts the ASCII capital letters of a text in lower case.
pub fn to_ascii_lowercase(s: &[char]) -> (r: Vec<char>)
    ensures
        r@ == ascii_lowercase(s@),
{
    let mut out: Vec<char> = Vec::new();
    let mut i: usize = 0;
    while i < s.len()
        invariant
            i <= s.len(),
            out@ == ascii_lowercase(s@.take(i as int)),
        decreases s.len() - i,
    {
        out.push(to_ascii_lower(s[i]));
        assert(out@ =~= ascii_lowercase(s@.take(i + 1)));
        i = i + 1;
    }
    assert(s@.take(s.len() as int) == s@);
    out
}

/// Whether two texts are equal but for the case of their ASCII letters.
pub fn eq_ignore_ascii_case(a: &[char], b: &[char]) -> (r: bool)
    ensures
        r == same_ignoring_ascii_case(a@, b@),
{
    let la = to_ascii_lowercase(a);
    let lb = to_ascii_lowercase(b);
    same_text(la.as_slice(), lb.as_slice())
}

} // verus!
