//! Splitting text into lines and words, and reading decimal numbers, as `str` does.
use vstd::prelude::*;
use crate::text::{chars_of, string_from, unicode_whitespace, is_whitespace, views};

verus! {

/// Splitting state for `str::lines`: the finished lines and the one being read.
pub open spec fn lines_state(s: Seq<char>) -> (Seq<Seq<char>>, Seq<char>)
    decreases s.len(),
{
    if s.len() == 0 {
        (Seq::empty(), Seq::empty())
    } else {
        let (done, cur) = lines_state(s.drop_last());
        if s.last() == '\n' {
            (done.push(without_cr(cur)), Seq::empty())
        } else {
            (done, cur.push(s.last()))
        }
    }
}

/// A line without the `'\r'` of a `"\r\n"` ending.
pub open spec fn without_cr(line: Seq<char>) -> Seq<char> {
    if line.len() > 0 && line.last() == '\r' {
        line.drop_last()
    } else {
        line
    }
}

/// The lines of `s` (`str::lines`): split at `'\n'`, a `'\r'` before it dropped, and no
/// empty line after a final line break.
pub open spec fn text_lines(s: Seq<char>) -> Seq<Seq<char>> {
    let (done, cur) = lines_state(s);
    if cur.len() > 0 {
        done.push(cur)
    } else {
        done
    }
}

/// The lines of `s`, as `str::lines` gives them.
pub fn lines_of(s: &str) -> (r: Vec<String>)
    ensures
        views(r@) == text_lines(s@),
{
    let chars = chars_of(s);
    let mut done: Vec<String> = Vec::new();
    let mut cur: Vec<char> = Vec::new();
    let mut i: usize = 0;
    while i < chars.len()
        invariant
            i <= chars.len(),
            chars@ == s@,
            (views(done@), cur@) == lines_state(chars@.take(i as int)),
        decreases chars.len() - i,
    {
        let c = chars[i];
        assert(chars@.take(i + 1).drop_last() =~= chars@.take(i as int));
        if c == '\n' {
            let ghost before = cur@;
            if cur.len() > 0 && cur[cur.len() - 1] == '\r' {
                cur.pop();
            }
            assert(cur@ == without_cr(before));
            let line = string_from(&cur);
            done.push(line);
            assert(views(done@) =~= lines_state(chars@.take(i as int)).0.push(without_cr(before)));
            cur = Vec::new();
        } else {
            cur.push(c);
        }
        i = i + 1;
    }
    assert(chars@.take(chars.len() as int) =~= chars@);
    if cur.len() > 0 {
        let line = string_from(&cur);
        done.push(line);
        assert(views(done@) =~= lines_state(chars@).0.push(cur@));
    }
    done
}

/// Splitting state for `str::split_whitespace`.
pub open spec fn words_state(s: Seq<char>) -> (Seq<Seq<char>>, Seq<char>)
    decreases s.len(),
{
    if s.len() == 0 {
        (Seq::empty(), Seq::empty())
    } else {
        let (done, cur) = words_state(s.drop_last());
        if unicode_whitespace(s.last()) {
            if cur.len() > 0 {
                (done.push(cur), Seq::empty())
            } else {
                (done, Seq::empty())
            }
        } else {
            (done, cur.push(s.last()))
        }
    }
}

/// The non-empty runs of non-whitespace characters of `s` (`str::split_whitespace`).
pub open spec fn text_words(s: Seq<char>) -> Seq<Seq<char>> {
    let (done, cur) = words_state(s);
    if cur.len() > 0 {
        done.push(cur)
    } else {
        done
    }
}

/// The words of `s`, as `str::split_whitespace` gives them.
pub fn words_of(s: &str) -> (r: Vec<String>)
    ensures
        views(r@) == text_words(s@),
{
    let chars = chars_of(s);
    let mut done: Vec<String> = Vec::new();
    let mut cur: Vec<char> = Vec::new();
    let mut i: usize = 0;
    while i < chars.len()
        invariant
            i <= chars.len(),
            chars@ == s@,
            (views(done@), cur@) == words_state(chars@.take(i as int)),
        decreases chars.len() - i,
    {
        let c = chars[i];
        assert(chars@.take(i + 1).drop_last() =~= chars@.take(i as int));
        if is_whitespace(c) {
            if cur.len() > 0 {
                let w = string_from(&cur);
                done.push(w);
                assert(views(done@) =~= words_state(chars@.take(i as int)).0.push(cur@));
                cur = Vec::new();
            }
        } else {
            cur.push(c);
        }
        i = i + 1;
    }
    assert(chars@.take(chars.len() as int) =~= chars@);
    if cur.len() > 0 {
        let w = string_from(&cur);
        done.push(w);
        assert(views(done@) =~= words_state(chars@).0.push(cur@));
    }
    done
}

pub open spec fn is_digit(c: char) -> bool {
    '0' <= c <= '9'
}

pub open spec fn all_digits(s: Seq<char>) -> bool {
    forall|i: int| 0 <= i < s.len() ==> is_digit(#[trigger] s[i])
}

/// The number that a string of decimal digits denotes.
pub open spec fn digits_value(s: Seq<char>) -> nat
    decreases s.len(),
{
    if s.len() == 0 {
        0
    } else {
        digits_value(s.drop_last()) * 10 + ((s.last() as int) - ('0' as int)) as nat
    }
}

/// The digits of an unsigned number in text: an optional `+`, then the digits.
pub open spec fn unsigned_digits(s: Seq<char>) -> Seq<char> {
    if s.len() > 0 && s[0] == '+' {
        s.drop_first()
    } else {
        s
    }
}

/// What `str::parse::<u64>` gives: the value of the digits after an optional `+`, if there
/// is at least one digit, nothing else, and the value fits.
pub open spec fn parse_u64_spec(s: Seq<char>) -> Option<u64> {
    let d = unsigned_digits(s);
    if d.len() > 0 && all_digits(d) && digits_value(d) <= u64::MAX {
        Some(digits_value(d) as u64)
    } else {
        None
    }
}

proof fn lemma_digits_value_grows(s: Seq<char>, k: int)
    requires
        0 <= k <= s.len(),
        all_digits(s),
    ensures
        digits_value(s.take(k)) <= digits_value(s),
    decreases s.len() - k,
{
    if k < s.len() {
        lemma_digits_value_grows(s, k + 1);
        assert(s.take(k + 1).drop_last() =~= s.take(k));
        assert(is_digit(s[k]));
    } else {
        assert(s.take(k) =~= s);
    }
}

/// Reads an unsigned decimal number as `str::parse::<u64>` does.
pub fn parse_u64(s: &str) -> (r: Option<u64>)
    ensures
        r == parse_u64_spec(s@),
{
    let chars = chars_of(s);
    let start: usize = if chars.len() > 0 && chars[0] == '+' { 1 } else { 0 };
    let ghost d = unsigned_digits(s@);
    assert(d =~= chars@.skip(start as int));
    if start >= chars.len() {
        return None;
    }
    let mut value: u64 = 0;
    let mut overflow = false;
    let mut i: usize = start;
    while i < chars.len()
        invariant
            start <= i <= chars.len(),
            chars@ == s@,
            d == chars@.skip(start as int),
            d == unsigned_digits(s@),
            all_digits(d.take(i - start)),
            !overflow ==> value == digits_value(d.take(i - start)),
            overflow ==> digits_value(d.take(i - start)) > u64::MAX,
        decreases chars.len() - i,
    {
        let c = chars[i];
        assert(d.take(i + 1 - start).drop_last() =~= d.take(i - start));
        assert(d[i - start] == c);
        if !('0' <= c && c <= '9') {
            assert(!all_digits(d));
            return None;
        }
        let dig: u64 = ((c as u32) - ('0' as u32)) as u64;
        if !overflow {
            if value > (u64::MAX - dig) / 10 {
                overflow = true;
                assert(value * 10 + dig > u64::MAX) by (nonlinear_arith)
                    requires value > (u64::MAX - dig) / 10, dig <= 9;
            } else {
                assert(value * 10 + dig <= u64::MAX) by (nonlinear_arith)
                    requires value <= (u64::MAX - dig) / 10, dig <= 9;
                value = value * 10 + dig;
            }
        } else {
            assert(digits_value(d.take(i + 1 - start)) >= digits_value(d.take(i - start))) by (nonlinear_arith)
                requires digits_value(d.take(i + 1 - start)) == digits_value(d.take(i - start)) * 10 + dig;
        }
        i = i + 1;
    }
    assert(d.take(i - start) =~= d);
    if overflow {
        None
    } else {
        Some(value)
    }
}


/// Splitting state for `str::split(c)`: the finished pieces and the one being read.
pub open spec fn split_state(s: Seq<char>, c: char) -> (Seq<Seq<char>>, Seq<char>)
    decreases s.len(),
{
    if s.len() == 0 {
        (Seq::empty(), Seq::empty())
    } else {
        let (done, cur) = split_state(s.drop_last(), c);
        if s.last() == c {
            (done.push(cur), Seq::empty())
        } else {
            (done, cur.push(s.last()))
        }
    }
}

/// The pieces of `s` between occurrences of `c`, empty ones included (`str::split`).
pub open spec fn split_on(s: Seq<char>, c: char) -> Seq<Seq<char>> {
    let (done, cur) = split_state(s, c);
    done.push(cur)
}

pub fn split_by(s: &str, c: char) -> (r: Vec<String>)
    ensures
        views(r@) == split_on(s@, c),
{
    let chars = chars_of(s);
    let mut done: Vec<String> = Vec::new();
    let mut cur: Vec<char> = Vec::new();
    let mut i: usize = 0;
    while i < chars.len()
        invariant
            i <= chars.len(),
            chars@ == s@,
            (views(done@), cur@) == split_state(chars@.take(i as int), c),
        decreases chars.len() - i,
    {
        let ch = chars[i];
        assert(chars@.take(i + 1).drop_last() =~= chars@.take(i as int));
        if ch == c {
            let piece = string_from(&cur);
            done.push(piece);
            assert(views(done@) =~= split_state(chars@.take(i as int), c).0.push(cur@));
            cur = Vec::new();
        } else {
            cur.push(ch);
        }
        i = i + 1;
    }
    assert(chars@.take(chars.len() as int) =~= chars@);
    let piece = string_from(&cur);
    done.push(piece);
    assert(views(done@) =~= split_state(chars@, c).0.push(cur@));
    done
}

} // verus!
