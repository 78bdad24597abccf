//! The `KEY=VALUE` lines of an os-release file.

use crate::scan::{find, find_in, range_is};
use vstd::prelude::*;

verus! {

/// `s` without the NUL characters at its start.
pub open spec fn skip_nul(s: Seq<char>) -> Seq<char>
    decreases s.len(),
{
    if s.len() > 0 && s[0] == '\0' {
        skip_nul(s.drop_first())
    } else {
        s
    }
}

/// `s` without the NUL characters at its end.
pub open spec fn drop_nul_tail(s: Seq<char>) -> Seq<char>
    decreases s.len(),
{
    if s.len() > 0 && s.last() == '\0' {
        drop_nul_tail(s.drop_last())
    } else {
        s
    }
}

/// `s` without the NUL characters at either end.
pub open spec fn trimmed(s: Seq<char>) -> Seq<char> {
    drop_nul_tail(skip_nul(s))
}

/// `line` without one carriage return at its end.
pub open spec fn strip_cr(line: Seq<char>) -> Seq<char> {
    if line.len() > 0 && line.last() == '\r' {
        line.drop_last()
    } else {
        line
    }
}

/// The first line of `s`: what stands before the first line feed, less a carriage
/// return that ends it; all of `s` where it holds no line feed.
pub open spec fn first_line(s: Seq<char>) -> Seq<char> {
    let n = find(s, '\n');
    if 0 <= n < s.len() {
        strip_cr(s.take(n))
    } else {
        s
    }
}

/// What follows the first line feed of `s`.
pub open spec fn after_first_line(s: Seq<char>) -> Seq<char> {
    let n = find(s, '\n');
    if 0 <= n < s.len() {
        s.skip(n + 1)
    } else {
        Seq::empty()
    }
}

/// The lines of `s`. A line ends with a line feed, or with a carriage return and
/// a line feed; the last line need not end with either.
pub open spec fn lines(s: Seq<char>) -> Seq<Seq<char>>
    decreases s.len(),
{
    if s.len() == 0 {
        Seq::empty()
    } else {
        seq![first_line(s)] + lines(after_first_line(s))
    }
}

/// The key and the value of a line: what stands before its first `=`, and what
/// stands between that and the next `=` or the end. A line without `=` has none.
pub open spec fn entry(line: Seq<char>) -> Option<(Seq<char>, Seq<char>)> {
    let k = find(line, '=');
    if 0 <= k < line.len() {
        let rest = line.skip(k + 1);
        Some((line.take(k), rest.take(find(rest, '='))))
    } else {
        None
    }
}

/// The value that `rows` give to `key`: that of the last row with this key.
pub open spec fn lookup(rows: Seq<Seq<char>>, key: Seq<char>) -> Option<Seq<char>>
    decreases rows.len(),
{
    if rows.len() == 0 {
        None
    } else {
        match entry(rows.last()) {
            Some((k, v)) if k == key => Some(v),
            _ => lookup(rows.drop_last(), key),
        }
    }
}

/// The characters of a string that may be absent.
pub open spec fn opt_text(s: Option<String>) -> Option<Seq<char>> {
    match s {
        Some(t) => Some(t@),
        None => None,
    }
}

/// Finds where the text of `chars` starts and ends once the NUL characters at
/// both ends are left out.
pub fn trim_bounds(chars: &Vec<char>) -> (bounds: (usize, usize))
    ensures
        bounds.0 <= bounds.1 <= chars.len(),
        chars@.skip(bounds.0 as int) == skip_nul(chars@),
        chars@.subrange(bounds.0 as int, bounds.1 as int) == trimmed(chars@),
{
    let n = chars.len();
    let mut start: usize = 0;
    proof {
        assert(chars@.skip(0) =~= chars@);
    }
    while start < n && chars[start] == '\0'
        invariant
            start <= n == chars.len(),
            skip_nul(chars@) == skip_nul(chars@.skip(start as int)),
        decreases n - start,
    {
        proof {
            assert(chars@.skip(start as int).drop_first() =~= chars@.skip(start + 1));
        }
        start += 1;
    }
    let ghost rest = chars@.skip(start as int);
    assert(skip_nul(chars@) == rest);
    let mut end: usize = n;
    proof {
        assert(chars@.subrange(start as int, n as int) =~= rest);
    }
    while end > start && chars[end - 1] == '\0'
        invariant
            start <= end <= n == chars.len(),
            drop_nul_tail(rest) == drop_nul_tail(chars@.subrange(start as int, end as int)),
        decreases end - start,
    {
        proof {
            assert(chars@.subrange(start as int, end as int).drop_last() =~= chars@.subrange(
                start as int,
                end - 1,
            ));
        }
        end -= 1;
    }
    (start, end)
}

/// The value that a field has after a line was read: the line's value where the
/// line's key is `word`, else what the field held.
pub(crate) fn updated(
    text: &str,
    chars: &Vec<char>,
    key_at: usize,
    eq_at: usize,
    value_end: usize,
    word: &str,
    current: Option<String>,
) -> (field: Option<String>)
    requires
        chars@ == text@,
        key_at <= eq_at < value_end <= chars.len(),
    ensures
        opt_text(field) == if chars@.subrange(key_at as int, eq_at as int) == word@ {
            Some(chars@.subrange(eq_at + 1, value_end as int))
        } else {
            opt_text(current)
        },
{
    if range_is(chars, key_at, eq_at, word) {
        Some(text.substring_char(eq_at + 1, value_end).to_owned())
    } else {
        current
    }
}

/// Finds the first line of `chars[pos..end]`: where it ends, and where the text
/// after its line ending starts.
pub fn next_line(chars: &Vec<char>, pos: usize, end: usize) -> (at: (usize, usize))
    requires
        pos < end <= chars.len(),
    ensures
        pos <= at.0 <= at.1 <= end,
        pos < at.1,
        chars@.subrange(pos as int, at.0 as int) == first_line(
            chars@.subrange(pos as int, end as int),
        ),
        chars@.subrange(at.1 as int, end as int) == after_first_line(
            chars@.subrange(pos as int, end as int),
        ),
{
    let ghost s = chars@.subrange(pos as int, end as int);
    let feed = find_in(chars, pos, end, '\n');
    if feed == end {
        proof {
            assert(chars@.subrange(end as int, end as int) =~= Seq::<char>::empty());
        }
        return (end, end);
    }
    proof {
        assert(s.take(feed - pos) =~= chars@.subrange(pos as int, feed as int));
        assert(s.skip(feed - pos + 1) =~= chars@.subrange(feed + 1, end as int));
    }
    if feed > pos && chars[feed - 1] == '\r' {
        proof {
            assert(chars@.subrange(pos as int, feed as int).drop_last() =~= chars@.subrange(
                pos as int,
                feed - 1,
            ));
        }
        (feed - 1, feed + 1)
    } else {
        (feed, feed + 1)
    }
}

/// Finds the key and the value of the line `chars[pos..end]`: where its first `=`
/// stands and where its value ends. A line without `=` has neither.
pub fn split_entry(chars: &Vec<char>, pos: usize, end: usize) -> (at: Option<(usize, usize)>)
    requires
        pos <= end <= chars.len(),
    ensures
        match at {
            Some((eq_at, value_end)) => {
                &&& pos <= eq_at < value_end <= end
                &&& entry(chars@.subrange(pos as int, end as int)) == Some(
                    (
                        chars@.subrange(pos as int, eq_at as int),
                        chars@.subrange(eq_at + 1, value_end as int),
                    ),
                )
            },
            None => entry(chars@.subrange(pos as int, end as int)) is None,
        },
{
    let ghost line = chars@.subrange(pos as int, end as int);
    let eq_at = find_in(chars, pos, end, '=');
    if eq_at == end {
        return None;
    }
    let value_end = find_in(chars, eq_at + 1, end, '=');
    proof {
        let rest = line.skip(eq_at - pos + 1);
        assert(rest =~= chars@.subrange(eq_at + 1, end as int));
        assert(line.take(eq_at - pos) =~= chars@.subrange(pos as int, eq_at as int));
        assert(rest.take(value_end - eq_at - 1) =~= chars@.subrange(eq_at + 1, value_end as int));
    }
    Some((eq_at, value_end))
}

/// The rows of `text`: its lines once the NUL characters at both ends are left out.
pub open spec fn rows_of(text: Seq<char>) -> Seq<Seq<char>> {
    lines(trimmed(text))
}

} // verus!
