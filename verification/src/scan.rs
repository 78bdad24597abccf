//! Searching and comparing runs of bytes and of characters.

use vstd::prelude::*;

verus! {

/// The index of the first `c` in `s`, or the length of `s` where it holds none.
pub open spec fn find<T>(s: Seq<T>, c: T) -> int
    decreases s.len(),
{
    if s.len() == 0 || s[0] == c {
        0
    } else {
        1 + find(s.drop_first(), c)
    }
}

/// `find` stays inside the text, stops on `c`, and passes over nothing that is `c`.
pub proof fn lemma_find<T>(s: Seq<T>, c: T)
    ensures
        0 <= find(s, c) <= s.len(),
        find(s, c) < s.len() ==> s[find(s, c)] == c,
        forall|i: int| 0 <= i < find(s, c) ==> s[i] != c,
    decreases s.len(),
{
    if s.len() == 0 || s[0] == c {
    } else {
        let rest = s.drop_first();
        lemma_find(rest, c);
        assert forall|i: int| 0 <= i < find(s, c) implies s[i] != c by {
            if i > 0 {
                assert(s[i] == rest[i - 1]);
            }
        }
    }
}

/// An index that holds `c` and has no `c` before it is the one that `find` gives.
pub proof fn lemma_find_is<T>(s: Seq<T>, c: T, at: int)
    requires
        0 <= at <= s.len(),
        at < s.len() ==> s[at] == c,
        forall|i: int| 0 <= i < at ==> s[i] != c,
    ensures
        find(s, c) == at,
{
    lemma_find(s, c);
    let found = find(s, c);
    if found < at {
        assert(s[found] == c);
    } else if found > at {
        assert(s[at] == c);
    }
}

/// The characters of `s`, one by one.
pub fn chars_of(s: &str) -> (chars: Vec<char>)
    ensures
        chars@ == s@,
{
    let mut chars: Vec<char> = Vec::new();
    for c in it: s.chars()
        invariant
            chars@ == it.seq().take(it.index() as int),
            it.seq() == s@,
    {
        chars.push(c);
        proof {
            assert(it.seq().take(it.index() + 1) =~= it.seq().take(it.index() as int).push(c));
        }
    }
    proof {
        assert(s@.take(s@.len() as int) =~= s@);
    }
    chars
}

/// The index of the first `b` in `s`, or the length of `s` where it holds none.
pub fn find_byte(s: &[u8], b: u8) -> (at: usize)
    ensures
        at <= s.len(),
        at == find(s@, b),
{
    let mut at: usize = 0;
    while at < s.len() && s[at] != b
        invariant
            at <= s.len(),
            forall|i: int| 0 <= i < at ==> s[i] != b,
        decreases s.len() - at,
    {
        at += 1;
    }
    proof {
        lemma_find_is(s@, b, at as int);
    }
    at
}

/// Looks for `c` in `s[from..to]` and gives the index in `s` where it stands, or `to`.
pub fn find_in(s: &Vec<char>, from: usize, to: usize, c: char) -> (at: usize)
    requires
        from <= to <= s.len(),
    ensures
        from <= at <= to,
        at == from + find(s@.subrange(from as int, to as int), c),
{
    let mut at = from;
    while at < to && s[at] != c
        invariant
            from <= at <= to <= s.len(),
            forall|i: int| from <= i < at ==> s[i] != c,
        decreases to - at,
    {
        at += 1;
    }
    proof {
        lemma_find_is(s@.subrange(from as int, to as int), c, at - from);
    }
    at
}

/// Whether `s[from..to]` reads exactly as `word`.
pub fn range_is(s: &Vec<char>, from: usize, to: usize, word: &str) -> (same: bool)
    requires
        from <= to <= s.len(),
    ensures
        same == (s@.subrange(from as int, to as int) == word@),
{
    let n = word.unicode_len();
    if to - from != n {
        return false;
    }
    let mut i: usize = 0;
    while i < n
        invariant
            from <= to <= s.len(),
            to - from == n,
            n == word@.len(),
            i <= n,
            forall|j: int| 0 <= j < i ==> s[from + j] == word@[j],
        decreases n - i,
    {
        if s[from + i] != word.get_char(i) {
            proof {
                assert(s@.subrange(from as int, to as int)[i as int] != word@[i as int]);
            }
            return false;
        }
        i += 1;
    }
    proof {
        assert(s@.subrange(from as int, to as int) =~= word@);
    }
    true
}

/// Whether `s` begins with `word`.
pub fn starts_with(s: &Vec<char>, word: &str) -> (starts: bool)
    ensures
        starts == word@.is_prefix_of(s@),
{
    let n = word.unicode_len();
    if n > s.len() {
        return false;
    }
    range_is(s, 0, n, word)
}

} // verus!
