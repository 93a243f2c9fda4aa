//! Strings as sequences of characters: comparing, finding a character,
//! and telling words apart.

use vstd::prelude::*;
use vstd::std_specs::iter::IteratorSpec;

verus! {

/// Whether `c` is white space: a character with the Unicode property
/// `White_Space`.
pub open spec fn is_space(c: char) -> bool {
    let n = c as u32;
    ||| 0x09 <= n <= 0x0d
    ||| n == 0x20
    ||| n == 0x85
    ||| n == 0xa0
    ||| n == 0x1680
    ||| 0x2000 <= n <= 0x200a
    ||| n == 0x2028
    ||| n == 0x2029
    ||| n == 0x202f
    ||| n == 0x205f
    ||| n == 0x3000
}

/// Where the run of white space that starts at `from` ends: the first index
/// at or after `from` that holds no white space, or the length of `s`.
pub open spec fn skip_space(s: Seq<char>, from: int) -> int
    decreases s.len() - from,
{
    if 0 <= from < s.len() && is_space(s[from]) {
        skip_space(s, from + 1)
    } else {
        from
    }
}

/// Where the word that starts at `from` ends: the first index at or after
/// `from` that holds white space, or the length of `s`.
pub open spec fn skip_word(s: Seq<char>, from: int) -> int
    decreases s.len() - from,
{
    if 0 <= from < s.len() && !is_space(s[from]) {
        skip_word(s, from + 1)
    } else {
        from
    }
}

/// Where the `n`-th word of `s` starts, counting from 0; the length of `s`
/// if `s` has no more than `n` words.
pub open spec fn word_start(s: Seq<char>, n: nat) -> int
    decreases n,
{
    if n == 0 {
        skip_space(s, 0)
    } else {
        skip_space(s, skip_word(s, word_start(s, (n - 1) as nat)))
    }
}

/// The `n`-th word of `s`, counting from 0: a longest run of characters that
/// are not white space. `None` if `s` has no more than `n` words.
pub open spec fn word(s: Seq<char>, n: nat) -> Option<Seq<char>> {
    let start = word_start(s, n);
    if 0 <= start < s.len() {
        Some(s.subrange(start, skip_word(s, start)))
    } else {
        None
    }
}

/// How often `c` occurs in `s`.
pub open spec fn occurrences(s: Seq<char>, c: char) -> nat
    decreases s.len(),
{
    if s.len() == 0 {
        0
    } else if s.last() == c {
        occurrences(s.drop_last(), c) + 1
    } else {
        occurrences(s.drop_last(), c)
    }
}

/// The last index at which `s` holds `c`.
pub open spec fn last_index(s: Seq<char>, c: char) -> Option<int>
    decreases s.len(),
{
    if s.len() == 0 {
        None
    } else if s.last() == c {
        Some(s.len() - 1)
    } else {
        last_index(s.drop_last(), c)
    }
}

/// `skip_space` stays within `s` and stops at the first character that is
/// not white space.
pub proof fn lemma_skip_space(s: Seq<char>, from: int)
    requires
        0 <= from <= s.len(),
    ensures
        from <= skip_space(s, from) <= s.len(),
        skip_space(s, from) < s.len() ==> !is_space(s[skip_space(s, from)]),
        forall|i: int| from <= i < skip_space(s, from) ==> is_space(#[trigger] s[i]),
    decreases s.len() - from,
{
    if from < s.len() && is_space(s[from]) {
        lemma_skip_space(s, from + 1);
    }
}

/// `skip_word` stays within `s` and stops at the first white space.
pub proof fn lemma_skip_word(s: Seq<char>, from: int)
    requires
        0 <= from <= s.len(),
    ensures
        from <= skip_word(s, from) <= s.len(),
        skip_word(s, from) < s.len() ==> is_space(s[skip_word(s, from)]),
        forall|i: int| from <= i < skip_word(s, from) ==> !is_space(#[trigger] s[i]),
    decreases s.len() - from,
{
    if from < s.len() && !is_space(s[from]) {
        lemma_skip_word(s, from + 1);
    }
}

/// Where `s` holds `c` at all, `last_index` is an index that holds `c` and
/// no later index does; `s` holds `c` exactly where `occurrences` is not 0.
pub proof fn lemma_last_index(s: Seq<char>, c: char)
    ensures
        match last_index(s, c) {
            Some(k) => 0 <= k < s.len() && s[k] == c && occurrences(s, c) == occurrences(
                s.subrange(0, k),
                c,
            ) + 1 && occurrences(s.subrange(k + 1, s.len() as int), c) == 0,
            None => occurrences(s, c) == 0,
        },
        forall|i: int|
            0 <= i < s.len() && #[trigger] s[i] == c ==> last_index(s, c) is Some && i
                <= last_index(s, c).unwrap(),
    decreases s.len(),
{
    if s.len() == 0 {
    } else if s.last() == c {
        let k = s.len() - 1;
        assert(s.subrange(0, k) == s.drop_last());
        assert(s.subrange(k + 1, s.len() as int).len() == 0);
    } else {
        let t = s.drop_last();
        lemma_last_index(t, c);
        match last_index(t, c) {
            Some(k) => {
                assert(t.subrange(0, k) == s.subrange(0, k));
                let tail = s.subrange(k + 1, s.len() as int);
                assert(tail.drop_last() == t.subrange(k + 1, t.len() as int));
                assert(tail.last() == s.last());
            },
            None => {},
        }
        assert forall|i: int| 0 <= i < s.len() && #[trigger] s[i] == c implies last_index(s, c)
            is Some && i <= last_index(s, c).unwrap() by {
            assert(t[i] == c);
        }
    }
}

/// A word starts within `s` or at its end.
pub proof fn lemma_word_start(s: Seq<char>, n: nat)
    ensures
        0 <= word_start(s, n) <= s.len(),
    decreases n,
{
    if n == 0 {
        lemma_skip_space(s, 0);
    } else {
        lemma_word_start(s, (n - 1) as nat);
        lemma_skip_word(s, word_start(s, (n - 1) as nat));
        lemma_skip_space(s, skip_word(s, word_start(s, (n - 1) as nat)));
    }
}

/// A word is not empty and holds no white space, and so it is the word of
/// itself; white space or an end of `s` stands on either side of it.
pub proof fn lemma_word(s: Seq<char>, n: nat)
    ensures
        match word(s, n) {
            Some(w) => {
                let start = word_start(s, n);
                let end = start + w.len();
                &&& w.len() > 0
                &&& forall|i: int| 0 <= i < w.len() ==> !is_space(#[trigger] w[i])
                &&& 0 <= start < end <= s.len()
                &&& w == s.subrange(start, end)
                &&& start == 0 || is_space(s[start - 1])
                &&& end == s.len() || is_space(s[end])
            },
            None => true,
        },
{
    lemma_word_start(s, n);
    let start = word_start(s, n);
    if start < s.len() {
        lemma_skip_word(s, start);
        if n == 0 {
            lemma_skip_space(s, 0);
        } else {
            let before = skip_word(s, word_start(s, (n - 1) as nat));
            lemma_word_start(s, (n - 1) as nat);
            lemma_skip_word(s, word_start(s, (n - 1) as nat));
            lemma_skip_space(s, before);
        }
    }
}

/// Where `b` does not hold `c`, the last `c` of `a`, `c`, `b` in a row is
/// the one in the middle.
pub proof fn lemma_last_index_of_join(a: Seq<char>, b: Seq<char>, c: char)
    requires
        occurrences(b, c) == 0,
    ensures
        last_index(a + seq![c] + b, c) == Some(a.len() as int),
        occurrences(a + seq![c] + b, c) == occurrences(a, c) + 1,
        (a + seq![c] + b).subrange(0, a.len() as int) == a,
        (a + seq![c] + b).subrange(a.len() as int + 1, (a + seq![c] + b).len() as int) == b,
    decreases b.len(),
{
    let joined = a + seq![c] + b;
    assert(joined.subrange(0, a.len() as int) == a);
    assert(joined.subrange(a.len() as int + 1, joined.len() as int) == b);
    if b.len() == 0 {
        assert(joined.drop_last() == a);
    } else {
        assert(joined.drop_last() == a + seq![c] + b.drop_last());
        assert(joined.last() == b.last());
        lemma_last_index_of_join(a, b.drop_last(), c);
    }
}

/// Whether `c` is white space.
pub fn is_space_char(c: char) -> (r: bool)
    ensures
        r == is_space(c),
{
    let n: u32 = c as u32;
    (0x09 <= n && n <= 0x0d) || n == 0x20 || n == 0x85 || n == 0xa0 || n == 0x1680 || (0x2000 <= n
        && n <= 0x200a) || n == 0x2028 || n == 0x2029 || n == 0x202f || n == 0x205f || n == 0x3000
}

/// The characters of `s`, in order.
pub fn chars_of(s: &str) -> (v: Vec<char>)
    ensures
        v@ == s@,
{
    let mut v: Vec<char> = Vec::new();
    for c in it: s.chars()
        invariant
            v@ == it.seq().take(it.index() as int),
            it.seq() == s@,
    {
        v.push(c);
    }
    v
}

/// Whether `a` and `b` hold the same characters.
pub fn same_text(a: &str, b: &str) -> (r: bool)
    ensures
        r == (a@ == b@),
{
    broadcast use vstd::string::group_string_axioms;

    let mut left = a.chars();
    let mut right = b.chars();
    let ghost mut done: int = 0;
    loop
        invariant
            left.obeys_prophetic_iter_laws(),
            right.obeys_prophetic_iter_laws(),
            0 <= done <= a@.len(),
            done <= b@.len(),
            left.remaining() == a@.skip(done),
            right.remaining() == b@.skip(done),
            a@.take(done) == b@.take(done),
        decreases a@.len() - done,
    {
        let x = left.next();
        let y = right.next();
        match (x, y) {
            (None, None) => {
                assert(a@ == a@.take(done));
                assert(b@ == b@.take(done));
                return true;
            },
            (Some(p), Some(q)) => {
                if p != q {
                    assert(a@[done] != b@[done]);
                    return false;
                }
                proof {
                    assert(a@.take(done + 1) == a@.take(done).push(a@[done]));
                    assert(b@.take(done + 1) == b@.take(done).push(b@[done]));
                    assert(a@.skip(done).drop_first() == a@.skip(done + 1));
                    assert(b@.skip(done).drop_first() == b@.skip(done + 1));
                    done = done + 1;
                }
            },
            _ => {
                assert(a@.len() != b@.len());
                return false;
            },
        }
    }
}

/// Where the run of white space that starts at `from` ends.
pub fn space_end(chars: &Vec<char>, from: usize) -> (end: usize)
    ensures
        end == skip_space(chars@, from as int),
        from <= end,
        end <= chars.len() || end == from,
{
    let mut i: usize = from;
    while i < chars.len() && is_space_char(chars[i])
        invariant
            from <= i,
            i <= chars.len() || i == from,
            skip_space(chars@, from as int) == skip_space(chars@, i as int),
        decreases chars.len() - i,
    {
        i = i + 1;
    }
    i
}

/// Where the word that starts at `from` ends.
pub fn word_end(chars: &Vec<char>, from: usize) -> (end: usize)
    ensures
        end == skip_word(chars@, from as int),
        from <= end,
        end <= chars.len() || end == from,
{
    let mut i: usize = from;
    while i < chars.len() && !is_space_char(chars[i])
        invariant
            from <= i,
            i <= chars.len() || i == from,
            skip_word(chars@, from as int) == skip_word(chars@, i as int),
        decreases chars.len() - i,
    {
        i = i + 1;
    }
    i
}

/// How often `c` occurs in `chars`, and the last index at which it does.
pub fn tally(chars: &Vec<char>, c: char) -> (r: (usize, Option<usize>))
    ensures
        r.0 == occurrences(chars@, c),
        match r.1 {
            Some(k) => last_index(chars@, c) == Some(k as int),
            None => last_index(chars@, c) is None,
        },
{
    let mut count: usize = 0;
    let mut last: Option<usize> = None;
    let mut i: usize = 0;
    while i < chars.len()
        invariant
            i <= chars.len(),
            count <= i,
            count == occurrences(chars@.take(i as int), c),
            match last {
                Some(k) => last_index(chars@.take(i as int), c) == Some(k as int),
                None => last_index(chars@.take(i as int), c) is None,
            },
        decreases chars.len() - i,
    {
        assert(chars@.take(i + 1).drop_last() == chars@.take(i as int));
        if chars[i] == c {
            count = count + 1;
            last = Some(i);
        }
        i = i + 1;
    }
    assert(chars@.take(i as int) == chars@);
    (count, last)
}

} // verus!
