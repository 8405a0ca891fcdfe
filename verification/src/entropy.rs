//! The character statistics behind the entropy score of a `state` value. The
//! score itself, Shannon entropy times length, is a sum of logarithms over
//! the counts computed here; what is decided on it is the 64-bit floor.
use vstd::prelude::*;
use std::collections::HashMap;
use crate::text::chars_of;

verus! {

/// How often `c` occurs in `s`.
pub open spec fn occurrences(s: Seq<char>, c: char) -> nat
    decreases s.len(),
{
    if s.len() == 0 {
        0
    } else {
        occurrences(s.drop_last(), c) + if s.last() == c {
            1nat
        } else {
            0nat
        }
    }
}

/// A character and how often it occurs.
#[derive(Clone, Copy, Debug)]
pub struct CharCount {
    pub ch: char,
    pub count: usize,
}

/// Whether `c` is one of the characters that `h` lists.
pub open spec fn lists(h: Seq<CharCount>, c: char) -> bool {
    exists|i: int| 0 <= i < h.len() && h[i].ch == c
}

/// Whether `h` lists every character of `s` once, with its number of
/// occurrences.
pub open spec fn is_histogram(h: Seq<CharCount>, s: Seq<char>) -> bool {
    &&& forall|i: int, j: int|
        #![trigger h[i], h[j]]
        0 <= i < j < h.len() ==> h[i].ch != h[j].ch
    &&& forall|i: int|
        #![trigger h[i]]
        0 <= i < h.len() ==> h[i].count >= 1 && h[i].count == occurrences(s, h[i].ch)
    &&& forall|k: int| 0 <= k < s.len() ==> lists(h, #[trigger] s[k])
}

/// A character occurs at most as often as the text is long, and not at all
/// where it is nowhere in the text.
pub proof fn lemma_occurrences(s: Seq<char>, c: char)
    ensures
        occurrences(s, c) <= s.len(),
        (forall|k: int| 0 <= k < s.len() ==> s[k] != c) ==> occurrences(s, c) == 0,
    decreases s.len(),
{
    if s.len() > 0 {
        lemma_occurrences(s.drop_last(), c);
        assert forall|k: int| 0 <= k < s.drop_last().len() implies s.drop_last()[k] == s[k] by {}
    }
}

/// Counting after one more character.
proof fn lemma_occurrences_push(s: Seq<char>, c: char, x: char)
    ensures
        occurrences(s.push(c), x) == occurrences(s, x) + if c == x {
            1nat
        } else {
            0nat
        },
{
    assert(s.push(c).drop_last() == s);
}

/// The code under which the count of a character is kept.
pub open spec fn code_of(c: char) -> u32 {
    c as u32
}

/// Two characters with one code are one character.
proof fn lemma_code_of(a: char, b: char)
    ensures
        code_of(a) == code_of(b) ==> a == b,
{
}

/// What the tally holds after the characters of `t` were read: `seen` lists
/// every character of `t` once, and `counts` keeps, under the code of each,
/// how often it occurs, and keeps nothing else.
#[verifier::opaque]
pub open spec fn tallied(counts: Map<u32, usize>, seen: Seq<char>, t: Seq<char>) -> bool {
    &&& forall|i: int, j: int|
        #![trigger seen[i], seen[j]]
        0 <= i < j < seen.len() ==> seen[i] != seen[j]
    &&& forall|i: int|
        #![trigger seen[i]]
        0 <= i < seen.len() ==> counts.contains_key(code_of(seen[i])) && counts[code_of(seen[i])]
            >= 1 && counts[code_of(seen[i])] == occurrences(t, seen[i])
    &&& forall|code: u32| #[trigger]
        counts.contains_key(code) ==> exists|i: int|
            0 <= i < seen.len() && code_of(#[trigger] seen[i]) == code
    &&& forall|k: int| 0 <= k < t.len() ==> seen.contains(#[trigger] t[k])
}

/// Nothing read, nothing tallied.
proof fn lemma_tally_start()
    ensures
        tallied(Map::<u32, usize>::empty(), Seq::<char>::empty(), Seq::<char>::empty()),
{
    reveal(tallied);
}

/// The tally after one more character.
proof fn lemma_tally_step(counts: Map<u32, usize>, seen: Seq<char>, t: Seq<char>, c: char)
    requires
        tallied(counts, seen, t),
        t.len() < usize::MAX,
    ensures
        counts.contains_key(code_of(c)) ==> counts[code_of(c)] < usize::MAX && tallied(
            counts.insert(code_of(c), (counts[code_of(c)] + 1) as usize),
            seen,
            t.push(c),
        ),
        !counts.contains_key(code_of(c)) ==> tallied(
            counts.insert(code_of(c), 1),
            seen.push(c),
            t.push(c),
        ),
{
    reveal(tallied);
    lemma_occurrences(t, c);
    let code = code_of(c);
    let grown = t.push(c);
    if counts.contains_key(code) {
        let at = choose|i: int| 0 <= i < seen.len() && code_of(#[trigger] seen[i]) == code;
        lemma_code_of(seen[at], c);
        assert(seen[at] == c);
        let after = counts.insert(code, (counts[code] + 1) as usize);
        assert forall|i: int| #![trigger seen[i]] 0 <= i < seen.len() implies after.contains_key(
            code_of(seen[i]),
        ) && after[code_of(seen[i])] >= 1 && after[code_of(seen[i])] == occurrences(
            grown,
            seen[i],
        ) by {
            lemma_occurrences_push(t, c, seen[i]);
            lemma_code_of(seen[i], c);
            if i != at {
                if i < at {
                    assert(seen[i] != seen[at]);
                } else {
                    assert(seen[at] != seen[i]);
                }
            }
        }
        assert forall|code2: u32| #[trigger] after.contains_key(code2) implies exists|i: int|
            0 <= i < seen.len() && code_of(#[trigger] seen[i]) == code2 by {
            if code2 == code {
                assert(code_of(seen[at]) == code2);
            } else {
                assert(counts.contains_key(code2));
            }
        }
        assert forall|k: int| 0 <= k < grown.len() implies seen.contains(#[trigger] grown[k]) by {
            if k < t.len() {
                assert(grown[k] == t[k]);
            } else {
                assert(seen[at] == grown[k]);
            }
        }
    } else {
        let after = counts.insert(code, 1);
        let more = seen.push(c);
        assert forall|i: int| 0 <= i < seen.len() implies seen[i] != c by {
            assert(counts.contains_key(code_of(seen[i])));
        }
        assert forall|k: int| 0 <= k < t.len() implies t[k] != c by {
            assert(seen.contains(t[k]));
        }
        assert forall|i: int, j: int|
            #![trigger more[i], more[j]]
            0 <= i < j < more.len() implies more[i] != more[j] by {
            if j < seen.len() {
                assert(seen[i] != seen[j]);
            }
        }
        assert forall|i: int| #![trigger more[i]] 0 <= i < more.len() implies after.contains_key(
            code_of(more[i]),
        ) && after[code_of(more[i])] >= 1 && after[code_of(more[i])] == occurrences(
            grown,
            more[i],
        ) by {
            lemma_occurrences_push(t, c, more[i]);
            lemma_code_of(more[i], c);
            if i < seen.len() {
                assert(seen[i] == more[i]);
            }
        }
        assert forall|code2: u32| #[trigger] after.contains_key(code2) implies exists|i: int|
            0 <= i < more.len() && code_of(#[trigger] more[i]) == code2 by {
            if code2 == code {
                assert(code_of(more[seen.len() as int]) == code2);
            } else {
                assert(counts.contains_key(code2));
                let i = choose|i: int| 0 <= i < seen.len() && code_of(#[trigger] seen[i]) == code2;
                assert(code_of(more[i]) == code2);
            }
        }
        assert forall|k: int| 0 <= k < grown.len() implies more.contains(#[trigger] grown[k]) by {
            if k < t.len() {
                assert(seen.contains(t[k]));
                let i = choose|i: int| 0 <= i < seen.len() && seen[i] == t[k];
                assert(more[i] == grown[k]);
            } else {
                assert(more[seen.len() as int] == grown[k]);
            }
        }
    }
}

/// Every character seen has its count in the tally.
proof fn lemma_tally_read(counts: Map<u32, usize>, seen: Seq<char>, t: Seq<char>, i: int)
    requires
        tallied(counts, seen, t),
        0 <= i < seen.len(),
    ensures
        counts.contains_key(code_of(seen[i])),
{
    reveal(tallied);
}

/// Whether `out` pairs the first `n` characters seen with the counts the
/// tally keeps for them.
#[verifier::opaque]
pub open spec fn paired(out: Seq<CharCount>, counts: Map<u32, usize>, seen: Seq<char>, n: int) -> bool {
    &&& out.len() == n
    &&& forall|j: int|
        #![trigger out[j]]
        0 <= j < n ==> out[j].ch == seen[j] && out[j].count == counts[code_of(seen[j])]
}

/// Nothing is paired at the start.
proof fn lemma_paired_start(counts: Map<u32, usize>, seen: Seq<char>)
    ensures
        paired(Seq::<CharCount>::empty(), counts, seen, 0),
{
    reveal(paired);
}

/// One more character paired with its count.
proof fn lemma_paired_step(
    out: Seq<CharCount>,
    counts: Map<u32, usize>,
    seen: Seq<char>,
    n: int,
    entry: CharCount,
)
    requires
        paired(out, counts, seen, n),
        0 <= n < seen.len(),
        entry.ch == seen[n],
        entry.count == counts[code_of(seen[n])],
    ensures
        paired(out.push(entry), counts, seen, n + 1),
{
    reveal(paired);
    let more = out.push(entry);
    assert forall|j: int| #![trigger more[j]] 0 <= j < n + 1 implies more[j].ch == seen[j]
        && more[j].count == counts[code_of(seen[j])] by {
        if j < n {
            assert(more[j] == out[j]);
        }
    }
}

/// The characters seen, each paired with the count the tally keeps for it,
/// are the histogram of what was read.
proof fn lemma_tally_histogram(
    counts: Map<u32, usize>,
    seen: Seq<char>,
    t: Seq<char>,
    h: Seq<CharCount>,
)
    requires
        tallied(counts, seen, t),
        paired(h, counts, seen, seen.len() as int),
    ensures
        is_histogram(h, t),
{
    reveal(tallied);
    reveal(paired);
    assert forall|k: int| 0 <= k < t.len() implies lists(h, #[trigger] t[k]) by {
        assert(seen.contains(t[k]));
        let j = choose|j: int| 0 <= j < seen.len() && seen[j] == t[k];
        assert(h[j].ch == t[k]);
    }
    assert forall|a: int, b: int| #![trigger h[a], h[b]] 0 <= a < b < h.len() implies h[a].ch
        != h[b].ch by {
        assert(seen[a] != seen[b]);
    }
    assert forall|i: int| #![trigger h[i]] 0 <= i < h.len() implies h[i].count >= 1 && h[i].count
        == occurrences(t, h[i].ch) by {
        assert(counts[code_of(seen[i])] == occurrences(t, seen[i]));
    }
}

/// The count kept under `code`, none being zero.
fn count_in(counts: &HashMap<u32, usize>, code: u32) -> (n: usize)
    ensures
        n == if counts@.contains_key(code) {
            counts@[code]
        } else {
            0
        },
{
    match counts.get(&code) {
        Some(n) => *n,
        None => 0,
    }
}

/// The distinct characters of `s`, each with its number of occurrences. The
/// counts are kept in a hash map under the code of the character.
pub fn char_histogram(s: &str) -> (h: Vec<CharCount>)
    ensures
        is_histogram(h@, s@),
{
    let v = chars_of(s);
    let mut counts: HashMap<u32, usize> = HashMap::new();
    let mut seen: Vec<char> = Vec::new();
    let mut k: usize = 0;
    proof {
        lemma_tally_start();
        assert(v@.take(0) == Seq::<char>::empty());
    }
    while k < v.len()
        invariant
            k <= v.len(),
            tallied(counts@, seen@, v@.take(k as int)),
        decreases v.len() - k,
    {
        let c = v[k];
        let code = c as u32;
        proof {
            lemma_tally_step(counts@, seen@, v@.take(k as int), c);
            assert(v@.take(k + 1) == v@.take(k as int).push(c));
        }
        match counts.get(&code) {
            Some(n) => {
                let n = *n;
                counts.insert(code, n + 1);
            },
            None => {
                seen.push(c);
                counts.insert(code, 1);
            },
        }
        k = k + 1;
    }
    assert(v@.take(v@.len() as int) == v@);
    let mut out: Vec<CharCount> = Vec::new();
    let mut i: usize = 0;
    proof {
        lemma_paired_start(counts@, seen@);
    }
    while i < seen.len()
        invariant
            i <= seen.len(),
            tallied(counts@, seen@, v@),
            paired(out@, counts@, seen@, i as int),
        decreases seen.len() - i,
    {
        let c = seen[i];
        let n = count_in(&counts, c as u32);
        let entry = CharCount { ch: c, count: n };
        proof {
            lemma_tally_read(counts@, seen@, v@, i as int);
            lemma_paired_step(out@, counts@, seen@, i as int, entry);
        }
        out.push(entry);
        i = i + 1;
    }
    proof {
        lemma_tally_histogram(counts@, seen@, v@, out@);
    }
    out
}

} // verus!
