//! Text primitives the protocol rules are written with: comparison, prefix
//! tests, splitting a scope string, and membership in a list of strings.
//! Every contract speaks of the characters of a string (`@`), not of its bytes.
use vstd::prelude::*;

verus! {

/// `String::push` appends one character.
pub assume_specification[ String::push ](s: &mut String, c: char)
    ensures
        final(s)@ == old(s)@.push(c),
;

/// The character contents of each string of a list.
pub open spec fn texts(v: Seq<String>) -> Seq<Seq<char>> {
    Seq::new(v.len(), |i: int| v[i]@)
}

/// The pieces of `s` between occurrences of `sep`. There is always at least
/// one piece; two separators in a row, or one at either end, give an empty
/// piece.
pub open spec fn split_pieces(s: Seq<char>, sep: char) -> Seq<Seq<char>>
    decreases s.len(),
{
    if s.len() == 0 {
        seq![Seq::<char>::empty()]
    } else {
        let before = split_pieces(s.drop_last(), sep);
        if s.last() == sep {
            before.push(Seq::<char>::empty())
        } else {
            before.drop_last().push(before.last().push(s.last()))
        }
    }
}

/// The pieces put together again, with `sep` between neighbours.
pub open spec fn joined(pieces: Seq<Seq<char>>, sep: char) -> Seq<char>
    decreases pieces.len(),
{
    if pieces.len() == 0 {
        Seq::<char>::empty()
    } else if pieces.len() == 1 {
        pieces[0]
    } else {
        joined(pieces.drop_last(), sep).push(sep) + pieces.last()
    }
}

/// What makes `split_pieces` the split: there is at least one piece, no
/// piece holds the separator, and the pieces joined by the separator give
/// the text back.
pub proof fn lemma_split_pieces(s: Seq<char>, sep: char)
    ensures
        split_pieces(s, sep).len() >= 1,
        joined(split_pieces(s, sep), sep) == s,
        forall|i: int, k: int|
            0 <= i < split_pieces(s, sep).len() && 0 <= k < split_pieces(s, sep)[i].len()
                ==> split_pieces(s, sep)[i][k] != sep,
    decreases s.len(),
{
    let pieces = split_pieces(s, sep);
    if s.len() == 0 {
        assert(joined(pieces, sep) == pieces[0]);
    } else {
        let rest = s.drop_last();
        let before = split_pieces(rest, sep);
        lemma_split_pieces(rest, sep);
        assert(s == rest.push(s.last()));
        if s.last() == sep {
            assert(pieces.drop_last() == before);
            assert(joined(pieces, sep) == joined(before, sep).push(sep) + pieces.last());
            assert(joined(before, sep).push(sep) + Seq::<char>::empty() == rest.push(sep));
        } else {
            let grown = before.last().push(s.last());
            if before.len() == 1 {
                assert(pieces.len() == 1);
                assert(joined(pieces, sep) == grown);
                assert(joined(before, sep) == before[0]);
            } else {
                assert(pieces.drop_last() == before.drop_last());
                assert(joined(pieces, sep) == joined(before.drop_last(), sep).push(sep) + grown);
                assert(joined(before.drop_last(), sep).push(sep) + grown == (joined(
                    before.drop_last(),
                    sep,
                ).push(sep) + before.last()).push(s.last()));
            }
            assert forall|i: int, k: int|
                0 <= i < pieces.len() && 0 <= k < pieces[i].len() implies pieces[i][k] != sep by {
                if i < pieces.len() - 1 {
                    assert(pieces[i] == before[i]);
                } else if k < before.last().len() {
                    assert(pieces[i][k] == before.last()[k]);
                }
            }
        }
    }
}

/// Whether two strings hold the same characters.
pub fn same_text(a: &str, b: &str) -> (r: bool)
    ensures
        r == (a@ == b@),
{
    a.to_owned() == b.to_owned()
}

/// The characters of `s`, in order.
pub fn chars_of(s: &str) -> (r: Vec<char>)
    ensures
        r@ == s@,
{
    let mut out: Vec<char> = Vec::new();
    for c in it: s.chars()
        invariant
            it.seq() == s@,
            out@ == s@.take(it.index() as int),
    {
        out.push(c);
    }
    assert(s@.take(s@.len() as int) == s@);
    out
}

/// The string made of the characters `v[from..to]`.
pub fn text_of(v: &Vec<char>, from: usize, to: usize) -> (r: String)
    requires
        from <= to <= v.len(),
    ensures
        r@ == v@.subrange(from as int, to as int),
{
    let mut out = String::new();
    let mut i: usize = from;
    while i < to
        invariant
            from <= i <= to <= v.len(),
            out@ == v@.subrange(from as int, i as int),
        decreases to - i,
    {
        out.push(v[i]);
        i = i + 1;
        assert(v@.subrange(from as int, i as int) == v@.subrange(from as int, i - 1).push(
            v@[i - 1],
        ));
    }
    out
}

/// Whether `s` begins with `prefix`.
pub fn has_prefix(s: &str, prefix: &str) -> (r: bool)
    ensures
        r == prefix@.is_prefix_of(s@),
{
    let sv = chars_of(s);
    let pv = chars_of(prefix);
    if pv.len() > sv.len() {
        return false;
    }
    let mut i: usize = 0;
    while i < pv.len()
        invariant
            i <= pv.len() <= sv.len(),
            sv@ == s@,
            pv@ == prefix@,
            forall|j: int| 0 <= j < i ==> sv@[j] == pv@[j],
        decreases pv.len() - i,
    {
        if sv[i] != pv[i] {
            assert(s@.subrange(0, prefix@.len() as int)[i as int] != prefix@[i as int]);
            return false;
        }
        i = i + 1;
    }
    assert(s@.subrange(0, prefix@.len() as int) =~= prefix@);
    true
}

/// Whether some string of `list` holds exactly the characters of `s`.
pub fn contains_text(list: &Vec<String>, s: &str) -> (r: bool)
    ensures
        r == texts(list@).contains(s@),
{
    let mut i: usize = 0;
    while i < list.len()
        invariant
            i <= list.len(),
            forall|j: int| 0 <= j < i ==> list@[j]@ != s@,
        decreases list.len() - i,
    {
        if same_text(list[i].as_str(), s) {
            assert(texts(list@)[i as int] == s@);
            return true;
        }
        i = i + 1;
    }
    assert forall|j: int| 0 <= j < texts(list@).len() implies texts(list@)[j] != s@ by {
        assert(texts(list@)[j] == list@[j]@);
    }
    false
}

/// The first position of `needles` whose string is not in `haystack`, if any.
pub open spec fn first_absent(needles: Seq<Seq<char>>, haystack: Seq<Seq<char>>) -> Option<int>
    decreases needles.len(),
{
    if needles.len() == 0 {
        None
    } else {
        match first_absent(needles.drop_last(), haystack) {
            Some(i) => Some(i),
            None => if haystack.contains(needles.last()) {
                None
            } else {
                Some(needles.len() - 1)
            },
        }
    }
}

/// `first_absent` is `None` exactly when every needle is in the haystack, and
/// otherwise names the least position that is not.
pub proof fn lemma_first_absent(needles: Seq<Seq<char>>, haystack: Seq<Seq<char>>)
    ensures
        first_absent(needles, haystack) is None <==> forall|j: int|
            0 <= j < needles.len() ==> haystack.contains(#[trigger] needles[j]),
        first_absent(needles, haystack) matches Some(i) ==> {
            &&& 0 <= i < needles.len()
            &&& !haystack.contains(needles[i])
            &&& forall|j: int| 0 <= j < i ==> haystack.contains(#[trigger] needles[j])
        },
    decreases needles.len(),
{
    if needles.len() > 0 {
        let init = needles.drop_last();
        lemma_first_absent(init, haystack);
        assert forall|j: int| 0 <= j < init.len() implies init[j] == needles[j] by {}
        match first_absent(init, haystack) {
            Some(i) => {
                assert(init[i] == needles[i]);
                assert forall|j: int| 0 <= j < i implies haystack.contains(
                    #[trigger] needles[j],
                ) by {
                    assert(init[j] == needles[j]);
                }
            },
            None => {
                assert forall|j: int| 0 <= j < init.len() implies haystack.contains(
                    #[trigger] needles[j],
                ) by {
                    assert(init[j] == needles[j]);
                }
            },
        }
    }
}

/// The index of the first string of `needles` that `haystack` lacks.
pub fn find_absent(needles: &Vec<String>, haystack: &Vec<String>) -> (r: Option<usize>)
    ensures
        r is None <==> first_absent(texts(needles@), texts(haystack@)) is None,
        r matches Some(i) ==> first_absent(texts(needles@), texts(haystack@)) == Some(i as int),
{
    let mut i: usize = 0;
    while i < needles.len()
        invariant
            i <= needles.len(),
            first_absent(texts(needles@).take(i as int), texts(haystack@)) is None,
        decreases needles.len() - i,
    {
        let ghost upto = texts(needles@).take(i + 1);
        assert(upto.drop_last() == texts(needles@).take(i as int));
        assert(upto.last() == needles@[i as int]@);
        if !contains_text(haystack, needles[i].as_str()) {
            proof {
                lemma_first_absent_stable(texts(needles@), texts(haystack@), i + 1);
            }
            return Some(i);
        }
        i = i + 1;
    }
    assert(texts(needles@).take(i as int) == texts(needles@));
    None
}

/// Once a prefix of the needles has an absent one, the whole list names the
/// same position.
pub proof fn lemma_first_absent_stable(
    needles: Seq<Seq<char>>,
    haystack: Seq<Seq<char>>,
    n: int,
)
    requires
        0 <= n <= needles.len(),
        first_absent(needles.take(n), haystack) is Some,
    ensures
        first_absent(needles, haystack) == first_absent(needles.take(n), haystack),
    decreases needles.len() - n,
{
    if n == needles.len() {
        assert(needles.take(n) == needles);
    } else {
        let upto = needles.take(n + 1);
        assert(upto.drop_last() == needles.take(n));
        lemma_first_absent_stable(needles, haystack, n + 1);
    }
}

/// `s` cut at every space, as owned strings.
pub fn split_on_space(s: &str) -> (r: Vec<String>)
    ensures
        texts(r@) == split_pieces(s@, ' '),
{
    let v = chars_of(s);
    let mut pieces: Vec<String> = Vec::new();
    let mut start: usize = 0;
    let mut i: usize = 0;
    assert(v@.take(0).len() == 0);
    assert(texts(pieces@).push(v@.subrange(0, 0)) =~~= seq![Seq::<char>::empty()]);
    while i < v.len()
        invariant
            start <= i <= v.len(),
            v@ == s@,
            texts(pieces@).push(v@.subrange(start as int, i as int)) == split_pieces(
                v@.take(i as int),
                ' ',
            ),
        decreases v.len() - i,
    {
        let ghost before = split_pieces(v@.take(i as int), ' ');
        let ghost upto = v@.take(i + 1);
        assert(upto.drop_last() == v@.take(i as int));
        assert(upto.last() == v@[i as int]);
        assert(before.last() == v@.subrange(start as int, i as int));
        assert(before.drop_last() == texts(pieces@));
        if v[i] == ' ' {
            let piece = text_of(&v, start, i);
            let ghost old_pieces = pieces@;
            pieces.push(piece);
            start = i + 1;
            assert(texts(pieces@) == texts(old_pieces).push(piece@));
            assert(v@.subrange(start as int, i + 1) == Seq::<char>::empty());
        } else {
            assert(v@.subrange(start as int, i + 1) == v@.subrange(start as int, i as int).push(
                v@[i as int],
            ));
        }
        i = i + 1;
    }
    assert(v@.take(v@.len() as int) == v@);
    let piece = text_of(&v, start, i);
    let ghost old_pieces = pieces@;
    pieces.push(piece);
    assert(texts(pieces@) == texts(old_pieces).push(piece@));
    pieces
}

} // verus!
