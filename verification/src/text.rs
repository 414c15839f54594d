//! Text as sequences of characters: reading a string's characters and
//! splitting them at a separator.

use vstd::prelude::*;

verus! {

/// The pieces of `s` between the occurrences of `sep`. There is always at
/// least one piece, and an occurrence at either end leaves an empty piece
/// there.
pub open spec fn split(s: Seq<char>, sep: char) -> Seq<Seq<char>>
    decreases s.len(),
{
    if s.len() == 0 {
        seq![Seq::<char>::empty()]
    } else {
        let before = split(s.drop_last(), sep);
        if s.last() == sep {
            before.push(Seq::<char>::empty())
        } else {
            before.drop_last().push(before.last().push(s.last()))
        }
    }
}

/// The pieces put together again, with `sep` between neighbours.
pub open spec fn join(parts: Seq<Seq<char>>, sep: char) -> Seq<char>
    decreases parts.len(),
{
    if parts.len() == 0 {
        Seq::<char>::empty()
    } else if parts.len() == 1 {
        parts[0]
    } else {
        join(parts.drop_last(), sep).push(sep) + parts.last()
    }
}

/// Whether none of the pieces holds `sep`.
pub open spec fn free_of(parts: Seq<Seq<char>>, sep: char) -> bool {
    forall|i: int, j: int|
        0 <= i < parts.len() && 0 <= j < parts[i].len() ==> #[trigger] parts[i][j] != sep
}

/// The characters of each piece.
pub open spec fn pieces_view(parts: Seq<Vec<char>>) -> Seq<Seq<char>> {
    Seq::new(parts.len(), |i: int| parts[i]@)
}

/// Splitting yields at least one piece.
pub proof fn lemma_split_nonempty(s: Seq<char>, sep: char)
    ensures
        split(s, sep).len() >= 1,
    decreases s.len(),
{
    if s.len() > 0 {
        lemma_split_nonempty(s.drop_last(), sep);
    }
}

/// Text without a separator, put behind other text, lengthens the last
/// piece of that text.
pub proof fn lemma_split_append_plain(a: Seq<char>, b: Seq<char>, sep: char)
    requires
        forall|j: int| 0 <= j < b.len() ==> b[j] != sep,
    ensures
        split(a, sep).len() >= 1,
        split(a + b, sep) == split(a, sep).drop_last().push(split(a, sep).last() + b),
    decreases b.len(),
{
    lemma_split_nonempty(a, sep);
    if b.len() > 0 {
        let shorter = b.drop_last();
        lemma_split_append_plain(a, shorter, sep);
        assert((a + b).drop_last() =~= a + shorter);
        assert((split(a, sep).last() + shorter).push(b.last()) =~= split(a, sep).last() + b);
    }
}

/// Pieces that hold no separator are what splitting their join gives back.
pub proof fn lemma_split_of_join(parts: Seq<Seq<char>>, sep: char)
    requires
        parts.len() >= 1,
        free_of(parts, sep),
    ensures
        split(join(parts, sep), sep) == parts,
    decreases parts.len(),
{
    let last = parts.last();
    if parts.len() == 1 {
        lemma_split_append_plain(Seq::<char>::empty(), last, sep);
    } else {
        let front = parts.drop_last();
        lemma_split_of_join(front, sep);
        let head = join(front, sep).push(sep);
        assert(head.drop_last() =~= join(front, sep));
        lemma_split_append_plain(head, last, sep);
    }
}

/// Splitting loses nothing: no piece holds the separator, and the pieces
/// joined are the text.
pub proof fn lemma_join_of_split(s: Seq<char>, sep: char)
    ensures
        split(s, sep).len() >= 1,
        free_of(split(s, sep), sep),
        join(split(s, sep), sep) == s,
    decreases s.len(),
{
    lemma_split_nonempty(s, sep);
    let parts = split(s, sep);
    if s.len() > 0 {
        let before = split(s.drop_last(), sep);
        lemma_join_of_split(s.drop_last(), sep);
        if s.last() == sep {
            assert(parts.drop_last() =~= before);
        } else if before.len() > 1 {
            assert(parts.drop_last() =~= before.drop_last());
            let head = join(before.drop_last(), sep).push(sep);
            let grown = before.last().push(s.last());
            assert(head + grown =~= (head + before.last()).push(s.last()));
        }
    }
}

/// The characters of `s`, in order.
pub fn chars_of(s: &str) -> (chars: Vec<char>)
    ensures
        chars@ == s@,
{
    let mut chars: Vec<char> = Vec::new();
    for c in it: s.chars()
        invariant
            it.seq() == s@,
            chars@ == it.seq().take(it.index()),
    {
        chars.push(c);
    }
    chars
}

/// Whether two texts hold the same characters.
pub fn same_chars(a: &Vec<char>, b: &Vec<char>) -> (same: bool)
    ensures
        same == (a@ == b@),
{
    if a.len() != b.len() {
        return false;
    }
    let mut i: usize = 0;
    while i < a.len()
        invariant
            i <= a.len(),
            a.len() == b.len(),
            forall|j: int| 0 <= j < i ==> a@[j] == b@[j],
        decreases a.len() - i,
    {
        if a[i] != b[i] {
            return false;
        }
        i += 1;
    }
    assert(a@ =~= b@);
    true
}

/// Splits `chars` at every occurrence of `sep`.
pub fn split_chars(chars: &Vec<char>, sep: char) -> (parts: Vec<Vec<char>>)
    ensures
        pieces_view(parts@) == split(chars@, sep),
{
    let mut parts: Vec<Vec<char>> = Vec::new();
    let mut current: Vec<char> = Vec::new();
    let mut i: usize = 0;
    while i < chars.len()
        invariant
            i <= chars.len(),
            pieces_view(parts@).push(current@) == split(chars@.take(i as int), sep),
        decreases chars.len() - i,
    {
        let c = chars[i];
        assert(chars@.take(i + 1).drop_last() =~= chars@.take(i as int));
        if c == sep {
            parts.push(current);
            current = Vec::new();
        } else {
            current.push(c);
        }
        i += 1;
    }
    assert(chars@.take(chars.len() as int) =~= chars@);
    parts.push(current);
    parts
}

} // verus!
