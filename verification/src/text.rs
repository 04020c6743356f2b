//! Character-level text operations: the splitting and prefix tests that
//! command parsing needs, and decimal formatting of keys.
use vstd::prelude::*;
use vstd::string::*;

verus! {

/// Whether `s` begins with the character `c`.
pub open spec fn starts_with_char(s: Seq<char>, c: char) -> bool {
    s.len() > 0 && s[0] == c
}

/// The pieces that `str::split` gives for a set of separator characters:
/// the maximal runs between separators, empty runs included, so that there
/// is always one piece more than there are separators in `s`.
pub open spec fn split_pieces(s: Seq<char>, seps: Seq<char>) -> Seq<Seq<char>>
    decreases s.len(),
{
    if s.len() == 0 {
        seq![Seq::empty()]
    } else {
        let init = split_pieces(s.drop_last(), seps);
        if seps.contains(s.last()) {
            init.push(Seq::empty())
        } else {
            init.update(init.len() - 1, init.last().push(s.last()))
        }
    }
}

/// The number of characters of `s` that are separators.
pub open spec fn separator_count(s: Seq<char>, seps: Seq<char>) -> nat
    decreases s.len(),
{
    if s.len() == 0 {
        0
    } else if seps.contains(s.last()) {
        separator_count(s.drop_last(), seps) + 1
    } else {
        separator_count(s.drop_last(), seps)
    }
}

/// `i` is the position of the first `c` in `s`.
pub open spec fn is_first_occurrence(s: Seq<char>, c: char, i: int) -> bool {
    &&& 0 <= i < s.len()
    &&& s[i] == c
    &&& forall|j: int| 0 <= j < i ==> s[j] != c
}

/// What `str::split_once` gives for a character: the text before the first
/// `c` and the text after it, or nothing where `c` does not occur.
pub open spec fn split_once_spec(s: Seq<char>, c: char) -> Option<(Seq<char>, Seq<char>)> {
    if exists|i: int| is_first_occurrence(s, c, i) {
        let i = choose|i: int| is_first_occurrence(s, c, i);
        Some((s.take(i), s.skip(i + 1)))
    } else {
        None
    }
}

/// The character of a decimal digit.
pub open spec fn digit_char(d: nat) -> char {
    if d == 0 {
        '0'
    } else if d == 1 {
        '1'
    } else if d == 2 {
        '2'
    } else if d == 3 {
        '3'
    } else if d == 4 {
        '4'
    } else if d == 5 {
        '5'
    } else if d == 6 {
        '6'
    } else if d == 7 {
        '7'
    } else if d == 8 {
        '8'
    } else {
        '9'
    }
}

/// The decimal notation of `n`, as `to_string` writes an unsigned integer:
/// no sign, no leading zeros, and "0" for zero.
pub open spec fn decimal(n: nat) -> Seq<char>
    decreases n,
{
    if n < 10 {
        seq![digit_char(n)]
    } else {
        decimal(n / 10).push(digit_char(n % 10))
    }
}

/// There is one piece more than there are separators.
pub proof fn lemma_split_pieces_len(s: Seq<char>, seps: Seq<char>)
    ensures
        split_pieces(s, seps).len() == separator_count(s, seps) + 1,
    decreases s.len(),
{
    if s.len() > 0 {
        lemma_split_pieces_len(s.drop_last(), seps);
    }
}

/// Splitting never yields fewer pieces on a longer text.
pub proof fn lemma_separator_count_prefix(s: Seq<char>, seps: Seq<char>, k: int)
    requires
        0 <= k <= s.len(),
    ensures
        separator_count(s.take(k), seps) <= separator_count(s, seps),
    decreases s.len(),
{
    if k < s.len() {
        lemma_separator_count_prefix(s.drop_last(), seps, k);
        assert(s.drop_last().take(k) =~= s.take(k));
    } else {
        assert(s.take(k) =~= s);
    }
}

/// A text that begins with a separator splits into at least two pieces, the
/// first of them empty.
pub proof fn lemma_split_leading_separator(s: Seq<char>, seps: Seq<char>)
    requires
        s.len() > 0,
        seps.contains(s[0]),
    ensures
        split_pieces(s, seps).len() >= 2,
{
    let one = s.take(1);
    assert(one.drop_last() =~= Seq::<char>::empty());
    assert(one.last() == s[0]);
    assert(separator_count(one, seps) == 1) by {
        assert(separator_count(one.drop_last(), seps) == 0);
    }
    lemma_separator_count_prefix(s, seps, 1);
    lemma_split_pieces_len(s, seps);
}

/// A text without separators is a single piece.
pub proof fn lemma_split_no_separator(s: Seq<char>, seps: Seq<char>)
    requires
        forall|i: int| 0 <= i < s.len() ==> !seps.contains(#[trigger] s[i]),
    ensures
        split_pieces(s, seps) == seq![s],
    decreases s.len(),
{
    if s.len() > 0 {
        let t = s.drop_last();
        assert forall|i: int| 0 <= i < t.len() implies !seps.contains(#[trigger] t[i]) by {
            assert(t[i] == s[i]);
        }
        lemma_split_no_separator(t, seps);
        assert(t.push(s.last()) =~= s);
        assert(split_pieces(s, seps) =~= seq![s]);
    } else {
        assert(s =~= Seq::<char>::empty());
    }
}

/// A separator between two texts joins their pieces: the pieces of
/// `a`, `c`, `b` are the pieces of `a` followed by the pieces of `b`.
pub proof fn lemma_split_concat_separator(a: Seq<char>, c: char, b: Seq<char>, seps: Seq<char>)
    requires
        seps.contains(c),
    ensures
        split_pieces(a + seq![c] + b, seps) == split_pieces(a, seps) + split_pieces(b, seps),
    decreases b.len(),
{
    let s = a + seq![c] + b;
    if b.len() == 0 {
        assert(s.drop_last() =~= a);
        assert(s.last() == c);
        assert(split_pieces(b, seps) =~= seq![Seq::<char>::empty()]) by {
            assert(b =~= Seq::<char>::empty());
        }
        assert(split_pieces(s, seps) =~= split_pieces(a, seps) + split_pieces(b, seps));
    } else {
        let b1 = b.drop_last();
        lemma_split_concat_separator(a, c, b1, seps);
        assert(s.drop_last() =~= a + seq![c] + b1);
        assert(s.last() == b.last());
        lemma_split_pieces_len(b1, seps);
        lemma_split_pieces_len(a, seps);
        let pa = split_pieces(a, seps);
        let pb1 = split_pieces(b1, seps);
        if seps.contains(b.last()) {
            assert((pa + pb1).push(Seq::empty()) =~= pa + pb1.push(Seq::empty()));
        } else {
            assert((pa + pb1).update(
                pa.len() + pb1.len() - 1,
                (pa + pb1).last().push(b.last()),
            ) =~= pa + pb1.update(pb1.len() - 1, pb1.last().push(b.last())));
        }
        assert(split_pieces(s, seps) =~= split_pieces(a, seps) + split_pieces(b, seps));
    }
}

/// Cutting a text at the first `c`, found at position `i`.
pub proof fn lemma_split_once_at(s: Seq<char>, c: char, i: int)
    requires
        is_first_occurrence(s, c, i),
    ensures
        split_once_spec(s, c) == Some((s.take(i), s.skip(i + 1))),
{
    let k = choose|k: int| is_first_occurrence(s, c, k);
    assert(k == i) by {
        if k < i {
            assert(s[k] != c);
        } else if k > i {
            assert(s[i] != c);
        }
    }
}

/// Whether `c` is one of `seps`.
pub fn contains_char(seps: &[char], c: char) -> (b: bool)
    ensures
        b == seps@.contains(c),
{
    let mut i: usize = 0;
    while i < seps.len()
        invariant
            i <= seps@.len(),
            forall|j: int| 0 <= j < i ==> seps@[j] != c,
        decreases seps@.len() - i,
    {
        if seps[i] == c {
            assert(seps@[i as int] == c);
            return true;
        }
        i = i + 1;
    }
    false
}

/// The characters of `s`, in order.
pub fn chars_of(s: &str) -> (v: Vec<char>)
    ensures
        v@ == s@,
{
    let mut v: Vec<char> = Vec::new();
    for c in it: s.chars()
        invariant
            it.seq() == s@,
            v@ == it.seq().take(it.index() as int),
    {
        v.push(c);
    }
    v
}

/// Whether `s` begins with `c`.
pub fn starts_with(s: &str, c: char) -> (b: bool)
    ensures
        b == starts_with_char(s@, c),
{
    let n = s.unicode_len();
    n > 0 && s.get_char(0) == c
}

/// The pieces of `s` between any of the separator characters `seps`.
pub fn split(s: &str, seps: &[char]) -> (pieces: Vec<String>)
    ensures
        pieces@.map_values(|p: String| p@) == split_pieces(s@, seps@),
{
    let chars = chars_of(s);
    let n = chars.len();
    let mut pieces: Vec<String> = Vec::new();
    let mut start: usize = 0;
    let mut i: usize = 0;
    assert(s@.take(0) =~= Seq::<char>::empty());
    assert(pieces@.map_values(|p: String| p@).push(s@.subrange(0, 0)) =~= seq![Seq::<char>::empty()]);
    while i < n
        invariant
            chars@ == s@,
            n == s@.len(),
            start <= i <= n,
            pieces@.map_values(|p: String| p@).push(s@.subrange(start as int, i as int))
                == split_pieces(s@.take(i as int), seps@),
        decreases n - i,
    {
        let ghost before = pieces@.map_values(|p: String| p@);
        let ghost cur = s@.subrange(start as int, i as int);
        proof {
            assert(s@.take(i + 1).drop_last() =~= s@.take(i as int));
            assert(s@.take(i + 1).last() == s@[i as int]);
        }
        if contains_char(seps, chars[i]) {
            let piece = s.substring_char(start, i).to_owned();
            pieces.push(piece);
            start = i + 1;
            proof {
                assert(pieces@.map_values(|p: String| p@) =~= before.push(cur));
                assert(s@.subrange(start as int, i + 1) =~= Seq::<char>::empty());
            }
        } else {
            proof {
                assert(s@.subrange(start as int, i + 1) =~= cur.push(s@[i as int]));
                assert(before.push(cur).update(before.len() as int, cur.push(s@[i as int]))
                    =~= before.push(cur.push(s@[i as int])));
            }
        }
        i = i + 1;
    }
    let last = s.substring_char(start, n).to_owned();
    let ghost before = pieces@.map_values(|p: String| p@);
    pieces.push(last);
    proof {
        assert(pieces@.map_values(|p: String| p@) =~= before.push(last@));
        assert(s@.take(n as int) =~= s@);
    }
    pieces
}

/// `s` cut at the first `c`: the text before it and the text after it.
pub fn split_once(s: &str, c: char) -> (res: Option<(String, String)>)
    ensures
        match res {
            Some((a, b)) => split_once_spec(s@, c) == Some((a@, b@)),
            None => split_once_spec(s@, c) is None,
        },
{
    let chars = chars_of(s);
    let n = chars.len();
    let mut i: usize = 0;
    while i < n
        invariant
            chars@ == s@,
            n == s@.len(),
            i <= n,
            forall|j: int| 0 <= j < i ==> s@[j] != c,
        decreases n - i,
    {
        if chars[i] == c {
            let before = s.substring_char(0, i).to_owned();
            let after = s.substring_char(i + 1, n).to_owned();
            proof {
                assert(is_first_occurrence(s@, c, i as int));
                let k = choose|k: int| is_first_occurrence(s@, c, k);
                assert(k == i) by {
                    if k < i {
                        assert(s@[k] != c);
                    } else if k > i {
                        assert(s@[i as int] != c);
                    }
                }
                assert(s@.subrange(0, i as int) =~= s@.take(i as int));
                assert(s@.subrange(i + 1, n as int) =~= s@.skip(i + 1));
            }
            return Some((before, after));
        }
        i = i + 1;
    }
    None
}

/// The one-character text of a decimal digit.
fn digit_str(d: u128) -> (s: &'static str)
    requires
        d < 10,
    ensures
        s@ == seq![digit_char(d as nat)],
{
    proof {
        reveal_strlit("0");
        reveal_strlit("1");
        reveal_strlit("2");
        reveal_strlit("3");
        reveal_strlit("4");
        reveal_strlit("5");
        reveal_strlit("6");
        reveal_strlit("7");
        reveal_strlit("8");
        reveal_strlit("9");
    }
    if d == 0 {
        "0"
    } else if d == 1 {
        "1"
    } else if d == 2 {
        "2"
    } else if d == 3 {
        "3"
    } else if d == 4 {
        "4"
    } else if d == 5 {
        "5"
    } else if d == 6 {
        "6"
    } else if d == 7 {
        "7"
    } else if d == 8 {
        "8"
    } else {
        "9"
    }
}

/// The decimal notation of `n`.
pub fn decimal_string(n: u128) -> (s: String)
    ensures
        s@ == decimal(n as nat),
    decreases n,
{
    if n < 10 {
        String::from_str(digit_str(n))
    } else {
        let mut s = decimal_string(n / 10);
        s.append(digit_str(n % 10));
        s
    }
}

} // verus!
