//! Splitting text at separators, and writing numbers in decimal.

use vstd::prelude::*;

verus! {

/// The pieces of `s` between the occurrences of `sep`, in order. There is
/// always one piece more than there are separators.
pub open spec fn pieces(s: Seq<char>, sep: char) -> Seq<Seq<char>>
    decreases s.len(),
{
    if s.len() == 0 {
        seq![s]
    } else {
        let before = pieces(s.drop_last(), sep);
        if s.last() == sep {
            before.push(Seq::empty())
        } else {
            before.drop_last().push(before.last().push(s.last()))
        }
    }
}

/// What stands before and after the first `sep` in `s`, if there is one.
pub open spec fn cut(s: Seq<char>, sep: char) -> Option<(Seq<char>, Seq<char>)>
    decreases s.len(),
{
    if s.len() == 0 {
        None
    } else if s[0] == sep {
        Some((Seq::empty(), s.drop_first()))
    } else {
        match cut(s.drop_first(), sep) {
            Some((before, after)) => Some((seq![s[0]] + before, after)),
            None => None,
        }
    }
}

/// The decimal digits of `n`, without leading zeros.
pub open spec fn decimal(n: nat) -> Seq<char>
    decreases n,
{
    if n < 10 {
        seq![digit(n)]
    } else {
        decimal(n / 10).push(digit(n % 10))
    }
}

/// The character of a decimal digit.
pub open spec fn digit(n: nat) -> char {
    if n == 0 {
        '0'
    } else if n == 1 {
        '1'
    } else if n == 2 {
        '2'
    } else if n == 3 {
        '3'
    } else if n == 4 {
        '4'
    } else if n == 5 {
        '5'
    } else if n == 6 {
        '6'
    } else if n == 7 {
        '7'
    } else if n == 8 {
        '8'
    } else {
        '9'
    }
}

/// The views of a list of string slices.
pub open spec fn views(list: Seq<&str>) -> Seq<Seq<char>> {
    list.map_values(|s: &str| s@)
}

/// What one separator, or none, makes of the pieces of a text.
pub proof fn lemma_few_pieces(s: Seq<char>, sep: char)
    ensures
        pieces(s, sep).len() > 0,
        pieces(s, sep).len() == 1 ==> pieces(s, sep) == seq![s] && !s.contains(sep),
        pieces(s, sep).len() == 2 ==> {
            &&& s == pieces(s, sep)[0].push(sep) + pieces(s, sep)[1]
            &&& !pieces(s, sep)[0].contains(sep)
            &&& !pieces(s, sep)[1].contains(sep)
        },
    decreases s.len(),
{
    if s.len() > 0 {
        let front = s.drop_last();
        let before = pieces(front, sep);
        let all = pieces(s, sep);
        lemma_few_pieces(front, sep);
        assert(s =~= front.push(s.last()));
        if s.last() == sep {
            if all.len() == 2 {
                assert(s =~= all[0].push(sep) + all[1]);
            }
        } else {
            let last = before.last();
            assert(!last.contains(sep) ==> !last.push(s.last()).contains(sep)) by {
                if last.push(s.last()).contains(sep) {
                    let i = choose|i: int|
                        0 <= i < last.push(s.last()).len() && last.push(s.last())[i] == sep;
                    assert(last[i] == sep);
                }
            }
            if all.len() == 1 {
                assert(all =~= seq![s]);
            }
            if all.len() == 2 {
                assert(s =~= all[0].push(sep) + all[1]);
            }
        }
    }
}

/// A text without separators is its own only piece.
pub proof fn lemma_one_piece(s: Seq<char>, sep: char)
    requires
        !s.contains(sep),
    ensures
        pieces(s, sep) == seq![s],
    decreases s.len(),
{
    if s.len() > 0 {
        let front = s.drop_last();
        assert forall|i: int| 0 <= i < front.len() implies front[i] != sep by {
            assert(s[i] == front[i]);
        }
        lemma_one_piece(front, sep);
        assert(s.last() == s[s.len() - 1]);
        assert(front.push(s.last()) =~= s);
        assert(pieces(s, sep) =~= seq![s]);
    }
}

/// Two texts without separators are the two pieces of what one separator
/// makes of them.
pub proof fn lemma_two_pieces(a: Seq<char>, b: Seq<char>, sep: char)
    requires
        !a.contains(sep),
        !b.contains(sep),
    ensures
        pieces(a.push(sep) + b, sep) == seq![a, b],
    decreases b.len(),
{
    let s = a.push(sep) + b;
    if b.len() == 0 {
        assert(s.drop_last() =~= a);
        assert(b =~= Seq::<char>::empty());
        lemma_one_piece(a, sep);
        assert(pieces(s, sep) =~= seq![a, b]);
    } else {
        let front = b.drop_last();
        assert forall|i: int| 0 <= i < front.len() implies front[i] != sep by {
            assert(b[i] == front[i]);
        }
        lemma_two_pieces(a, front, sep);
        assert(s.drop_last() =~= a.push(sep) + front);
        assert(s.last() == b[b.len() - 1]);
        assert(front.push(s.last()) =~= b);
        assert(pieces(s, sep) =~= seq![a, b]);
    }
}

/// The first separator is where a text is cut.
pub proof fn lemma_cut_at(s: Seq<char>, sep: char, at: int)
    requires
        0 <= at < s.len(),
        s[at] == sep,
        forall|i: int| 0 <= i < at ==> s[i] != sep,
    ensures
        cut(s, sep) == Some((s.take(at), s.skip(at + 1))),
    decreases at,
{
    if at == 0 {
        assert(s.take(0) =~= Seq::<char>::empty());
        assert(s.skip(1) =~= s.drop_first());
    } else {
        let rest = s.drop_first();
        lemma_cut_at(rest, sep, at - 1);
        assert(seq![s[0]] + rest.take(at - 1) =~= s.take(at));
        assert(rest.skip(at) =~= s.skip(at + 1));
    }
}

/// A text without separators is not cut.
pub proof fn lemma_no_cut(s: Seq<char>, sep: char)
    requires
        !s.contains(sep),
    ensures
        cut(s, sep) is None,
    decreases s.len(),
{
    if s.len() > 0 {
        assert(s[0] != sep);
        let rest = s.drop_first();
        assert forall|i: int| 0 <= i < rest.len() implies rest[i] != sep by {
            assert(s[i + 1] == rest[i]);
        }
        lemma_no_cut(rest, sep);
    }
}

/// The parts of a cut text make up the text, and the first holds no separator.
pub proof fn lemma_cut_parts(s: Seq<char>, sep: char)
    ensures
        cut(s, sep) matches Some((before, after)) ==> s == before.push(sep) + after
            && !before.contains(sep),
        cut(s, sep) is None ==> !s.contains(sep),
{
    if exists|i: int| 0 <= i < s.len() && s[i] == sep {
        s.index_of_first_ensures(sep);
        let at = s.index_of_first(sep)->0;
        lemma_cut_at(s, sep, at);
        assert(s =~= s.take(at).push(sep) + s.skip(at + 1));
    } else {
        lemma_no_cut(s, sep);
    }
}

/// Cutting what a separator joins gives the two parts back, where the first
/// part holds no separator.
pub proof fn lemma_cut_joined(a: Seq<char>, b: Seq<char>, sep: char)
    requires
        !a.contains(sep),
    ensures
        cut(a.push(sep) + b, sep) == Some((a, b)),
{
    let s = a.push(sep) + b;
    assert forall|i: int| 0 <= i < a.len() implies s[i] != sep by {
        assert(s[i] == a[i]);
    }
    lemma_cut_at(s, sep, a.len() as int);
    assert(s.take(a.len() as int) =~= a);
    assert(s.skip(a.len() as int + 1) =~= b);
}

/// Cuts `s` at every occurrence of `sep`.
pub fn split<'a>(s: &'a str, sep: char) -> (list: Vec<&'a str>)
    ensures
        views(list@) == pieces(s@, sep),
{
    let mut list: Vec<&'a str> = Vec::new();
    let mut start: usize = 0;
    let mut at: usize = 0;
    let len: usize = s.unicode_len();
    assert(s@.subrange(0, 0) =~= Seq::<char>::empty());
    assert(s@.take(0) =~= Seq::<char>::empty());
    for c in it: s.chars()
        invariant
            it.seq() == s@,
            at == it.index(),
            start <= at,
            len == s@.len(),
            pieces(s@.take(at as int), sep) == views(list@).push(
                s@.subrange(start as int, at as int),
            ),
    {
        let ghost piece = s@.subrange(start as int, at as int);
        assert(s@.take(at + 1).drop_last() =~= s@.take(at as int));
        assert(views(list@).push(piece).drop_last() =~= views(list@));
        if c == sep {
            let ghost before = list@;
            list.push(s.substring_char(start, at));
            assert(views(list@) =~= views(before).push(piece));
            start = at + 1;
            assert(s@.subrange(start as int, at + 1) =~= Seq::<char>::empty());
        } else {
            assert(piece.push(c) =~= s@.subrange(start as int, at + 1));
        }
        at = at + 1;
    }
    let ghost before = list@;
    list.push(s.substring_char(start, at));
    assert(s@.take(at as int) =~= s@);
    assert(views(list@) =~= views(before).push(s@.subrange(start as int, at as int)));
    list
}

/// Cuts `s` at the first occurrence of `sep`.
pub fn split_once<'a>(s: &'a str, sep: char) -> (parts: Option<(&'a str, &'a str)>)
    ensures
        match parts {
            Some((before, after)) => cut(s@, sep) == Some((before@, after@)),
            None => cut(s@, sep) is None,
        },
{
    let mut at: usize = 0;
    let len: usize = s.unicode_len();
    for c in it: s.chars()
        invariant
            it.seq() == s@,
            at == it.index(),
            len == s@.len(),
            forall|i: int| 0 <= i < at ==> s@[i] != sep,
    {
        if c == sep {
            proof {
                lemma_cut_at(s@, sep, at as int);
                assert(s@.subrange(0, at as int) =~= s@.take(at as int));
                assert(s@.subrange(at + 1, len as int) =~= s@.skip(at + 1));
            }
            return Some((s.substring_char(0, at), s.substring_char(at + 1, len)));
        }
        at = at + 1;
    }
    proof {
        lemma_no_cut(s@, sep);
    }
    None
}

/// Whether two texts are the same.
pub fn same_text(a: &str, b: &str) -> (same: bool)
    ensures
        same == (a@ == b@),
{
    a.to_owned() == b.to_owned()
}

/// The decimal digit `n` as text.
fn digit_text(n: u64) -> (text: &'static str)
    requires
        n < 10,
    ensures
        text@ == seq![digit(n as nat)],
{
    proof {
        reveal_strlit("0");
        reveal_strlit("1");
        reveal_strlit("2");
        reveal_strlit("3");
        reveal_strlit("4");
        reveal_strlit("5");
        reveal_strlit("6");
        reveal_strlit("7");
        reveal_strlit("8");
        reveal_strlit("9");
    }
    if n == 0 {
        "0"
    } else if n == 1 {
        "1"
    } else if n == 2 {
        "2"
    } else if n == 3 {
        "3"
    } else if n == 4 {
        "4"
    } else if n == 5 {
        "5"
    } else if n == 6 {
        "6"
    } else if n == 7 {
        "7"
    } else if n == 8 {
        "8"
    } else {
        "9"
    }
}

/// Writes `n` in decimal at the end of `out`.
pub fn append_decimal(out: &mut String, n: u64)
    ensures
        final(out)@ == old(out)@ + decimal(n as nat),
    decreases n,
{
    if n >= 10 {
        append_decimal(out, n / 10);
    }
    out.append(digit_text(n % 10));
    assert(out@ =~= old(out)@ + decimal(n as nat));
}

/// The text that a list of pieces makes with separators between them.
pub open spec fn glued(list: Seq<Seq<char>>, sep: char) -> Seq<char>
    decreases list.len(),
{
    if list.len() == 0 {
        seq![]
    } else if list.len() == 1 {
        list[0]
    } else {
        glued(list.drop_last(), sep).push(sep) + list.last()
    }
}

/// The pieces of a text hold no separator, and with separators between them
/// they make the text again.
pub proof fn pieces_make_the_text(s: Seq<char>, sep: char)
    ensures
        pieces(s, sep).len() >= 1,
        forall|i: int|
            0 <= i < pieces(s, sep).len() ==> !(#[trigger] pieces(s, sep)[i]).contains(sep),
        glued(pieces(s, sep), sep) == s,
    decreases s.len(),
{
    if s.len() == 0 {
        assert(glued(pieces(s, sep), sep) =~= s);
    } else {
        let front = s.drop_last();
        let before = pieces(front, sep);
        let all = pieces(s, sep);
        pieces_make_the_text(front, sep);
        assert(front.push(s.last()) =~= s);
        if s.last() == sep {
            assert(all.drop_last() =~= before);
            assert(glued(all, sep) =~= s);
        } else {
            let last = before.last();
            assert(all.drop_last() =~= before.drop_last());
            assert forall|i: int| 0 <= i < all.len() implies !(#[trigger] all[i]).contains(sep) by {
                if i < all.len() - 1 {
                    assert(all[i] == before[i]);
                } else {
                    assert forall|k: int| 0 <= k < all[i].len() implies all[i][k] != sep by {
                        if k < last.len() {
                            assert(last[k] == all[i][k]);
                        }
                    }
                }
            }
            assert(glued(all, sep) =~= s);
        }
    }
}

/// The number that decimal digits stand for.
pub open spec fn number(digits: Seq<char>) -> int
    decreases digits.len(),
{
    if digits.len() == 0 {
        0
    } else {
        number(digits.drop_last()) * 10 + (digits.last() as int - '0' as int)
    }
}

/// A number is written with decimal digits only, without leading zeros, and the
/// digits stand for it.
pub proof fn decimal_stands_for_the_number(n: nat)
    ensures
        decimal(n).len() >= 1,
        forall|i: int| 0 <= i < decimal(n).len() ==> '0' <= #[trigger] decimal(n)[i] <= '9',
        number(decimal(n)) == n,
        decimal(n).len() > 1 ==> decimal(n)[0] != '0',
        n > 0 ==> decimal(n)[0] != '0',
    decreases n,
{
    reveal_with_fuel(number, 2);
    if n >= 10 {
        decimal_stands_for_the_number(n / 10);
        assert(decimal(n).drop_last() =~= decimal(n / 10));
    } else {
        assert(decimal(n).drop_last() =~= Seq::<char>::empty());
    }
}

/// The views of a list are those of its members, in order.
pub proof fn views_are_those_of_the_members(list: Seq<&str>)
    ensures
        views(list).len() == list.len(),
        forall|i: int| 0 <= i < list.len() ==> #[trigger] views(list)[i] == list[i]@,
{
}

} // verus!
