//! Building and taking apart text: decimal numbers written digit by digit,
//! and a line of text split into its pieces.

use vstd::prelude::*;

verus! {

/// `String::push` appends one char to the end of the string.
pub assume_specification[ String::push ](s: &mut String, ch: char)
    ensures
        final(s)@ == old(s)@.push(ch),
;

/// The char that stands for the digit `d`.
pub open spec fn digit(d: int) -> char {
    if d == 0 {
        '0'
    } else if d == 1 {
        '1'
    } else if d == 2 {
        '2'
    } else if d == 3 {
        '3'
    } else if d == 4 {
        '4'
    } else if d == 5 {
        '5'
    } else if d == 6 {
        '6'
    } else if d == 7 {
        '7'
    } else if d == 8 {
        '8'
    } else {
        '9'
    }
}

/// `n` in decimal, without leading zeros.
pub open spec fn decimal(n: nat) -> Seq<char>
    decreases n,
{
    if n < 10 {
        seq![digit(n as int)]
    } else {
        decimal(n / 10).push(digit((n % 10) as int))
    }
}

/// `x` in decimal, with a minus sign in front if it is negative.
pub open spec fn signed_decimal(x: int) -> Seq<char> {
    if x < 0 {
        seq!['-'] + decimal((-x) as nat)
    } else {
        decimal(x as nat)
    }
}

/// `n` in decimal, with a zero in front if it has one digit only.
pub open spec fn padded2(n: nat) -> Seq<char> {
    if n < 10 {
        seq!['0'] + decimal(n)
    } else {
        decimal(n)
    }
}

/// The digit a char stands for, or -1 if it stands for none.
pub open spec fn digit_value(c: char) -> int {
    if c == '0' {
        0
    } else if c == '1' {
        1
    } else if c == '2' {
        2
    } else if c == '3' {
        3
    } else if c == '4' {
        4
    } else if c == '5' {
        5
    } else if c == '6' {
        6
    } else if c == '7' {
        7
    } else if c == '8' {
        8
    } else if c == '9' {
        9
    } else {
        -1
    }
}

/// The number a row of digits stands for.
pub open spec fn decimal_value(s: Seq<char>) -> int
    decreases s.len(),
{
    if s.len() == 0 {
        0
    } else {
        decimal_value(s.drop_last()) * 10 + digit_value(s.last())
    }
}

/// The decimal text of a number is a row of digits that stands for that
/// number, and it starts with a zero only if the number is zero.
pub proof fn lemma_decimal_reads_back(n: nat)
    ensures
        decimal(n).len() >= 1,
        forall|i: int| 0 <= i < decimal(n).len() ==> 0 <= digit_value(#[trigger] decimal(n)[i]) <= 9,
        decimal_value(decimal(n)) == n,
        n > 0 ==> decimal(n)[0] != '0',
    decreases n,
{
    if n < 10 {
        let one = seq![digit(n as int)];
        assert(one.drop_last() == Seq::<char>::empty());
        assert(decimal_value(one.drop_last()) == 0);
        assert(decimal_value(one) == digit_value(one.last()));
    } else {
        let front = decimal(n / 10);
        let last = digit((n % 10) as int);
        lemma_decimal_reads_back(n / 10);
        assert(front.push(last).drop_last() == front);
        assert(decimal(n)[0] == front[0]);
        assert forall|i: int| 0 <= i < decimal(n).len() implies 0 <= digit_value(
            #[trigger] decimal(n)[i],
        ) <= 9 by {
            if i < front.len() {
                assert(decimal(n)[i] == front[i]);
            }
        }
    }
}

/// The char for one decimal digit.
pub fn digit_char(d: u8) -> (c: char)
    requires
        d < 10,
    ensures
        c == digit(d as int),
{
    match d {
        0 => '0',
        1 => '1',
        2 => '2',
        3 => '3',
        4 => '4',
        5 => '5',
        6 => '6',
        7 => '7',
        8 => '8',
        _ => '9',
    }
}

/// Appends `n` in decimal to `out`.
pub fn push_decimal(out: &mut String, n: u128)
    ensures
        final(out)@ == old(out)@ + decimal(n as nat),
    decreases n,
{
    if n >= 10 {
        push_decimal(out, n / 10);
    }
    out.push(digit_char((n % 10) as u8));
}

/// Appends `x` in decimal to `out`, with its sign if it is negative.
pub fn push_signed(out: &mut String, x: i128)
    ensures
        final(out)@ == old(out)@ + signed_decimal(x as int),
{
    if x < 0 {
        out.push('-');
        let magnitude: u128 = (-(x + 1)) as u128 + 1;
        push_decimal(out, magnitude);
    } else {
        push_decimal(out, x as u128);
    }
}

/// Appends `n` in decimal to `out`, in two digits at least.
pub fn push_padded2(out: &mut String, n: u32)
    ensures
        final(out)@ == old(out)@ + padded2(n as nat),
{
    if n < 10 {
        out.push('0');
    }
    push_decimal(out, n as u128);
}

/// The char that parts the pieces of a list written as text.
pub const PIECE_SEPARATOR: char = '|';

/// The char that ends a line.
pub const NEWLINE: char = '\n';

/// `s` without any occurrence of `c`.
pub open spec fn without(s: Seq<char>, c: char) -> Seq<char>
    decreases s.len(),
{
    if s.len() == 0 {
        s
    } else if s.last() == c {
        without(s.drop_last(), c)
    } else {
        without(s.drop_last(), c).push(s.last())
    }
}

/// The pieces of `s` between the occurrences of `sep`. There is one piece
/// more than there are separators: a text without any is one piece, and two
/// separators in a row have an empty piece between them.
pub open spec fn split_on(s: Seq<char>, sep: char) -> Seq<Seq<char>>
    decreases s.len(),
{
    if s.len() == 0 {
        seq![Seq::<char>::empty()]
    } else if s.last() == sep {
        split_on(s.drop_last(), sep).push(Seq::<char>::empty())
    } else {
        let before = split_on(s.drop_last(), sep);
        before.drop_last().push(before.last().push(s.last()))
    }
}

/// The pieces put together again, with `sep` between each two.
pub open spec fn joined(pieces: Seq<Seq<char>>, sep: char) -> Seq<char>
    decreases pieces.len(),
{
    if pieces.len() == 0 {
        Seq::<char>::empty()
    } else if pieces.len() == 1 {
        pieces[0]
    } else {
        joined(pieces.drop_last(), sep).push(sep) + pieces.last()
    }
}

/// What `without` leaves has no occurrence of `c`, and a text that has none
/// is left as it is.
pub proof fn lemma_without(s: Seq<char>, c: char)
    ensures
        !without(s, c).contains(c),
        !s.contains(c) ==> without(s, c) == s,
        without(s, c).len() <= s.len(),
    decreases s.len(),
{
    if s.len() > 0 {
        let front = s.drop_last();
        lemma_without(front, c);
        if !s.contains(c) {
            assert forall|i: int| 0 <= i < front.len() implies front[i] != c by {
                assert(s[i] == front[i]);
                assert(s.contains(s[i]));
            }
            assert(s.contains(s.last()));
            assert(front.push(s.last()) == s);
        }
        if s.last() != c {
            let kept = without(front, c);
            assert forall|i: int| 0 <= i < kept.push(s.last()).len() implies kept.push(
                s.last(),
            )[i] != c by {
                if i < kept.len() {
                    assert(kept.contains(kept[i]));
                }
            }
        }
    }
}

/// Splitting loses nothing and cuts at every separator: there is at least
/// one piece, no piece holds a separator, and the pieces joined by the
/// separator are the text that was split.
pub proof fn lemma_split_joins_back(s: Seq<char>, sep: char)
    ensures
        split_on(s, sep).len() >= 1,
        forall|i: int| 0 <= i < split_on(s, sep).len() ==> !(#[trigger] split_on(s, sep)[i]).contains(sep),
        joined(split_on(s, sep), sep) == s,
    decreases s.len(),
{
    if s.len() == 0 {
        assert(joined(split_on(s, sep), sep) == s);
    } else {
        let front = s.drop_last();
        let before = split_on(front, sep);
        lemma_split_joins_back(front, sep);
        assert(front.push(s.last()) == s);
        if s.last() == sep {
            let pieces = before.push(Seq::<char>::empty());
            assert(pieces.drop_last() == before);
            assert(joined(pieces, sep) == joined(before, sep).push(sep) + Seq::<char>::empty());
            assert(joined(pieces, sep) == s);
        } else {
            let grown = before.last().push(s.last());
            let pieces = before.drop_last().push(grown);
            assert(pieces.drop_last() == before.drop_last());
            assert(!before.last().contains(sep));
            assert forall|j: int| 0 <= j < grown.len() implies grown[j] != sep by {
                if j < before.last().len() {
                    assert(before.last().contains(before.last()[j]));
                }
            }
            if before.len() == 1 {
                assert(before[0] == joined(before, sep));
                assert(joined(pieces, sep) == grown);
            } else {
                assert(joined(pieces, sep) == joined(before.drop_last(), sep).push(sep) + grown);
                assert(joined(before, sep) == joined(before.drop_last(), sep).push(sep)
                    + before.last());
                assert(joined(pieces, sep) == joined(before, sep).push(s.last()));
            }
        }
    }
}

/// The texts of a list of strings.
pub open spec fn texts_of(v: Seq<String>) -> Seq<Seq<char>> {
    v.map_values(|s: String| s@)
}

/// Reads a list from text: line breaks are dropped, and what remains is
/// split at every `|`.
pub fn load_vec_from_text(text: &str) -> (r: Vec<String>)
    ensures
        texts_of(r@) == split_on(without(text@, NEWLINE), PIECE_SEPARATOR),
{
    let mut pieces: Vec<String> = Vec::new();
    let mut current = String::new();
    for c in it: text.chars()
        invariant
            it.seq() == text@,
            texts_of(pieces@).push(current@) == split_on(
                without(text@.take(it.index()), NEWLINE),
                PIECE_SEPARATOR,
            ),
    {
        let ghost seen = text@.take(it.index());
        let ghost kept = without(seen, NEWLINE);
        proof {
            assert(text@.take(it.index() + 1) == seen.push(c));
            assert(seen.push(c).drop_last() == seen);
        }
        if c == PIECE_SEPARATOR {
            proof {
                assert(kept.push(c).drop_last() == kept);
                assert(texts_of(pieces@.push(current)) == texts_of(pieces@).push(current@));
            }
            pieces.push(current);
            current = String::new();
        } else if c != NEWLINE {
            proof {
                assert(kept.push(c).drop_last() == kept);
                assert(texts_of(pieces@).push(current@).drop_last() == texts_of(pieces@));
            }
            current.push(c);
        }
    }
    proof {
        assert(text@.take(text@.len() as int) == text@);
        assert(texts_of(pieces@.push(current)) == texts_of(pieces@).push(current@));
    }
    pieces.push(current);
    pieces
}

} // verus!
