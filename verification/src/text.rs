//! Characters and strings: white space, splitting, decimal numerals.

use vstd::prelude::*;
use vstd::string::*;

verus! {

/// The characters that Unicode gives the property `White_Space`.
pub open spec fn white_space(c: char) -> bool {
    let u = c as u32;
    ||| 0x0009 <= u <= 0x000D
    ||| u == 0x0020
    ||| u == 0x0085
    ||| u == 0x00A0
    ||| u == 0x1680
    ||| 0x2000 <= u <= 0x200A
    ||| u == 0x2028
    ||| u == 0x2029
    ||| u == 0x202F
    ||| u == 0x205F
    ||| u == 0x3000
}

/// A text without a single visible character: empty, or white space only.
pub open spec fn blank(s: Seq<char>) -> bool {
    forall|i: int| 0 <= i < s.len() ==> white_space(#[trigger] s[i])
}

/// Whether `c` is a white-space character.
pub fn is_white_space(c: char) -> (b: bool)
    ensures
        b == white_space(c),
{
    let u: u32 = c as u32;
    (0x0009 <= u && u <= 0x000D) || u == 0x0020 || u == 0x0085 || u == 0x00A0 || u == 0x1680 || (
    0x2000 <= u && u <= 0x200A) || u == 0x2028 || u == 0x2029 || u == 0x202F || u == 0x205F || u
        == 0x3000
}

/// Whether `s` is empty or holds white space only.
pub fn is_blank(s: &str) -> (b: bool)
    ensures
        b == blank(s@),
{
    broadcast use vstd::string::axiom_spec_iter;

    let mut all_white: bool = true;
    for c in it: s.chars()
        invariant
            it.seq() == s@,
            all_white == (forall|i: int| 0 <= i < it.index() ==> white_space(#[trigger] s@[i])),
    {
        if !is_white_space(c) {
            all_white = false;
        }
    }
    all_white
}

/// The text of a string that may be absent.
pub open spec fn optional_text(o: Option<String>) -> Option<Seq<char>> {
    match o {
        Some(s) => Some(s@),
        None => None,
    }
}

/// A copy of a string that may be absent.
pub fn copy_optional(o: &Option<String>) -> (copy: Option<String>)
    ensures
        optional_text(copy) == optional_text(*o),
{
    match o {
        Some(s) => Some(s.clone()),
        None => None,
    }
}

/// The texts held by a sequence of strings.
pub open spec fn texts(v: Seq<String>) -> Seq<Seq<char>> {
    Seq::new(v.len(), |i: int| v[i]@)
}

/// `s` cut at each white-space character. The white-space characters
/// themselves are dropped; what stands between two of them, before the first
/// and after the last is a piece, also where it is empty. So there is always
/// one piece more than there are white-space characters.
pub open spec fn split_at_white_space(s: Seq<char>) -> Seq<Seq<char>>
    decreases s.len(),
{
    if s.len() == 0 {
        seq![Seq::<char>::empty()]
    } else {
        let before = split_at_white_space(s.drop_last());
        if white_space(s.last()) {
            before.push(Seq::<char>::empty())
        } else {
            before.drop_last().push(before.last().push(s.last()))
        }
    }
}

/// The number of white-space characters in `s`.
pub open spec fn count_white_space(s: Seq<char>) -> nat
    decreases s.len(),
{
    if s.len() == 0 {
        0
    } else {
        count_white_space(s.drop_last()) + if white_space(s.last()) {
            1nat
        } else {
            0nat
        }
    }
}

/// Cutting at white space gives one piece more than there are white-space
/// characters, and no piece holds a white-space character.
pub proof fn lemma_split_pieces(s: Seq<char>)
    ensures
        split_at_white_space(s).len() == count_white_space(s) + 1,
        forall|k: int, i: int|
            0 <= k < split_at_white_space(s).len() && 0 <= i < split_at_white_space(s)[k].len()
                ==> !white_space(#[trigger] split_at_white_space(s)[k][i]),
    decreases s.len(),
{
    if s.len() > 0 {
        lemma_split_pieces(s.drop_last());
    }
}

/// The pieces put together again, with one separator between each two
/// neighbours: the first separator after the first piece, and so on.
pub open spec fn interleave(pieces: Seq<Seq<char>>, separators: Seq<char>) -> Seq<char>
    recommends
        pieces.len() == separators.len() + 1,
    decreases pieces.len(),
{
    if pieces.len() == 0 {
        Seq::<char>::empty()
    } else if pieces.len() == 1 {
        pieces[0]
    } else {
        interleave(pieces.drop_last(), separators.drop_last()).push(separators.last())
            + pieces.last()
    }
}

/// Nothing is lost and nothing is moved: the pieces, put together again
/// with the white-space characters of `s` between them, are `s`. Where the
/// space is the only white space in `s`, the pieces are therefore what
/// stands between the spaces.
pub proof fn lemma_split_rejoins(s: Seq<char>)
    ensures
        interleave(split_at_white_space(s), s.filter(|c: char| white_space(c))) == s,
    decreases s.len(),
{
    let white = |c: char| white_space(c);
    if s.len() == 0 {
        assert(split_at_white_space(s)[0] =~= s);
    } else {
        let front = s.drop_last();
        let c = s.last();
        let before = split_at_white_space(front);
        lemma_split_rejoins(front);
        lemma_split_pieces(front);
        assert(s =~= front.push(c));
        assert(front.push(c).filter(white) == if white(c) {
            front.filter(white).push(c)
        } else {
            front.filter(white)
        }) by {
            reveal(Seq::filter);
            assert(front.push(c).drop_last() =~= front);
        }
        if white_space(c) {
            let pieces = before.push(Seq::<char>::empty());
            let separators = front.filter(white).push(c);
            assert(pieces.drop_last() =~= before);
            assert(separators.drop_last() =~= front.filter(white));
            assert(interleave(pieces, separators) =~= front.push(c));
        } else {
            let pieces = before.drop_last().push(before.last().push(c));
            let separators = front.filter(white);
            if before.len() == 1 {
                assert(interleave(pieces, separators) =~= front.push(c));
            } else {
                assert(pieces.drop_last() =~= before.drop_last());
                assert(interleave(pieces, separators) =~= interleave(before, separators).push(c));
            }
        }
    }
}

/// Cuts `s` at each white-space character.
pub fn split_white_space(s: &str) -> (pieces: Vec<String>)
    ensures
        texts(pieces@) == split_at_white_space(s@),
{
    broadcast use vstd::string::axiom_spec_iter;

    let total: usize = s.unicode_len();
    let mut pieces: Vec<String> = Vec::new();
    let mut start: usize = 0;
    let mut at: usize = 0;
    assert(s@.take(0) =~= Seq::<char>::empty());
    assert(texts(pieces@).push(s@.subrange(0, 0)) =~= split_at_white_space(s@.take(0)));
    for c in it: s.chars()
        invariant
            it.seq() == s@,
            total == s@.len(),
            at == it.index(),
            start <= at <= total,
            split_at_white_space(s@.take(at as int)) == texts(pieces@).push(
                s@.subrange(start as int, at as int),
            ),
    {
        let ghost before = split_at_white_space(s@.take(at as int));
        assert(s@.take(at + 1).drop_last() =~= s@.take(at as int));
        assert(s@.take(at + 1).last() == c);
        if is_white_space(c) {
            let piece: String = s.substring_char(start, at).to_owned();
            pieces.push(piece);
            start = at + 1;
            assert(texts(pieces@) =~= before);
            assert(s@.subrange(start as int, at + 1) =~= Seq::<char>::empty());
        } else {
            assert(before.drop_last() =~= texts(pieces@));
            assert(before.last().push(c) =~= s@.subrange(start as int, at + 1));
        }
        at = at + 1;
    }
    assert(s@.take(total as int) =~= s@);
    let last: String = s.substring_char(start, total).to_owned();
    pieces.push(last);
    assert(texts(pieces@) =~= split_at_white_space(s@));
    pieces
}

/// The character that stands for the digit `d`.
pub open spec fn digit(d: int) -> char
    recommends
        0 <= d <= 9,
{
    if d == 0 {
        '0'
    } else if d == 1 {
        '1'
    } else if d == 2 {
        '2'
    } else if d == 3 {
        '3'
    } else if d == 4 {
        '4'
    } else if d == 5 {
        '5'
    } else if d == 6 {
        '6'
    } else if d == 7 {
        '7'
    } else if d == 8 {
        '8'
    } else {
        '9'
    }
}

/// The decimal numeral of a natural number, without leading zeros.
pub open spec fn decimal_nat(n: nat) -> Seq<char>
    decreases n,
{
    if n < 10 {
        seq![digit(n as int)]
    } else {
        decimal_nat(n / 10).push(digit((n % 10) as int))
    }
}

/// The decimal numeral of an integer: a minus sign before a negative one.
pub open spec fn decimal(i: int) -> Seq<char> {
    if i < 0 {
        seq!['-'] + decimal_nat((-i) as nat)
    } else {
        decimal_nat(i as nat)
    }
}

/// The one-character text of a digit.
fn digit_text(d: u32) -> (t: &'static str)
    requires
        d <= 9,
    ensures
        t@ == seq![digit(d as int)],
{
    proof {
        reveal_strlit("0");
        reveal_strlit("1");
        reveal_strlit("2");
        reveal_strlit("3");
        reveal_strlit("4");
        reveal_strlit("5");
        reveal_strlit("6");
        reveal_strlit("7");
        reveal_strlit("8");
        reveal_strlit("9");
    }
    let t: &'static str = if d == 0 {
        "0"
    } else if d == 1 {
        "1"
    } else if d == 2 {
        "2"
    } else if d == 3 {
        "3"
    } else if d == 4 {
        "4"
    } else if d == 5 {
        "5"
    } else if d == 6 {
        "6"
    } else if d == 7 {
        "7"
    } else if d == 8 {
        "8"
    } else {
        "9"
    };
    assert(t@ =~= seq![digit(d as int)]);
    t
}

/// Appends the decimal numeral of `n` to `out`.
fn append_decimal(out: &mut String, n: u32)
    ensures
        final(out)@ == old(out)@ + decimal_nat(n as nat),
    decreases n,
{
    if n >= 10 {
        append_decimal(out, n / 10);
    }
    out.append(digit_text(n % 10));
    assert(final(out)@ =~= old(out)@ + decimal_nat(n as nat)) by {
        if n >= 10 {
            assert(decimal_nat(n as nat) == decimal_nat((n / 10) as nat).push(
                digit((n % 10) as int),
            ));
        }
    }
}

/// The decimal numeral of `i`.
pub fn decimal_text(i: i32) -> (t: String)
    ensures
        t@ == decimal(i as int),
{
    let mut t: String = String::new();
    if i < 0 {
        proof {
            reveal_strlit("-");
        }
        t.append("-");
        assert(t@ =~= seq!['-']);
        let wide: i64 = i as i64;
        let magnitude: u32 = (0 - wide) as u32;
        append_decimal(&mut t, magnitude);
        assert(t@ =~= decimal(i as int));
    } else {
        let magnitude: u32 = i as u32;
        append_decimal(&mut t, magnitude);
        assert(t@ =~= decimal(i as int));
    }
    t
}

} // verus!
