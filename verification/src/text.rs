//! Building blocks for report text: decimal numerals and fixed-width cells.

use vstd::prelude::*;
use vstd::string::*;

verus! {

/// `String::push` appends exactly one character to the end of the string.
pub assume_specification[ String::push ](s: &mut String, c: char)
    ensures
        final(s)@ == old(s)@.push(c),
;

/// The character that writes the digit `d`.
pub open spec fn digit_char(d: int) -> char
    recommends
        0 <= d <= 9,
{
    ((48 + d) as u8) as char
}

/// The decimal numeral of a natural number, without leading zeros.
pub open spec fn natural_text(n: nat) -> Seq<char>
    decreases n,
{
    if n < 10 {
        seq![digit_char(n as int)]
    } else {
        natural_text(n / 10).push(digit_char((n % 10) as int))
    }
}

/// The decimal numeral of an integer: a minus sign in front of negative values.
pub open spec fn integer_text(n: int) -> Seq<char> {
    if n < 0 {
        seq!['-'] + natural_text((-n) as nat)
    } else {
        natural_text(n as nat)
    }
}

/// `count` copies of the character `c`.
pub open spec fn run(c: char, count: int) -> Seq<char> {
    Seq::new(
        if count > 0 {
            count as nat
        } else {
            0
        },
        |i: int| c,
    )
}

/// The numeral of `n` with zeros in front up to `width` characters; longer
/// numerals are left as they are.
pub open spec fn zero_padded(n: nat, width: int) -> Seq<char> {
    run('0', width - natural_text(n).len()) + natural_text(n)
}

/// `text` followed by spaces up to `width` characters.
pub open spec fn left_aligned(text: Seq<char>, width: int) -> Seq<char> {
    text + run(' ', width - text.len())
}

/// `text` preceded by spaces up to `width` characters.
pub open spec fn right_aligned(text: Seq<char>, width: int) -> Seq<char> {
    run(' ', width - text.len()) + text
}

/// A numeral is never empty, and holds digits only.
pub proof fn natural_text_is_digits(n: nat)
    ensures
        natural_text(n).len() >= 1,
        forall|i: int|
            0 <= i < natural_text(n).len() ==> '0' <= #[trigger] natural_text(n)[i] <= '9',
    decreases n,
{
    if n >= 10 {
        natural_text_is_digits(n / 10);
    }
}

/// A number below one hundred, zero-padded to two characters, is its tens
/// digit and its ones digit.
pub proof fn lemma_two_digits(n: nat)
    requires
        n < 100,
    ensures
        zero_padded(n, 2) == seq![digit_char((n / 10) as int), digit_char((n % 10) as int)],
{
    reveal_with_fuel(natural_text, 3);
    assert(zero_padded(n, 2) =~= seq![digit_char((n / 10) as int), digit_char((n % 10) as int)]);
}

/// A number below ten thousand, zero-padded to four characters, is its four
/// digits.
pub proof fn lemma_four_digits(n: nat)
    requires
        n < 10000,
    ensures
        zero_padded(n, 4) == seq![
            digit_char((n / 1000) as int),
            digit_char((n / 100 % 10) as int),
            digit_char((n / 10 % 10) as int),
            digit_char((n % 10) as int),
        ],
{
    reveal_with_fuel(natural_text, 5);
    assert(zero_padded(n, 4) =~= seq![
        digit_char((n / 1000) as int),
        digit_char((n / 100 % 10) as int),
        digit_char((n / 10 % 10) as int),
        digit_char((n % 10) as int),
    ]);
}

/// Appends the decimal numeral of `n`.
pub fn push_natural(out: &mut String, n: u128)
    ensures
        final(out)@ == old(out)@ + natural_text(n as nat),
    decreases n,
{
    if n >= 10 {
        push_natural(out, n / 10);
    }
    let d: u8 = (n % 10) as u8;
    out.push((48u8 + d) as char);
    assert(final(out)@ =~= old(out)@ + natural_text(n as nat));
}

/// Appends the decimal numeral of `n`, with a minus sign where it is negative.
pub fn push_integer(out: &mut String, n: i128)
    ensures
        final(out)@ == old(out)@ + integer_text(n as int),
{
    if n < 0 {
        out.push('-');
        let magnitude: u128 = (-(n + 1)) as u128 + 1;
        push_natural(out, magnitude);
        assert(final(out)@ =~= old(out)@ + integer_text(n as int));
    } else {
        push_natural(out, n as u128);
    }
}

/// Appends `count` copies of `c`.
pub fn push_run(out: &mut String, c: char, count: usize)
    ensures
        final(out)@ == old(out)@ + run(c, count as int),
{
    let mut i: usize = 0;
    while i < count
        invariant
            i <= count,
            out@ == old(out)@ + run(c, i as int),
        decreases count - i,
    {
        out.push(c);
        i = i + 1;
        assert(out@ =~= old(out)@ + run(c, i as int));
    }
}

/// Appends the numeral of `n`, zero-padded to `width` characters.
pub fn push_zero_padded(out: &mut String, n: u128, width: usize)
    ensures
        final(out)@ == old(out)@ + zero_padded(n as nat, width as int),
{
    let mut numeral = String::new();
    push_natural(&mut numeral, n);
    let len = numeral.as_str().unicode_len();
    if len < width {
        push_run(out, '0', width - len);
    }
    out.append(numeral.as_str());
    assert(final(out)@ =~= old(out)@ + zero_padded(n as nat, width as int));
}

/// Appends `text`, then spaces up to `width` characters.
pub fn push_left_aligned(out: &mut String, text: &str, width: usize)
    ensures
        final(out)@ == old(out)@ + left_aligned(text@, width as int),
{
    out.append(text);
    let len = text.unicode_len();
    if len < width {
        push_run(out, ' ', width - len);
    }
    assert(final(out)@ =~= old(out)@ + left_aligned(text@, width as int));
}

/// Appends spaces up to `width` characters, then `text`.
pub fn push_right_aligned(out: &mut String, text: &str, width: usize)
    ensures
        final(out)@ == old(out)@ + right_aligned(text@, width as int),
{
    let len = text.unicode_len();
    if len < width {
        push_run(out, ' ', width - len);
    }
    out.append(text);
    assert(final(out)@ =~= old(out)@ + right_aligned(text@, width as int));
}

/// Whether two texts hold the same characters.
pub fn same_text(a: &str, b: &str) -> (same: bool)
    ensures
        same == (a@ == b@),
{
    let len = a.unicode_len();
    if len != b.unicode_len() {
        return false;
    }
    let mut i: usize = 0;
    while i < len
        invariant
            i <= len,
            len == a@.len(),
            len == b@.len(),
            forall|j: int| 0 <= j < i ==> a@[j] == b@[j],
        decreases len - i,
    {
        if a.get_char(i) != b.get_char(i) {
            return false;
        }
        i = i + 1;
    }
    assert(a@ =~= b@);
    true
}

/// The place of the first `c` in `text`; the length of `text` if there is
/// none.
pub open spec fn position_of(text: Seq<char>, c: char) -> int
    decreases text.len(),
{
    if text.len() == 0 || text[0] == c {
        0
    } else {
        1 + position_of(text.drop_first(), c)
    }
}

/// `position_of` is the one place before which no `c` stands and at which
/// one does, or the text ends.
pub proof fn lemma_position_of(text: Seq<char>, c: char, at: int)
    requires
        0 <= at <= text.len(),
        forall|j: int| 0 <= j < at ==> text[j] != c,
        at < text.len() ==> text[at] == c,
    ensures
        position_of(text, c) == at,
    decreases at,
{
    if at > 0 {
        let rest = text.drop_first();
        assert forall|j: int| 0 <= j < at - 1 implies rest[j] != c by {
            assert(rest[j] == text[j + 1]);
        }
        lemma_position_of(rest, c, at - 1);
    }
}

/// The first place at or after `from` where `c` stands in `text`; the length
/// of the text if there is none.
pub fn find_from(text: &str, c: char, from: usize) -> (at: usize)
    requires
        from <= text@.len(),
    ensures
        from <= at <= text@.len(),
        at == from + position_of(text@.subrange(from as int, text@.len() as int), c),
        forall|j: int| from <= j < at ==> text@[j] != c,
        at < text@.len() ==> text@[at as int] == c,
{
    let len = text.unicode_len();
    let mut at: usize = from;
    while at < len && text.get_char(at) != c
        invariant
            from <= at <= len,
            len == text@.len(),
            forall|j: int| from <= j < at ==> text@[j] != c,
        decreases len - at,
    {
        at = at + 1;
    }
    proof {
        let rest = text@.subrange(from as int, len as int);
        assert forall|j: int| 0 <= j < at - from implies rest[j] != c by {
            assert(rest[j] == text@[from + j]);
        }
        lemma_position_of(rest, c, at - from);
    }
    at
}

} // verus!
