//! Character-level tools: every other module states its contracts over
//! sequences of characters and builds its strings with these.

use vstd::prelude::*;

verus! {

/// Appends one character to a string.
///
/// Trusted: this is `String::push` of the standard library, which adds the
/// character at the end and leaves what was there untouched.
#[verifier::external_body]
fn push_char(text: &mut String, c: char)
    ensures
        final(text)@ == old(text)@.push(c),
{
    text.push(c)
}

/// The characters of a string, in order.
pub fn chars_of(text: &str) -> (chars: Vec<char>)
    ensures
        chars@ == text@,
{
    let mut chars: Vec<char> = Vec::new();
    for c in it: text.chars()
        invariant
            chars@ == it.seq().take(it.index() as int),
            it.seq() == text@,
    {
        chars.push(c);
    }
    chars
}

/// The string made of the given characters, in order.
pub fn string_of(chars: &Vec<char>) -> (text: String)
    ensures
        text@ == chars@,
{
    let mut text = String::new();
    let mut i: usize = 0;
    while i < chars.len()
        invariant
            i <= chars.len(),
            text@ == chars@.take(i as int),
        decreases chars.len() - i,
    {
        push_char(&mut text, chars[i]);
        assert(chars@.take(i as int).push(chars@[i as int]) =~= chars@.take(i + 1));
        i += 1;
    }
    assert(chars@.take(chars.len() as int) =~= chars@);
    text
}

/// `text` without any occurrence of `c`.
pub open spec fn without_char(text: Seq<char>, c: char) -> Seq<char>
    decreases text.len(),
{
    if text.len() == 0 {
        text
    } else if text[0] == c {
        without_char(text.skip(1), c)
    } else {
        seq![text[0]] + without_char(text.skip(1), c)
    }
}

/// `text` without the two-character sequence `first`, `second`, wherever it
/// occurs. Occurrences are taken from the left and do not overlap; what
/// removal brings together is not looked at again.
pub open spec fn without_pair(text: Seq<char>, first: char, second: char) -> Seq<char>
    decreases text.len(),
{
    if text.len() < 2 {
        text
    } else if text[0] == first && text[1] == second {
        without_pair(text.skip(2), first, second)
    } else {
        seq![text[0]] + without_pair(text.skip(1), first, second)
    }
}

/// What is left after `c` was taken out holds no `c`, and a text that held
/// none is left as it was.
pub proof fn without_char_is_free(text: Seq<char>, c: char)
    ensures
        !without_char(text, c).contains(c),
        without_char(text, c).len() <= text.len(),
        !text.contains(c) ==> without_char(text, c) == text,
    decreases text.len(),
{
    if text.len() > 0 {
        let rest = text.skip(1);
        without_char_is_free(rest, c);
        let kept = without_char(rest, c);
        if text[0] != c {
            let all = seq![text[0]] + kept;
            assert forall|i: int| 0 <= i < all.len() implies all[i] != c by {
                if i > 0 {
                    assert(all[i] == kept[i - 1]);
                    assert(kept.contains(kept[i - 1]));
                }
            }
        }
        if !text.contains(c) {
            assert forall|i: int| 0 <= i < rest.len() implies rest[i] != c by {
                assert(text.contains(text[i + 1]));
            }
            assert(text.contains(text[0]));
            assert(seq![text[0]] + rest =~= text);
        }
    }
}

/// Whether `c` is one of the ten digit characters.
pub open spec fn is_digit(c: char) -> bool {
    digit(digit_value(c)) == c
}

/// Removes every occurrence of `c`.
pub fn strip_char(text: &Vec<char>, c: char) -> (kept: Vec<char>)
    ensures
        kept@ == without_char(text@, c),
{
    let mut kept: Vec<char> = Vec::new();
    let mut i: usize = 0;
    assert(text@.skip(0) =~= text@);
    assert(kept@ + without_char(text@, c) =~= without_char(text@, c));
    while i < text.len()
        invariant
            i <= text.len(),
            without_char(text@, c) == kept@ + without_char(text@.skip(i as int), c),
        decreases text.len() - i,
    {
        let ghost rest = text@.skip(i as int);
        assert(rest.skip(1) =~= text@.skip(i + 1));
        if text[i] != c {
            kept.push(text[i]);
            assert(kept@ + without_char(rest.skip(1), c) =~= kept@.drop_last() + (seq![rest[0]]
                + without_char(rest.skip(1), c)));
        }
        i += 1;
    }
    assert(kept@ + without_char(text@.skip(i as int), c) =~= kept@);
    kept
}

/// Removes every occurrence of the two-character sequence `first`, `second`,
/// from the left, without looking again at what a removal brings together.
pub fn strip_pair(text: &Vec<char>, first: char, second: char) -> (kept: Vec<char>)
    ensures
        kept@ == without_pair(text@, first, second),
{
    let mut kept: Vec<char> = Vec::new();
    let mut i: usize = 0;
    assert(text@.skip(0) =~= text@);
    assert(kept@ + without_pair(text@, first, second) =~= without_pair(text@, first, second));
    while i < text.len()
        invariant
            i <= text.len(),
            without_pair(text@, first, second) == kept@ + without_pair(
                text@.skip(i as int),
                first,
                second,
            ),
        decreases text.len() - i,
    {
        let ghost rest = text@.skip(i as int);
        if i + 1 < text.len() && text[i] == first && text[i + 1] == second {
            assert(rest.skip(2) =~= text@.skip(i + 2));
            i += 2;
        } else {
            assert(rest.skip(1) =~= text@.skip(i + 1));
            kept.push(text[i]);
            assert(kept@ + without_pair(rest.skip(1), first, second) =~= kept@.drop_last() + (
            seq![rest[0]] + without_pair(rest.skip(1), first, second)));
            assert(rest.len() < 2 ==> seq![rest[0]] + without_pair(rest.skip(1), first, second)
                =~= rest);
            i += 1;
        }
    }
    assert(kept@ + without_pair(text@.skip(i as int), first, second) =~= kept@);
    kept
}

/// `text` with every `from` turned into `to`.
pub open spec fn with_char_replaced(text: Seq<char>, from: char, to: char) -> Seq<char> {
    Seq::new(
        text.len(),
        |i: int|
            if text[i] == from {
                to
            } else {
                text[i]
            },
    )
}

/// Turns every `from` into `to`.
pub fn replace_char(text: &Vec<char>, from: char, to: char) -> (out: Vec<char>)
    ensures
        out@ == with_char_replaced(text@, from, to),
{
    let mut out: Vec<char> = Vec::new();
    let mut i: usize = 0;
    while i < text.len()
        invariant
            i <= text.len(),
            out@ == with_char_replaced(text@, from, to).take(i as int),
        decreases text.len() - i,
    {
        let c = if text[i] == from {
            to
        } else {
            text[i]
        };
        out.push(c);
        assert(with_char_replaced(text@, from, to).take(i as int).push(c)
            =~= with_char_replaced(text@, from, to).take(i + 1));
        i += 1;
    }
    assert(with_char_replaced(text@, from, to).take(text.len() as int) =~= with_char_replaced(
        text@,
        from,
        to,
    ));
    out
}

/// Appends all of `tail` to `head`.
pub fn append_chars(head: &mut Vec<char>, tail: &Vec<char>)
    ensures
        final(head)@ == old(head)@ + tail@,
{
    let mut i: usize = 0;
    assert(head@ =~= old(head)@ + tail@.take(0));
    while i < tail.len()
        invariant
            i <= tail.len(),
            head@ == old(head)@ + tail@.take(i as int),
        decreases tail.len() - i,
    {
        head.push(tail[i]);
        assert((old(head)@ + tail@.take(i as int)).push(tail@[i as int]) =~= old(head)@
            + tail@.take(i + 1));
        i += 1;
    }
    assert(tail@.take(tail.len() as int) =~= tail@);
}

/// The character that writes the digit `d`.
pub open spec fn digit(d: nat) -> char {
    if d == 0 {
        '0'
    } else if d == 1 {
        '1'
    } else if d == 2 {
        '2'
    } else if d == 3 {
        '3'
    } else if d == 4 {
        '4'
    } else if d == 5 {
        '5'
    } else if d == 6 {
        '6'
    } else if d == 7 {
        '7'
    } else if d == 8 {
        '8'
    } else {
        '9'
    }
}

/// The digit that a character writes, for the ten digit characters.
pub open spec fn digit_value(c: char) -> nat {
    if c == '0' {
        0
    } else if c == '1' {
        1
    } else if c == '2' {
        2
    } else if c == '3' {
        3
    } else if c == '4' {
        4
    } else if c == '5' {
        5
    } else if c == '6' {
        6
    } else if c == '7' {
        7
    } else if c == '8' {
        8
    } else {
        9
    }
}

/// `n` written in base ten, without sign and without leading zeros.
pub open spec fn decimal(n: nat) -> Seq<char>
    decreases n,
{
    if n < 10 {
        seq![digit(n)]
    } else {
        decimal(n / 10).push(digit(n % 10))
    }
}

/// The number that a sequence of digit characters writes in base ten.
pub open spec fn decimal_value(digits: Seq<char>) -> nat
    decreases digits.len(),
{
    if digits.len() == 0 {
        0
    } else {
        decimal_value(digits.drop_last()) * 10 + digit_value(digits.last())
    }
}

/// Reading back what `decimal` wrote gives the number again.
pub proof fn decimal_reads_back(n: nat)
    ensures
        decimal_value(decimal(n)) == n,
        decimal(n).len() >= 1,
    decreases n,
{
    if n < 10 {
        assert(decimal(n).drop_last() =~= Seq::<char>::empty());
        assert(decimal_value(decimal(n).drop_last()) == 0);
    } else {
        decimal_reads_back(n / 10);
        assert(decimal(n).drop_last() =~= decimal(n / 10));
    }
}

/// The character of one digit.
pub fn digit_char(d: u8) -> (c: char)
    requires
        d < 10,
    ensures
        c == digit(d as nat),
{
    if d == 0 {
        '0'
    } else if d == 1 {
        '1'
    } else if d == 2 {
        '2'
    } else if d == 3 {
        '3'
    } else if d == 4 {
        '4'
    } else if d == 5 {
        '5'
    } else if d == 6 {
        '6'
    } else if d == 7 {
        '7'
    } else if d == 8 {
        '8'
    } else {
        '9'
    }
}

/// Writes `n` in base ten.
pub fn decimal_chars(n: u128) -> (digits: Vec<char>)
    ensures
        digits@ == decimal(n as nat),
    decreases n,
{
    if n < 10 {
        let mut digits: Vec<char> = Vec::new();
        digits.push(digit_char(n as u8));
        assert(digits@ =~= seq![digit(n as nat)]);
        digits
    } else {
        let mut digits = decimal_chars(n / 10);
        digits.push(digit_char((n % 10) as u8));
        digits
    }
}

/// `count` copies of `fill`.
pub open spec fn filler(count: nat, fill: char) -> Seq<char> {
    Seq::new(count, |i: int| fill)
}

/// `text` followed by as many `fill` as bring it to `width` characters; a
/// text that is already that long is left alone.
pub open spec fn padded_right(text: Seq<char>, width: nat, fill: char) -> Seq<char> {
    if text.len() >= width {
        text
    } else {
        text + filler((width - text.len()) as nat, fill)
    }
}

/// `text` between `fill` characters that bring it to `width` characters. An
/// odd character goes to the right; a text that is already that long is left
/// alone.
pub open spec fn padded_center(text: Seq<char>, width: nat, fill: char) -> Seq<char> {
    if text.len() >= width {
        text
    } else {
        let missing = (width - text.len()) as nat;
        filler(missing / 2, fill) + text + filler((missing - missing / 2) as nat, fill)
    }
}

/// Appends `count` copies of `fill`.
pub fn push_filler(out: &mut Vec<char>, count: usize, fill: char)
    ensures
        final(out)@ == old(out)@ + filler(count as nat, fill),
{
    let mut i: usize = 0;
    assert(out@ =~= old(out)@ + filler(0, fill));
    while i < count
        invariant
            i <= count,
            out@ == old(out)@ + filler(i as nat, fill),
        decreases count - i,
    {
        out.push(fill);
        assert((old(out)@ + filler(i as nat, fill)).push(fill) =~= old(out)@ + filler(
            (i + 1) as nat,
            fill,
        ));
        i += 1;
    }
}

/// Pads on the right up to `width` characters.
pub fn pad_right(text: &Vec<char>, width: usize, fill: char) -> (out: Vec<char>)
    ensures
        out@ == padded_right(text@, width as nat, fill),
{
    let mut out: Vec<char> = Vec::new();
    append_chars(&mut out, text);
    assert(out@ =~= text@);
    if text.len() < width {
        push_filler(&mut out, width - text.len(), fill);
    }
    out
}

/// Centres within `width` characters.
pub fn pad_center(text: &Vec<char>, width: usize, fill: char) -> (out: Vec<char>)
    ensures
        out@ == padded_center(text@, width as nat, fill),
{
    let mut out: Vec<char> = Vec::new();
    if text.len() < width {
        let missing = width - text.len();
        push_filler(&mut out, missing / 2, fill);
        append_chars(&mut out, text);
        push_filler(&mut out, missing - missing / 2, fill);
        assert(out@ =~= filler((missing / 2) as nat, fill) + text@ + filler(
            (missing - missing / 2) as nat,
            fill,
        ));
    } else {
        append_chars(&mut out, text);
        assert(out@ =~= text@);
    }
    out
}

} // verus!
