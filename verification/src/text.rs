//! Text building blocks shared by the other modules: numbers written out in
//! hexadecimal and decimal notation, and names framed by a fixed prefix and
//! suffix.
//!
//! Every text is modelled by its sequence of characters.

use vstd::prelude::*;

verus! {

/// `String::push` appends exactly the given character to the end of the text.
pub assume_specification[ String::push ](s: &mut String, c: char)
    ensures
        final(s)@ == old(s)@.push(c),
;

/// The digits of positional notation up to radix sixteen, in lowercase.
pub open spec fn digit_chars() -> Seq<char> {
    seq!['0', '1', '2', '3', '4', '5', '6', '7', '8', '9', 'a', 'b', 'c', 'd', 'e', 'f']
}

/// The character that stands for the digit value `d`.
pub open spec fn digit_char(d: nat) -> char
    recommends
        d < 16,
{
    digit_chars()[d as int]
}

/// The hexadecimal digits of `n`, most significant first, without leading zeros.
pub open spec fn hex_digits_of(n: nat) -> Seq<char>
    decreases n,
{
    if n < 16 {
        seq![digit_char(n)]
    } else {
        hex_digits_of(n / 16).push(digit_char(n % 16))
    }
}

/// The decimal digits of `n`, most significant first, without leading zeros.
pub open spec fn decimal_digits_of(n: nat) -> Seq<char>
    decreases n,
{
    if n < 10 {
        seq![digit_char(n)]
    } else {
        decimal_digits_of(n / 10).push(digit_char(n % 10))
    }
}

/// The last `width` decimal digits of `n`, padded with leading zeros.
pub open spec fn padded_decimal_of(n: nat, width: nat) -> Seq<char>
    decreases width,
{
    if width == 0 {
        Seq::empty()
    } else {
        padded_decimal_of(n / 10, (width - 1) as nat).push(digit_char(n % 10))
    }
}

/// An address as text: the radix prefix `0x`, then lowercase hexadecimal digits.
pub open spec fn hex_text(n: u64) -> Seq<char> {
    seq!['0', 'x'] + hex_digits_of(n as nat)
}

/// Whether `name` is at least as long as `prefix` and `suffix` together,
/// begins with `prefix` and ends with `suffix`.
pub open spec fn is_framed(name: Seq<char>, prefix: Seq<char>, suffix: Seq<char>) -> bool {
    &&& name.len() >= prefix.len() + suffix.len()
    &&& name.subrange(0, prefix.len() as int) == prefix
    &&& name.subrange(name.len() - suffix.len(), name.len() as int) == suffix
}

/// What is left of a framed `name` once `prefix` and `suffix` are taken away.
pub open spec fn framed_part(name: Seq<char>, prefix: Seq<char>, suffix: Seq<char>) -> Seq<char>
    recommends
        is_framed(name, prefix, suffix),
{
    name.subrange(prefix.len() as int, name.len() - suffix.len())
}

/// Framing a text and taking the frame away again gives the text back.
pub proof fn lemma_frame_round_trip(prefix: Seq<char>, inner: Seq<char>, suffix: Seq<char>)
    ensures
        is_framed(prefix + inner + suffix, prefix, suffix),
        framed_part(prefix + inner + suffix, prefix, suffix) == inner,
{
    let name = prefix + inner + suffix;
    assert(name.subrange(0, prefix.len() as int) =~= prefix);
    assert(name.subrange(name.len() - suffix.len(), name.len() as int) =~= suffix);
}

/// A framed name is its prefix, its inner part and its suffix put together.
pub proof fn lemma_framed_name_splits(name: Seq<char>, prefix: Seq<char>, suffix: Seq<char>)
    requires
        is_framed(name, prefix, suffix),
    ensures
        name == prefix + framed_part(name, prefix, suffix) + suffix,
{
}

fn digit(d: u8) -> (c: char)
    requires
        d < 16,
    ensures
        c == digit_char(d as nat),
{
    if d == 0 {
        '0'
    } else if d == 1 {
        '1'
    } else if d == 2 {
        '2'
    } else if d == 3 {
        '3'
    } else if d == 4 {
        '4'
    } else if d == 5 {
        '5'
    } else if d == 6 {
        '6'
    } else if d == 7 {
        '7'
    } else if d == 8 {
        '8'
    } else if d == 9 {
        '9'
    } else if d == 10 {
        'a'
    } else if d == 11 {
        'b'
    } else if d == 12 {
        'c'
    } else if d == 13 {
        'd'
    } else if d == 14 {
        'e'
    } else {
        'f'
    }
}

proof fn lemma_reverse_push(s: Seq<char>, c: char)
    ensures
        s.push(c).reverse() == seq![c] + s.reverse(),
{
}

/// Appends the characters of `pending` to `out`, last one first.
fn push_reversed(out: &mut String, pending: &Vec<char>)
    ensures
        final(out)@ == old(out)@ + pending@.reverse(),
{
    let ghost before = out@;
    let mut left: usize = pending.len();
    while left > 0
        invariant
            left <= pending.len(),
            out@ == before + pending@.reverse().subrange(0, pending.len() - left),
        decreases left,
    {
        left = left - 1;
        out.push(pending[left]);
    }
}

/// Appends the hexadecimal digits of `n` to `out`.
pub fn push_hex(out: &mut String, n: u64)
    ensures
        final(out)@ == old(out)@ + hex_digits_of(n as nat),
{
    let mut pending: Vec<char> = Vec::new();
    let mut rest: u64 = n;
    while rest >= 16
        invariant
            hex_digits_of(n as nat) == hex_digits_of(rest as nat) + pending@.reverse(),
        decreases rest,
    {
        let c = digit((rest % 16) as u8);
        proof {
            lemma_reverse_push(pending@, c);
        }
        pending.push(c);
        rest = rest / 16;
    }
    let c = digit(rest as u8);
    proof {
        lemma_reverse_push(pending@, c);
    }
    pending.push(c);
    push_reversed(out, &pending);
}

/// Appends the decimal digits of `n` to `out`.
pub fn push_decimal(out: &mut String, n: u128)
    ensures
        final(out)@ == old(out)@ + decimal_digits_of(n as nat),
{
    let mut pending: Vec<char> = Vec::new();
    let mut rest: u128 = n;
    while rest >= 10
        invariant
            decimal_digits_of(n as nat) == decimal_digits_of(rest as nat) + pending@.reverse(),
        decreases rest,
    {
        let c = digit((rest % 10) as u8);
        proof {
            lemma_reverse_push(pending@, c);
        }
        pending.push(c);
        rest = rest / 10;
    }
    let c = digit(rest as u8);
    proof {
        lemma_reverse_push(pending@, c);
    }
    pending.push(c);
    push_reversed(out, &pending);
}

/// Appends the last `width` decimal digits of `n` to `out`, padded with zeros.
pub fn push_padded_decimal(out: &mut String, n: u128, width: usize)
    ensures
        final(out)@ == old(out)@ + padded_decimal_of(n as nat, width as nat),
{
    let mut pending: Vec<char> = Vec::new();
    let mut rest: u128 = n;
    let mut done: usize = 0;
    while done < width
        invariant
            done <= width,
            padded_decimal_of(n as nat, width as nat) == padded_decimal_of(
                rest as nat,
                (width - done) as nat,
            ) + pending@.reverse(),
        decreases width - done,
    {
        let c = digit((rest % 10) as u8);
        proof {
            lemma_reverse_push(pending@, c);
        }
        pending.push(c);
        rest = rest / 10;
        done = done + 1;
    }
    push_reversed(out, &pending);
}

/// Writes an address as `0x` followed by its lowercase hexadecimal digits.
pub fn format_hex(n: u64) -> (text: String)
    ensures
        text@ == hex_text(n),
{
    let mut text = String::new();
    text.push('0');
    text.push('x');
    push_hex(&mut text, n);
    text
}

/// Puts three texts together.
pub fn concat3(first: &str, second: &str, third: &str) -> (text: String)
    ensures
        text@ == first@ + second@ + third@,
{
    let mut text = String::from_str(first);
    text.append(second);
    text.append(third);
    text
}

/// Whether `text` holds `pattern` at the character offset `at`.
fn holds_at(text: &str, at: usize, pattern: &str) -> (found: bool)
    requires
        at + pattern@.len() <= text@.len(),
    ensures
        found <==> text@.subrange(at as int, at + pattern@.len()) == pattern@,
{
    let total = text.unicode_len();
    let count = pattern.unicode_len();
    let mut i: usize = 0;
    while i < count
        invariant
            i <= count,
            count == pattern@.len(),
            total == text@.len(),
            at + count <= total,
            forall|k: int| 0 <= k < i ==> text@[at + k] == pattern@[k],
        decreases count - i,
    {
        if text.get_char(at + i) != pattern.get_char(i) {
            return false;
        }
        i = i + 1;
    }
    assert(text@.subrange(at as int, at + pattern@.len()) =~= pattern@);
    true
}

/// Takes `prefix` and `suffix` away from `name`, if it is framed by them.
pub fn strip_frame(name: &str, prefix: &str, suffix: &str) -> (inner: Option<String>)
    ensures
        inner.deep_view() == if is_framed(name@, prefix@, suffix@) {
            Some(framed_part(name@, prefix@, suffix@))
        } else {
            None
        },
{
    let total = name.unicode_len();
    let head = prefix.unicode_len();
    let tail = suffix.unicode_len();
    if total < head || total - head < tail {
        return None;
    }
    if !holds_at(name, 0, prefix) {
        return None;
    }
    if !holds_at(name, total - tail, suffix) {
        return None;
    }
    let inner = String::from_str(name.substring_char(head, total - tail));
    Some(inner)
}

} // verus!
