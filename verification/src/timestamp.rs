//! The elapsed-time prefix put in front of the lint's messages.
use vstd::prelude::*;

verus! {

/// The decimal digit `d`.
pub open spec fn digit_char(d: nat) -> char {
    "0123456789"@[d as int]
}

/// The decimal notation of `n`, without leading zeros.
pub open spec fn decimal(n: nat) -> Seq<char>
    decreases n,
{
    if n < 10 {
        seq![digit_char(n)]
    } else {
        decimal(n / 10) + seq![digit_char(n % 10)]
    }
}

/// The number a decimal digit character stands for.
pub open spec fn digit_value(c: char) -> int {
    c as int - '0' as int
}

/// The number that a text of decimal digits stands for.
pub open spec fn digits_value(s: Seq<char>) -> int
    decreases s.len(),
{
    if s.len() == 0 {
        0
    } else {
        digits_value(s.drop_last()) * 10 + digit_value(s.last())
    }
}

/// Reading the decimal notation of `n` back gives `n`.
pub proof fn law_decimal_reads_back(n: nat)
    ensures
        digits_value(decimal(n)) == n,
    decreases n,
{
    reveal_strlit("0123456789");
    let d = n % 10;
    assert(digit_value(digit_char(d)) == d) by {
        assert("0123456789"@ =~= seq!['0', '1', '2', '3', '4', '5', '6', '7', '8', '9']);
    }
    let s = decimal(n);
    if n < 10 {
        assert(s.drop_last() =~= Seq::<char>::empty());
        assert(digits_value(s.drop_last()) == 0);
        assert(s.last() == digit_char(n));
        assert(d == n);
    } else {
        law_decimal_reads_back(n / 10);
        assert(s.drop_last() =~= decimal(n / 10));
        assert(s.last() == digit_char(d));
        assert((n / 10) * 10 + n % 10 == n);
    }
    assert(digits_value(s) == digits_value(s.drop_last()) * 10 + digit_value(s.last()));
}

/// `s` preceded by as many `fill` characters as it takes to make it `width`
/// long; `s` itself when it is that long already.
pub open spec fn pad_left(s: Seq<char>, width: nat, fill: char) -> Seq<char> {
    if s.len() >= width {
        s
    } else {
        Seq::new((width - s.len()) as nat, |i: int| fill) + s
    }
}

/// `[`, the seconds right-aligned in six places, `.`, the milliseconds
/// zero-padded to three places, and `s]`.
pub open spec fn timestamp_text(secs: nat, millis: nat) -> Seq<char> {
    seq!['['] + pad_left(decimal(secs), 6, ' ') + seq!['.'] + pad_left(decimal(millis), 3, '0')
        + seq!['s', ']']
}

/// Appends the decimal notation of `n`.
fn append_decimal(out: &mut String, n: u64)
    ensures
        final(out)@ == old(out)@ + decimal(n as nat),
    decreases n,
{
    proof {
        reveal_strlit("0123456789");
    }
    if n >= 10 {
        append_decimal(out, n / 10);
    }
    let d = (n % 10) as usize;
    let digit = "0123456789".substring_char(d, d + 1);
    assert(digit@ =~= seq![digit_char((n % 10) as nat)]);
    out.append(digit);
}

/// Appends `text` preceded by `fill` up to `width` characters.
fn append_padded(out: &mut String, text: &str, width: usize, fill: &str)
    requires
        fill@.len() == 1,
    ensures
        final(out)@ == old(out)@ + pad_left(text@, width as nat, fill@[0]),
{
    let len = text.unicode_len();
    let ghost start = out@;
    if len < width {
        let pad = width - len;
        for i in 0..pad
            invariant
                fill@.len() == 1,
                out@ == start + Seq::new(i as nat, |k: int| fill@[0]),
        {
            out.append(fill);
            assert(out@ =~= start + Seq::new((i + 1) as nat, |k: int| fill@[0]));
        }
    }
    out.append(text);
    assert(out@ =~= start + pad_left(text@, width as nat, fill@[0]));
}

/// The prefix of a message issued `elapsed_secs` seconds and `subsec_millis`
/// milliseconds after the lint started.
pub fn timestamp_prefix(elapsed_secs: u64, subsec_millis: u32) -> (r: String)
    ensures
        r@ == timestamp_text(elapsed_secs as nat, subsec_millis as nat),
{
    proof {
        reveal_strlit("[");
        reveal_strlit(" ");
        reveal_strlit(".");
        reveal_strlit("0");
        reveal_strlit("s]");
    }
    let mut secs = String::new();
    append_decimal(&mut secs, elapsed_secs);
    let mut millis = String::new();
    append_decimal(&mut millis, subsec_millis as u64);
    let mut out = String::from_str("[");
    append_padded(&mut out, secs.as_str(), 6, " ");
    out.append(".");
    append_padded(&mut out, millis.as_str(), 3, "0");
    out.append("s]");
    assert(out@ =~= timestamp_text(elapsed_secs as nat, subsec_millis as nat));
    out
}

} // verus!
