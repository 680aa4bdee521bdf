use vstd::prelude::*;
use vstd::utf8::is_char_boundary;
use vstd::utf8::encode_utf8;
use vstd::string::StringSliceAdditionalSpecFns;

verus! {

/// The largest character boundary of `bytes` that is at most `max`.
pub open spec fn last_boundary_at_most(bytes: Seq<u8>, max: int) -> int
    decreases max,
{
    if max <= 0 {
        0
    } else if is_char_boundary(bytes, max) {
        max
    } else {
        last_boundary_at_most(bytes, max - 1)
    }
}

proof fn lemma_last_boundary_bounds(bytes: Seq<u8>, max: int)
    ensures
        0 <= last_boundary_at_most(bytes, max),
        max >= 0 ==> last_boundary_at_most(bytes, max) <= max,
    decreases max,
{
    if max > 0 && !is_char_boundary(bytes, max) {
        lemma_last_boundary_bounds(bytes, max - 1);
    }
}

/// Splits `s` at its last character boundary at or below byte `max`.
pub fn split_at_boundary(s: &str, max: usize) -> (r: (&str, &str))
    requires
        max <= s.spec_bytes().len(),
    ensures
        r.0.spec_bytes() == s.spec_bytes().subrange(0, last_boundary_at_most(s.spec_bytes(), max as int)),
        r.1.spec_bytes() == s.spec_bytes().subrange(
            last_boundary_at_most(s.spec_bytes(), max as int),
            s.spec_bytes().len() as int,
        ),
        r.0@ + r.1@ == s@,
{
    let mut cut: usize = max;
    while cut > 0 && !s.is_char_boundary(cut)
        invariant
            cut <= max <= s.spec_bytes().len(),
            last_boundary_at_most(s.spec_bytes(), cut as int) == last_boundary_at_most(s.spec_bytes(), max as int),
        decreases cut,
    {
        cut = cut - 1;
    }
    proof {
        vstd::utf8::encode_utf8_valid_utf8(s@);
        lemma_last_boundary_bounds(s.spec_bytes(), max as int);
        if cut > 0 {
            assert(last_boundary_at_most(s.spec_bytes(), cut as int) == cut);
        } else {
            assert(is_char_boundary(s.spec_bytes(), 0));
        }
    }
    let (head, tail) = s.split_at(cut);
    proof {
        let b = s.spec_bytes();
        vstd::utf8::encode_utf8_decode_utf8(s@);
        vstd::utf8::encode_utf8_decode_utf8(head@);
        vstd::utf8::encode_utf8_decode_utf8(tail@);
        vstd::utf8::decode_utf8_split(b, cut as int);
    }
    (head, tail)
}

/// Cuts `s` to at most `max_bytes` bytes without splitting a character.
pub fn truncate_safe(s: &str, max_bytes: usize) -> (r: &str)
    ensures
        s.spec_bytes().len() <= max_bytes ==> r@ == s@,
        s.spec_bytes().len() > max_bytes ==> r.spec_bytes() == s.spec_bytes().subrange(
            0,
            last_boundary_at_most(s.spec_bytes(), max_bytes as int),
        ),
{
    if s.as_bytes().len() <= max_bytes {
        return s;
    }
    let (head, _) = split_at_boundary(s, max_bytes);
    head
}

/// The decimal digit for `d` (taken modulo ten).
pub open spec fn digit_char(d: nat) -> char {
    let d = d % 10;
    if d == 0 { '0' } else if d == 1 { '1' } else if d == 2 { '2' } else if d == 3 { '3' }
    else if d == 4 { '4' } else if d == 5 { '5' } else if d == 6 { '6' } else if d == 7 { '7' }
    else if d == 8 { '8' } else { '9' }
}

/// `n` written in decimal, without leading zeros.
pub open spec fn decimal(n: nat) -> Seq<char>
    decreases n,
{
    if n < 10 {
        seq![digit_char(n)]
    } else {
        decimal(n / 10).push(digit_char(n % 10))
    }
}

/// A duration of `millis` milliseconds as seconds with three decimals.
pub open spec fn seconds_text(millis: nat) -> Seq<char> {
    let fraction = millis % 1000;
    decimal(millis / 1000) + seq!['.', digit_char(fraction / 100), digit_char(fraction / 10 % 10), digit_char(fraction % 10)]
}

fn digit_text(d: u64) -> (r: String)
    requires
        d < 10,
    ensures
        r@ == seq![digit_char(d as nat)],
{
    let t = if d == 0 {
        proof { reveal_strlit("0"); }
        "0"
    } else if d == 1 {
        proof { reveal_strlit("1"); }
        "1"
    } else if d == 2 {
        proof { reveal_strlit("2"); }
        "2"
    } else if d == 3 {
        proof { reveal_strlit("3"); }
        "3"
    } else if d == 4 {
        proof { reveal_strlit("4"); }
        "4"
    } else if d == 5 {
        proof { reveal_strlit("5"); }
        "5"
    } else if d == 6 {
        proof { reveal_strlit("6"); }
        "6"
    } else if d == 7 {
        proof { reveal_strlit("7"); }
        "7"
    } else if d == 8 {
        proof { reveal_strlit("8"); }
        "8"
    } else {
        proof { reveal_strlit("9"); }
        "9"
    };
    let r = t.to_owned();
    assert(r@ =~= seq![digit_char(d as nat)]);
    r
}

/// `n` written in decimal.
pub fn decimal_text(n: u64) -> (r: String)
    ensures
        r@ == decimal(n as nat),
    decreases n,
{
    if n < 10 {
        digit_text(n)
    } else {
        let head = decimal_text(n / 10);
        let last = digit_text(n % 10);
        let r = head.concat(last.as_str());
        assert(r@ =~= decimal(n as nat));
        r
    }
}

/// How long a tool ran, as seconds with three decimals (`S.mmm`).
pub fn elapsed_text(millis: u64) -> (r: String)
    ensures
        r@ == seconds_text(millis as nat),
{
    let fraction = millis % 1000;
    let hundreds = digit_text(fraction / 100);
    let tens = digit_text(fraction / 10 % 10);
    let units = digit_text(fraction % 10);
    let whole = decimal_text(millis / 1000);
    let r = whole.concat(".").concat(hundreds.as_str()).concat(tens.as_str()).concat(units.as_str());
    proof {
        reveal_strlit(".");
        assert(r@ =~= seconds_text(millis as nat));
    }
    r
}

} // verus!
