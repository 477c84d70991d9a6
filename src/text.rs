//! Decimal and hexadecimal text, as the wire formats write numbers and bytes.
use vstd::prelude::*;

verus! {

/// The sixteen lowercase hexadecimal digits; the first ten are the decimal digits.
pub open spec fn digit_alphabet() -> Seq<char> {
    seq!['0', '1', '2', '3', '4', '5', '6', '7', '8', '9', 'a', 'b', 'c', 'd', 'e', 'f']
}

/// The character of digit `d` (`d < 16`).
pub open spec fn digit_char(d: nat) -> char {
    digit_alphabet()[d as int]
}

pub open spec fn is_decimal_digit(c: char) -> bool {
    '0' <= c && c <= '9'
}

pub open spec fn digit_value(c: char) -> nat {
    (c as u32 - '0' as u32) as nat
}

/// All characters are decimal digits.
pub open spec fn all_decimal_digits(s: Seq<char>) -> bool {
    forall|i: int| 0 <= i < s.len() ==> is_decimal_digit(#[trigger] s[i])
}

/// The number that a string of decimal digits denotes.
pub open spec fn decimal_value(s: Seq<char>) -> nat
    decreases s.len(),
{
    if s.len() == 0 {
        0
    } else {
        decimal_value(s.drop_last()) * 10 + digit_value(s.last())
    }
}

/// The shortest decimal text of `n`.
pub open spec fn decimal_text(n: nat) -> Seq<char>
    decreases n,
{
    if n < 10 {
        seq![digit_char(n)]
    } else {
        decimal_text(n / 10).push(digit_char(n % 10))
    }
}

/// Two lowercase hexadecimal digits per byte, most significant first, no prefix.
pub open spec fn hex_text(b: Seq<u8>) -> Seq<char>
    decreases b.len(),
{
    if b.len() == 0 {
        seq![]
    } else {
        hex_text(b.drop_last()) + seq![
            digit_char((b.last() / 16) as nat),
            digit_char((b.last() % 16) as nat),
        ]
    }
}

/// Hexadecimal text has two digits per byte.
pub proof fn lemma_hex_text_len(b: Seq<u8>)
    ensures
        hex_text(b).len() == 2 * b.len(),
    decreases b.len(),
{
    if b.len() > 0 {
        lemma_hex_text_len(b.drop_last());
    }
}

/// The digits that an unsigned integer's text holds once an optional leading `+`
/// is set aside, as `str::parse::<u64>` reads it.
pub open spec fn unsigned_digits(s: Seq<char>) -> Seq<char> {
    if s.len() > 0 && s[0] == '+' {
        s.drop_first()
    } else {
        s
    }
}

/// `s` is the text of an unsigned integer that fits in 64 bits.
pub open spec fn parses_as_u64(s: Seq<char>) -> bool {
    let d = unsigned_digits(s);
    d.len() > 0 && all_decimal_digits(d) && decimal_value(d) <= u64::MAX
}

/// The value of a text for which `parses_as_u64` holds.
pub open spec fn u64_of_text(s: Seq<char>) -> nat {
    decimal_value(unsigned_digits(s))
}

fn digit_str(d: u64) -> (r: &'static str)
    requires
        d < 10,
    ensures
        r@ == seq![digit_char(d as nat)],
{
    proof {
        reveal_strlit("0");
        reveal_strlit("1");
        reveal_strlit("2");
        reveal_strlit("3");
        reveal_strlit("4");
        reveal_strlit("5");
        reveal_strlit("6");
        reveal_strlit("7");
        reveal_strlit("8");
        reveal_strlit("9");
    }
    let r = if d == 0 {
        "0"
    } else if d == 1 {
        "1"
    } else if d == 2 {
        "2"
    } else if d == 3 {
        "3"
    } else if d == 4 {
        "4"
    } else if d == 5 {
        "5"
    } else if d == 6 {
        "6"
    } else if d == 7 {
        "7"
    } else if d == 8 {
        "8"
    } else {
        "9"
    };
    assert(r@ =~= seq![digit_char(d as nat)]);
    r
}

/// Appends the decimal text of `n` to `out`.
pub fn push_decimal(out: &mut String, n: u64)
    ensures
        final(out)@ == old(out)@ + decimal_text(n as nat),
    decreases n,
{
    if n >= 10 {
        push_decimal(out, n / 10);
    }
    out.append(digit_str(n % 10));
    assert(final(out)@ =~= old(out)@ + decimal_text(n as nat));
}

/// The decimal text of `n`, as `u64::to_string` writes it.
pub fn format_u64(n: u64) -> (r: String)
    ensures
        r@ == decimal_text(n as nat),
{
    let mut r = String::new();
    push_decimal(&mut r, n);
    assert(r@ =~= decimal_text(n as nat));
    r
}

proof fn lemma_decimal_value_prefix(s: Seq<char>, k: int)
    requires
        0 <= k <= s.len(),
    ensures
        decimal_value(s.subrange(0, k)) <= decimal_value(s),
    decreases s.len(),
{
    if k < s.len() {
        assert(s.drop_last().subrange(0, k) =~= s.subrange(0, k));
        lemma_decimal_value_prefix(s.drop_last(), k);
    } else {
        assert(s.subrange(0, k) =~= s);
    }
}

/// Reads an unsigned 64-bit integer in decimal, with an optional leading `+`,
/// as `str::parse::<u64>` does; `None` for any other text or a value that does
/// not fit.
pub fn parse_u64(s: &str) -> (r: Option<u64>)
    ensures
        r is Some <==> parses_as_u64(s@),
        r matches Some(v) ==> v as nat == u64_of_text(s@),
{
    let len = s.unicode_len();
    let mut start: usize = 0;
    if len > 0 && s.get_char(0) == '+' {
        start = 1;
    }
    let ghost d = unsigned_digits(s@);
    assert(d =~= s@.subrange(start as int, len as int));
    if start == len {
        return None;
    }
    let mut acc: u64 = 0;
    let mut i: usize = start;
    while i < len
        invariant
            start <= i <= len,
            len == s@.len(),
            d == s@.subrange(start as int, len as int),
            d == unsigned_digits(s@),
            all_decimal_digits(s@.subrange(start as int, i as int)),
            acc as nat == decimal_value(s@.subrange(start as int, i as int)),
        decreases len - i,
    {
        let c = s.get_char(i);
        if !('0' <= c && c <= '9') {
            assert(d[(i - start) as int] == c);
            assert(!is_decimal_digit(d[(i - start) as int]));
            return None;
        }
        let v = (c as u32 - '0' as u32) as u64;
        let ghost next = s@.subrange(start as int, i + 1);
        assert(next.drop_last() =~= s@.subrange(start as int, i as int));
        assert(next.last() == c);
        assert(decimal_value(next) == acc * 10 + v);
        if acc > (u64::MAX - v) / 10 {
            assert(decimal_value(next) > u64::MAX) by (nonlinear_arith)
                requires
                    decimal_value(next) == acc * 10 + v,
                    acc > (u64::MAX - v) / 10,
                    v <= 9,
            ;
            assert(next =~= d.subrange(0, (i + 1 - start) as int));
            proof { lemma_decimal_value_prefix(d, (i + 1 - start) as int); }
            assert(decimal_value(d) > u64::MAX);
            return None;
        }
        assert(acc * 10 + v <= u64::MAX) by (nonlinear_arith)
            requires
                acc <= (u64::MAX - v) / 10,
                v <= 9,
        ;
        acc = acc * 10 + v;
        i = i + 1;
        assert(all_decimal_digits(next));
    }
    Some(acc)
}

proof fn lemma_digit_char(d: nat)
    requires
        d < 10,
    ensures
        is_decimal_digit(digit_char(d)),
        digit_value(digit_char(d)) == d,
        digit_char(d) != '+',
{
    assert(digit_alphabet()[0] == '0');
    assert(digit_alphabet()[1] == '1');
    assert(digit_alphabet()[2] == '2');
    assert(digit_alphabet()[3] == '3');
    assert(digit_alphabet()[4] == '4');
    assert(digit_alphabet()[5] == '5');
    assert(digit_alphabet()[6] == '6');
    assert(digit_alphabet()[7] == '7');
    assert(digit_alphabet()[8] == '8');
    assert(digit_alphabet()[9] == '9');
}

proof fn lemma_digit_of_char(c: char)
    requires
        is_decimal_digit(c),
    ensures
        digit_value(c) < 10,
        digit_char(digit_value(c)) == c,
{
    lemma_digit_char(digit_value(c));
    assert(c as u32 == '0' as u32 + digit_value(c));
}

proof fn lemma_decimal_text_reads_back(n: nat)
    ensures
        decimal_text(n).len() > 0,
        all_decimal_digits(decimal_text(n)),
        decimal_value(decimal_text(n)) == n,
        decimal_text(n)[0] != '+',
        n > 0 ==> decimal_text(n)[0] != '0',
    decreases n,
{
    if n < 10 {
        lemma_digit_char(n);
        assert(decimal_text(n).drop_last() =~= seq![]);
        assert(decimal_value(decimal_text(n).drop_last()) == 0);
        if n > 0 {
            assert(digit_char(n) != '0');
        }
    } else {
        lemma_decimal_text_reads_back(n / 10);
        lemma_digit_char(n % 10);
        let t = decimal_text(n);
        let h = decimal_text(n / 10);
        assert(t.drop_last() =~= h);
        assert(t[0] == h[0]);
        assert(t.last() == digit_char(n % 10));
        assert(decimal_value(t) == (n / 10) * 10 + n % 10);
        assert((n / 10) * 10 + n % 10 == n) by (nonlinear_arith);
        assert forall|i: int| 0 <= i < t.len() implies is_decimal_digit(#[trigger] t[i]) by {
            if i < t.len() - 1 {
                assert(t[i] == h[i]);
            }
        }
    }
}

/// A string of decimal digits that is `0` or has no leading zero.
pub open spec fn is_canonical_decimal(s: Seq<char>) -> bool {
    &&& s.len() > 0
    &&& all_decimal_digits(s)
    &&& (s.len() > 1 ==> s[0] != '0')
}

proof fn lemma_leading_nonzero_positive(s: Seq<char>)
    requires
        s.len() > 0,
        all_decimal_digits(s),
        s[0] != '0',
    ensures
        decimal_value(s) > 0,
    decreases s.len(),
{
    let p = s.drop_last();
    if s.len() == 1 {
        assert(p =~= seq![]);
        assert(decimal_value(p) == 0);
        lemma_digit_of_char(s[0]);
        if digit_value(s[0]) == 0 {
            lemma_digit_char(0);
        }
    } else {
        assert(p[0] == s[0]);
        assert forall|i: int| 0 <= i < p.len() implies is_decimal_digit(#[trigger] p[i]) by {
            assert(p[i] == s[i]);
        }
        lemma_leading_nonzero_positive(p);
        assert(decimal_value(s) >= decimal_value(p)) by (nonlinear_arith)
            requires
                decimal_value(s) == decimal_value(p) * 10 + digit_value(s.last()),
        ;
    }
}

proof fn lemma_canonical_text_round_trip(s: Seq<char>)
    requires
        is_canonical_decimal(s),
    ensures
        decimal_text(decimal_value(s)) == s,
    decreases s.len(),
{
    let p = s.drop_last();
    assert(s.len() > 1 ==> p[0] == s[0]);
    assert forall|i: int| 0 <= i < p.len() implies is_decimal_digit(#[trigger] p[i]) by {
        assert(p[i] == s[i]);
    }
    lemma_digit_of_char(s.last());
    if s.len() == 1 {
        assert(p =~= seq![]);
        assert(decimal_value(p) == 0);
        assert(decimal_value(s) == digit_value(s[0]));
        assert(decimal_text(decimal_value(s)) =~= s);
    } else {
        assert(is_canonical_decimal(p));
        lemma_leading_nonzero_positive(p);
        lemma_canonical_text_round_trip(p);
        let v = decimal_value(s);
        assert(v / 10 == decimal_value(p) && v % 10 == digit_value(s.last()));
        assert(decimal_text(v) =~= s);
    }
}

/// Writing a slot as decimal text and reading that text back gives the slot;
/// and a canonical decimal text that reads as a slot is written back as itself.
pub proof fn lemma_slot_text_round_trip(n: u64, s: Seq<char>)
    ensures
        parses_as_u64(decimal_text(n as nat)),
        u64_of_text(decimal_text(n as nat)) == n,
        is_canonical_decimal(s) && parses_as_u64(s) ==> decimal_text(u64_of_text(s)) == s,
{
    lemma_decimal_text_reads_back(n as nat);
    if is_canonical_decimal(s) {
        lemma_digit_of_char(s[0]);
        lemma_digit_char(digit_value(s[0]));
        assert(unsigned_digits(s) == s);
        lemma_canonical_text_round_trip(s);
    }
}

} // verus!
