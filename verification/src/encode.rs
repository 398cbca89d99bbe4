//! Byte-level encodings that shape the access token.
//!
//! The token's audience is percent-encoded with the set URLs use for a path
//! segment — controls, non-ASCII, space, `"`, `#`, `<`, `>`, backtick, `?`,
//! `{`, `}`, `%` and `/` — extended with `=` so the audience cannot imitate
//! the token's own delimiters. The signature, expiry and key-name components
//! are encoded the way a query-string serializer encodes a pair's value:
//! alphanumerics and `*`, `-`, `.`, `_` pass through, a space becomes `+`,
//! every other byte becomes `%` and two uppercase hexadecimal digits.

use vstd::prelude::*;

verus! {

/// The uppercase hexadecimal digit for a value below 16.
pub open spec fn hex_digit(n: u8) -> u8
    recommends
        n < 16,
{
    if n < 10 {
        (48 + n) as u8
    } else {
        (55 + n) as u8
    }
}

/// Does the audience encode set escape byte `b`?
pub open spec fn audience_escaped(b: u8) -> bool {
    ||| b < 0x20
    ||| b > 0x7E
    ||| b == 32
    ||| b == 34
    ||| b == 35
    ||| b == 60
    ||| b == 62
    ||| b == 96
    ||| b == 63
    ||| b == 123
    ||| b == 125
    ||| b == 37
    ||| b == 47
    ||| b == 61
}

/// What one byte contributes to the percent-encoded audience.
pub open spec fn audience_encoded_byte(b: u8) -> Seq<u8> {
    if audience_escaped(b) {
        seq![37u8, hex_digit((b / 16) as u8), hex_digit((b % 16) as u8)]
    } else {
        seq![b]
    }
}

/// The percent-encoded audience, byte by byte.
pub open spec fn audience_encoded(bytes: Seq<u8>) -> Seq<u8>
    decreases bytes.len(),
{
    if bytes.len() == 0 {
        Seq::empty()
    } else {
        audience_encoded_byte(bytes[0]) + audience_encoded(bytes.drop_first())
    }
}

/// Does the query-pair encoding keep byte `b` as it is?
pub open spec fn form_unchanged(b: u8) -> bool {
    ||| b == 42
    ||| b == 45
    ||| b == 46
    ||| (48 <= b && b <= 57)
    ||| (65 <= b && b <= 90)
    ||| b == 95
    ||| (97 <= b && b <= 122)
}

/// What one byte contributes to a query-pair value.
pub open spec fn form_encoded_byte(b: u8) -> Seq<u8> {
    if form_unchanged(b) {
        seq![b]
    } else if b == 32 {
        seq![43u8]
    } else {
        seq![37u8, hex_digit((b / 16) as u8), hex_digit((b % 16) as u8)]
    }
}

/// The query-pair encoding of a byte string.
pub open spec fn form_encoded(bytes: Seq<u8>) -> Seq<u8>
    decreases bytes.len(),
{
    if bytes.len() == 0 {
        Seq::empty()
    } else {
        form_encoded_byte(bytes[0]) + form_encoded(bytes.drop_first())
    }
}

/// A byte the finished token may contain: one the audience set leaves alone,
/// or `%` from an escape, or the `=` of a delimiter.
pub open spec fn token_byte_allowed(b: u8) -> bool {
    !audience_escaped(b) || b == 37 || b == 61
}

proof fn lemma_audience_encoded_snoc(bytes: Seq<u8>, b: u8)
    ensures
        audience_encoded(bytes.push(b)) == audience_encoded(bytes) + audience_encoded_byte(b),
    decreases bytes.len(),
{
    if bytes.len() == 0 {
        let e = bytes.push(b).drop_first();
        assert(bytes.push(b)[0] == b);
        assert(e.len() == 0);
        assert(audience_encoded(e) == Seq::<u8>::empty());
        assert(audience_encoded(bytes.push(b)) == audience_encoded_byte(b) + Seq::<u8>::empty());
        assert(audience_encoded_byte(b) + Seq::<u8>::empty() =~= audience_encoded_byte(b));
        assert(audience_encoded(bytes) + audience_encoded_byte(b) =~= audience_encoded_byte(b));
    } else {
        assert(bytes.push(b)[0] == bytes[0]);
        assert(bytes.push(b).drop_first() =~= bytes.drop_first().push(b));
        lemma_audience_encoded_snoc(bytes.drop_first(), b);
        assert(audience_encoded(bytes) + audience_encoded_byte(b) =~= audience_encoded_byte(
            bytes[0],
        ) + (audience_encoded(bytes.drop_first()) + audience_encoded_byte(b)));
    }
}

proof fn lemma_form_encoded_snoc(bytes: Seq<u8>, b: u8)
    ensures
        form_encoded(bytes.push(b)) == form_encoded(bytes) + form_encoded_byte(b),
    decreases bytes.len(),
{
    if bytes.len() == 0 {
        let e = bytes.push(b).drop_first();
        assert(bytes.push(b)[0] == b);
        assert(e.len() == 0);
        assert(form_encoded(e) == Seq::<u8>::empty());
        assert(form_encoded(bytes.push(b)) == form_encoded_byte(b) + Seq::<u8>::empty());
        assert(form_encoded_byte(b) + Seq::<u8>::empty() =~= form_encoded_byte(b));
        assert(form_encoded(bytes) + form_encoded_byte(b) =~= form_encoded_byte(b));
    } else {
        assert(bytes.push(b)[0] == bytes[0]);
        assert(bytes.push(b).drop_first() =~= bytes.drop_first().push(b));
        lemma_form_encoded_snoc(bytes.drop_first(), b);
        assert(form_encoded(bytes) + form_encoded_byte(b) =~= form_encoded_byte(bytes[0]) + (
        form_encoded(bytes.drop_first()) + form_encoded_byte(b)));
    }
}

proof fn lemma_hex_digit_allowed(n: u8)
    requires
        n < 16,
    ensures
        !audience_escaped(hex_digit(n)),
        form_unchanged(hex_digit(n)),
{
}

/// Every byte the percent-encoded audience holds is one the token may hold.
pub proof fn lemma_audience_encoded_allowed(bytes: Seq<u8>)
    ensures
        forall|i: int|
            0 <= i < audience_encoded(bytes).len() ==> token_byte_allowed(
                #[trigger] audience_encoded(bytes)[i],
            ),
    decreases bytes.len(),
{
    if bytes.len() > 0 {
        lemma_audience_encoded_allowed(bytes.drop_first());
        let head = audience_encoded_byte(bytes[0]);
        let tail = audience_encoded(bytes.drop_first());
        assert forall|i: int| 0 <= i < audience_encoded(bytes).len() implies token_byte_allowed(
            #[trigger] audience_encoded(bytes)[i],
        ) by {
            lemma_hex_digit_allowed((bytes[0] / 16) as u8);
            lemma_hex_digit_allowed((bytes[0] % 16) as u8);
            if i < head.len() {
                assert(audience_encoded(bytes)[i] == head[i]);
            } else {
                assert(audience_encoded(bytes)[i] == tail[i - head.len()]);
            }
        }
    }
}

/// Every byte a query-pair encoding holds is one the token may hold.
pub proof fn lemma_form_encoded_allowed(bytes: Seq<u8>)
    ensures
        forall|i: int|
            0 <= i < form_encoded(bytes).len() ==> token_byte_allowed(
                #[trigger] form_encoded(bytes)[i],
            ),
    decreases bytes.len(),
{
    if bytes.len() > 0 {
        lemma_form_encoded_allowed(bytes.drop_first());
        let head = form_encoded_byte(bytes[0]);
        let tail = form_encoded(bytes.drop_first());
        assert forall|i: int| 0 <= i < form_encoded(bytes).len() implies token_byte_allowed(
            #[trigger] form_encoded(bytes)[i],
        ) by {
            lemma_hex_digit_allowed((bytes[0] / 16) as u8);
            lemma_hex_digit_allowed((bytes[0] % 16) as u8);
            if i < head.len() {
                assert(form_encoded(bytes)[i] == head[i]);
            } else {
                assert(form_encoded(bytes)[i] == tail[i - head.len()]);
            }
        }
    }
}

fn hex_digit_exec(n: u8) -> (r: u8)
    requires
        n < 16,
    ensures
        r == hex_digit(n),
{
    if n < 10 {
        48 + n
    } else {
        55 + n
    }
}

fn audience_escaped_exec(b: u8) -> (r: bool)
    ensures
        r == audience_escaped(b),
{
    b < 0x20 || b > 0x7E || b == 32 || b == 34 || b == 35 || b == 60 || b == 62 || b == 96 || b
        == 63 || b == 123 || b == 125 || b == 37 || b == 47 || b == 61
}

/// Percent-encode `bytes` with the audience encode set.
pub fn percent_encode_audience(bytes: &Vec<u8>) -> (r: Vec<u8>)
    ensures
        r@ == audience_encoded(bytes@),
{
    let mut out: Vec<u8> = Vec::new();
    let mut i: usize = 0;
    while i < bytes.len()
        invariant
            i <= bytes.len(),
            out@ == audience_encoded(bytes@.take(i as int)),
        decreases bytes.len() - i,
    {
        let b = bytes[i];
        proof {
            assert(bytes@.take(i + 1) =~= bytes@.take(i as int).push(b));
            lemma_audience_encoded_snoc(bytes@.take(i as int), b);
        }
        if audience_escaped_exec(b) {
            out.push(37);
            out.push(hex_digit_exec(b / 16));
            out.push(hex_digit_exec(b % 16));
        } else {
            out.push(b);
        }
        assert(out@ =~= audience_encoded(bytes@.take(i as int)) + audience_encoded_byte(b));
        i = i + 1;
    }
    proof {
        assert(bytes@.take(bytes@.len() as int) =~= bytes@);
    }
    out
}

/// Encode `bytes` the way a query-string serializer encodes a pair's value.
pub fn form_urlencode(bytes: &Vec<u8>) -> (r: Vec<u8>)
    ensures
        r@ == form_encoded(bytes@),
{
    let mut out: Vec<u8> = Vec::new();
    let mut i: usize = 0;
    while i < bytes.len()
        invariant
            i <= bytes.len(),
            out@ == form_encoded(bytes@.take(i as int)),
        decreases bytes.len() - i,
    {
        let b = bytes[i];
        proof {
            assert(bytes@.take(i + 1) =~= bytes@.take(i as int).push(b));
            lemma_form_encoded_snoc(bytes@.take(i as int), b);
        }
        if b == 42 || b == 45 || b == 46 || (48 <= b && b <= 57) || (65 <= b && b <= 90) || b == 95
            || (97 <= b && b <= 122) {
            out.push(b);
        } else if b == 32 {
            out.push(43);
        } else {
            out.push(37);
            out.push(hex_digit_exec(b / 16));
            out.push(hex_digit_exec(b % 16));
        }
        assert(out@ =~= form_encoded(bytes@.take(i as int)) + form_encoded_byte(b));
        i = i + 1;
    }
    proof {
        assert(bytes@.take(bytes@.len() as int) =~= bytes@);
    }
    out
}

/// The decimal digits of a non-negative number.
pub open spec fn dec_digits(n: int) -> Seq<u8>
    recommends
        n >= 0,
    decreases n,
{
    if n < 10 {
        seq![(48 + if n >= 0 { n } else { 0 }) as u8]
    } else {
        dec_digits(n / 10).push((48 + n % 10) as u8)
    }
}

/// The decimal form of a number, a `-` in front when it is negative.
pub open spec fn dec_repr(n: int) -> Seq<u8> {
    if n < 0 {
        seq![45u8] + dec_digits(-n)
    } else {
        dec_digits(n)
    }
}

fn push_decimal_digits(n: u64, out: &mut Vec<u8>)
    ensures
        final(out)@ == old(out)@ + dec_digits(n as int),
    decreases n,
{
    if n < 10 {
        out.push(48 + n as u8);
        assert(out@ =~= old(out)@ + dec_digits(n as int));
    } else {
        push_decimal_digits(n / 10, out);
        out.push(48 + (n % 10) as u8);
        assert(out@ =~= old(out)@ + dec_digits(n as int));
    }
}

/// The decimal form of `n`, as bytes.
pub fn i64_to_decimal(n: i64) -> (r: Vec<u8>)
    ensures
        r@ == dec_repr(n as int),
{
    let mut out: Vec<u8> = Vec::new();
    if n >= 0 {
        push_decimal_digits(n as u64, &mut out);
    } else {
        out.push(45);
        let magnitude: u64 = (-(n as i128)) as u64;
        assert(magnitude as int == -(n as int));
        push_decimal_digits(magnitude, &mut out);
        assert(out@ =~= seq![45u8] + dec_digits(-(n as int)));
    }
    out
}

/// Every byte of a decimal form passes the query-pair encoding unchanged.
pub proof fn lemma_dec_repr_form_unchanged(n: int)
    ensures
        forall|i: int| 0 <= i < dec_repr(n).len() ==> form_unchanged(#[trigger] dec_repr(n)[i]),
{
    if n < 0 {
        lemma_dec_digits_form_unchanged(-n);
    } else {
        lemma_dec_digits_form_unchanged(n);
    }
}

proof fn lemma_dec_digits_form_unchanged(n: int)
    requires
        n >= 0,
    ensures
        forall|i: int| 0 <= i < dec_digits(n).len() ==> form_unchanged(#[trigger] dec_digits(n)[i]),
    decreases n,
{
    if n < 10 {
        assert(dec_digits(n) == seq![(48 + n) as u8]);
        assert(form_unchanged(dec_digits(n)[0]));
    } else {
        lemma_dec_digits_form_unchanged(n / 10);
        let prefix = dec_digits(n / 10);
        assert forall|i: int| 0 <= i < dec_digits(n).len() implies form_unchanged(
            #[trigger] dec_digits(n)[i],
        ) by {
            if i < prefix.len() {
                assert(dec_digits(n)[i] == prefix[i]);
            } else {
                assert(dec_digits(n)[i] == (48 + n % 10) as u8);
            }
        }
    }
}

} // verus!
