//! JSON encoding of the arguments the grader sends with each cross-contract
//! call.  The runtime's call convention takes a JSON document as bytes; the
//! shapes used here are an object of one or two string members, an object of
//! one number or number-array member, and the empty string document.

use vstd::prelude::*;
use vstd::string::StringSliceAdditionalSpecFns;
use vstd::utf8::encode_utf8;

verus! {

/// ASCII bytes used by the JSON documents built here.
pub const LEFT_BRACE: u8 = 123;

pub const RIGHT_BRACE: u8 = 125;

pub const LEFT_BRACKET: u8 = 91;

pub const RIGHT_BRACKET: u8 = 93;

pub const QUOTE: u8 = 34;

pub const BACKSLASH: u8 = 92;

pub const COMMA: u8 = 44;

pub const COLON: u8 = 58;

pub const DIGIT_ZERO: u8 = 48;

pub const LOWER_A: u8 = 97;

pub const LOWER_E: u8 = 101;

pub const LOWER_K: u8 = 107;

pub const LOWER_L: u8 = 108;

pub const LOWER_U: u8 = 117;

pub const LOWER_V: u8 = 118;

pub const LOWER_Y: u8 = 121;


/// The ASCII digit for a hex value below 16: `0`-`9`, then `a`-`f`.
pub open spec fn hex_digit(n: u8) -> u8 {
    if n < 10 {
        (48 + n) as u8
    } else {
        (87 + n) as u8
    }
}

/// How one byte of a string appears inside a JSON string literal: quote and
/// backslash get a backslash escape, control bytes a `\u00XX` escape, and
/// every other byte stands as it is.
pub open spec fn escaped_byte(b: u8) -> Seq<u8> {
    if b == 34 {
        seq![BACKSLASH, QUOTE]
    } else if b == 92 {
        seq![BACKSLASH, BACKSLASH]
    } else if b < 32 {
        seq![BACKSLASH, LOWER_U, DIGIT_ZERO, DIGIT_ZERO, hex_digit(b / 16), hex_digit(b % 16)]
    } else {
        seq![b]
    }
}

/// The body of a JSON string literal: every byte escaped as needed.  Bytes of
/// a multi-byte UTF-8 character are all at least 128 and pass through
/// unchanged, so escaping byte by byte never splits a character.
pub open spec fn escape_json(s: Seq<u8>) -> Seq<u8>
    decreases s.len(),
{
    if s.len() == 0 {
        Seq::empty()
    } else {
        escaped_byte(s.first()) + escape_json(s.drop_first())
    }
}

/// A JSON string literal: the escaped body between double quotes.
pub open spec fn quoted(s: Seq<u8>) -> Seq<u8> {
    seq![QUOTE] + escape_json(s) + seq![QUOTE]
}

/// The decimal digits of a byte value, no leading zeros.
pub open spec fn dec_digits(n: u8) -> Seq<u8> {
    if n < 10 {
        seq![(48 + n) as u8]
    } else if n < 100 {
        seq![(48 + n / 10) as u8, (48 + n % 10) as u8]
    } else {
        seq![(48 + n / 100) as u8, (48 + (n / 10) % 10) as u8, (48 + n % 10) as u8]
    }
}

/// The elements of a JSON number array after the first: each preceded by a comma.
pub open spec fn dec_list_tail(values: Seq<u8>) -> Seq<u8>
    decreases values.len(),
{
    if values.len() == 0 {
        Seq::empty()
    } else {
        seq![COMMA] + dec_digits(values.first()) + dec_list_tail(values.drop_first())
    }
}

/// The comma-separated decimal list of a JSON number array.
pub open spec fn dec_list(values: Seq<u8>) -> Seq<u8> {
    if values.len() == 0 {
        Seq::empty()
    } else {
        dec_digits(values.first()) + dec_list_tail(values.drop_first())
    }
}

/// `{"key":` — the opening of every object that carries a `key` member.
pub open spec fn key_member_prefix() -> Seq<u8> {
    seq![LEFT_BRACE, QUOTE, LOWER_K, LOWER_E, LOWER_Y, QUOTE, COLON]
}

/// `,"value":` — the separator before a second `value` member.
pub open spec fn value_member_infix() -> Seq<u8> {
    seq![COMMA, QUOTE, LOWER_V, LOWER_A, LOWER_L, LOWER_U, LOWER_E, QUOTE, COLON]
}

/// `{"value":` — the opening of an object whose only member is `value`.
pub open spec fn value_member_prefix() -> Seq<u8> {
    seq![LEFT_BRACE, QUOTE, LOWER_V, LOWER_A, LOWER_L, LOWER_U, LOWER_E, QUOTE, COLON]
}

/// `{"key":K,"value":V}` with both members JSON string literals of the given bytes.
pub open spec fn map_insert_args(key: Seq<u8>, value: Seq<u8>) -> Seq<u8> {
    key_member_prefix() + quoted(key) + value_member_infix() + quoted(value) + seq![RIGHT_BRACE]
}

/// `{"key":K}` with the member a JSON string literal of the given bytes.
pub open spec fn map_get_args(key: Seq<u8>) -> Seq<u8> {
    key_member_prefix() + quoted(key) + seq![RIGHT_BRACE]
}

/// `{"value":N}` with the member the decimal of one byte.
pub open spec fn vector_push_args(value: u8) -> Seq<u8> {
    value_member_prefix() + dec_digits(value) + seq![RIGHT_BRACE]
}

/// `{"value":[N,...]}` with the member the decimal array of the given bytes.
pub open spec fn vector_replace_args(values: Seq<u8>) -> Seq<u8> {
    value_member_prefix() + seq![LEFT_BRACKET] + dec_list(values) + seq![RIGHT_BRACKET, RIGHT_BRACE]
}

/// `""` — the empty-string document sent to methods that take no arguments.
pub open spec fn no_args() -> Seq<u8> {
    seq![QUOTE, QUOTE]
}

/// Escaping distributes over appending one byte at the tail.
proof fn lemma_escape_snoc(s: Seq<u8>, b: u8)
    ensures
        escape_json(s.push(b)) == escape_json(s) + escaped_byte(b),
    decreases s.len(),
{
    if s.len() == 0 {
        assert(s.push(b).first() == b);
        assert(s.push(b).drop_first() =~= Seq::<u8>::empty());
        assert(escape_json(Seq::<u8>::empty()) =~= Seq::<u8>::empty());
        assert(escape_json(s.push(b)) =~= escape_json(s) + escaped_byte(b));
    } else {
        assert(s.push(b).first() == s.first());
        assert(s.push(b).drop_first() =~= s.drop_first().push(b));
        lemma_escape_snoc(s.drop_first(), b);
        assert(escape_json(s.push(b)) =~= escape_json(s) + escaped_byte(b));
    }
}

/// The comma-separated tail grows one element at a time.
proof fn lemma_dec_list_tail_snoc(values: Seq<u8>, n: u8)
    ensures
        dec_list_tail(values.push(n)) == dec_list_tail(values) + seq![COMMA] + dec_digits(n),
    decreases values.len(),
{
    if values.len() == 0 {
        assert(values.push(n).first() == n);
        assert(values.push(n).drop_first() =~= Seq::<u8>::empty());
        assert(dec_list_tail(Seq::<u8>::empty()) =~= Seq::<u8>::empty());
        assert(dec_list_tail(values.push(n)) =~= dec_list_tail(values) + seq![COMMA] + dec_digits(
            n,
        ));
    } else {
        assert(values.push(n).first() == values.first());
        assert(values.push(n).drop_first() =~= values.drop_first().push(n));
        lemma_dec_list_tail_snoc(values.drop_first(), n);
        assert(dec_list_tail(values.push(n)) =~= dec_list_tail(values) + seq![COMMA] + dec_digits(
            n,
        ));
    }
}

/// Appends one escaped byte.
fn push_escaped_byte(out: &mut Vec<u8>, b: u8)
    ensures
        final(out)@ == old(out)@ + escaped_byte(b),
{
    if b == 34 {
        out.push(BACKSLASH);
        out.push(QUOTE);
    } else if b == 92 {
        out.push(BACKSLASH);
        out.push(BACKSLASH);
    } else if b < 32 {
        out.push(BACKSLASH);
        out.push(LOWER_U);
        out.push(DIGIT_ZERO);
        out.push(DIGIT_ZERO);
        let hi = b / 16;
        let lo = b % 16;
        out.push(if hi < 10 { 48 + hi } else { 87 + hi });
        out.push(if lo < 10 { 48 + lo } else { 87 + lo });
    } else {
        out.push(b);
    }
    proof {
        assert(final(out)@ =~= old(out)@ + escaped_byte(b));
    }
}

/// Appends the escaped body of a JSON string literal.
fn push_escaped(out: &mut Vec<u8>, s: &[u8])
    ensures
        final(out)@ == old(out)@ + escape_json(s@),
{
    let mut i: usize = 0;
    proof {
        assert(s@.take(0) =~= Seq::<u8>::empty());
        assert(out@ =~= old(out)@ + escape_json(s@.take(0)));
    }
    while i < s.len()
        invariant
            i <= s@.len(),
            out@ == old(out)@ + escape_json(s@.take(i as int)),
        decreases s@.len() - i,
    {
        push_escaped_byte(out, s[i]);
        proof {
            assert(s@.take(i + 1) =~= s@.take(i as int).push(s@[i as int]));
            lemma_escape_snoc(s@.take(i as int), s@[i as int]);
            assert(out@ =~= old(out)@ + escape_json(s@.take(i + 1)));
        }
        i = i + 1;
    }
    proof {
        assert(s@.take(s@.len() as int) =~= s@);
    }
}

/// Appends a whole JSON string literal, quotes included.
fn push_quoted(out: &mut Vec<u8>, s: &[u8])
    ensures
        final(out)@ == old(out)@ + quoted(s@),
{
    out.push(QUOTE);
    push_escaped(out, s);
    out.push(QUOTE);
    proof {
        assert(final(out)@ =~= old(out)@ + quoted(s@));
    }
}

/// Appends the decimal digits of one byte.
fn push_decimal(out: &mut Vec<u8>, n: u8)
    ensures
        final(out)@ == old(out)@ + dec_digits(n),
{
    if n >= 100 {
        out.push(48 + n / 100);
        out.push(48 + (n / 10) % 10);
        out.push(48 + n % 10);
    } else if n >= 10 {
        out.push(48 + n / 10);
        out.push(48 + n % 10);
    } else {
        out.push(48 + n);
    }
    proof {
        assert(final(out)@ =~= old(out)@ + dec_digits(n));
    }
}

/// Encodes `{"key":K,"value":V}` for a map store call.
pub fn encode_map_insert_args(key: &String, value: &String) -> (r: Vec<u8>)
    ensures
        r@ == map_insert_args(encode_utf8(key@), encode_utf8(value@)),
{
    let mut out: Vec<u8> = Vec::new();
    out.push(LEFT_BRACE);
    out.push(QUOTE);
    out.push(LOWER_K);
    out.push(LOWER_E);
    out.push(LOWER_Y);
    out.push(QUOTE);
    out.push(COLON);
    proof {
        assert(out@ =~= key_member_prefix());
    }
    push_quoted(&mut out, key.as_str().as_bytes());
    out.push(COMMA);
    out.push(QUOTE);
    out.push(LOWER_V);
    out.push(LOWER_A);
    out.push(LOWER_L);
    out.push(LOWER_U);
    out.push(LOWER_E);
    out.push(QUOTE);
    out.push(COLON);
    push_quoted(&mut out, value.as_str().as_bytes());
    out.push(RIGHT_BRACE);
    proof {
        assert(out@ =~= map_insert_args(encode_utf8(key@), encode_utf8(value@)));
    }
    out
}

/// Encodes `{"key":K}` for a map read call.
pub fn encode_map_get_args(key: &String) -> (r: Vec<u8>)
    ensures
        r@ == map_get_args(encode_utf8(key@)),
{
    let mut out: Vec<u8> = Vec::new();
    out.push(LEFT_BRACE);
    out.push(QUOTE);
    out.push(LOWER_K);
    out.push(LOWER_E);
    out.push(LOWER_Y);
    out.push(QUOTE);
    out.push(COLON);
    proof {
        assert(out@ =~= key_member_prefix());
    }
    push_quoted(&mut out, key.as_str().as_bytes());
    out.push(RIGHT_BRACE);
    proof {
        assert(out@ =~= map_get_args(encode_utf8(key@)));
    }
    out
}

/// Encodes `{"value":N}` for a sequence append call.
pub fn encode_vector_push_args(value: u8) -> (r: Vec<u8>)
    ensures
        r@ == vector_push_args(value),
{
    let mut out: Vec<u8> = Vec::new();
    out.push(LEFT_BRACE);
    out.push(QUOTE);
    out.push(LOWER_V);
    out.push(LOWER_A);
    out.push(LOWER_L);
    out.push(LOWER_U);
    out.push(LOWER_E);
    out.push(QUOTE);
    out.push(COLON);
    proof {
        assert(out@ =~= value_member_prefix());
    }
    push_decimal(&mut out, value);
    out.push(RIGHT_BRACE);
    proof {
        assert(out@ =~= vector_push_args(value));
    }
    out
}

/// Encodes `{"value":[N,...]}` for a bulk sequence replacement call.
pub fn encode_vector_replace_args(values: &Vec<u8>) -> (r: Vec<u8>)
    ensures
        r@ == vector_replace_args(values@),
{
    let mut out: Vec<u8> = Vec::new();
    out.push(LEFT_BRACE);
    out.push(QUOTE);
    out.push(LOWER_V);
    out.push(LOWER_A);
    out.push(LOWER_L);
    out.push(LOWER_U);
    out.push(LOWER_E);
    out.push(QUOTE);
    out.push(COLON);
    out.push(LEFT_BRACKET);
    proof {
        assert(out@ =~= value_member_prefix() + seq![LEFT_BRACKET]);
    }
    if values.len() > 0 {
        push_decimal(&mut out, values[0]);
        let mut i: usize = 1;
        proof {
            assert(values@.subrange(1, 1) =~= Seq::<u8>::empty());
            assert(out@ =~= value_member_prefix() + seq![LEFT_BRACKET] + dec_digits(values@[0])
                + dec_list_tail(values@.subrange(1, 1)));
        }
        while i < values.len()
            invariant
                1 <= i <= values@.len(),
                out@ == value_member_prefix() + seq![LEFT_BRACKET] + dec_digits(values@[0])
                    + dec_list_tail(values@.subrange(1, i as int)),
            decreases values@.len() - i,
        {
            out.push(COMMA);
            push_decimal(&mut out, values[i]);
            proof {
                assert(values@.subrange(1, i + 1) =~= values@.subrange(1, i as int).push(
                    values@[i as int],
                ));
                lemma_dec_list_tail_snoc(values@.subrange(1, i as int), values@[i as int]);
                assert(out@ =~= value_member_prefix() + seq![LEFT_BRACKET] + dec_digits(values@[0])
                    + dec_list_tail(values@.subrange(1, i + 1)));
            }
            i = i + 1;
        }
        proof {
            assert(values@.subrange(1, values@.len() as int) =~= values@.drop_first());
            assert(values@.first() == values@[0]);
        }
    }
    out.push(RIGHT_BRACKET);
    out.push(RIGHT_BRACE);
    proof {
        assert(out@ =~= vector_replace_args(values@));
    }
    out
}

/// Encodes the empty-string document for a call that takes no arguments.
pub fn encode_no_args() -> (r: Vec<u8>)
    ensures
        r@ == no_args(),
{
    let mut out: Vec<u8> = Vec::new();
    out.push(QUOTE);
    out.push(QUOTE);
    proof {
        assert(out@ =~= no_args());
    }
    out
}

} // verus!
