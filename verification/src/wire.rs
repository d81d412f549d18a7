//! How a pixel is written on the wire.
//!
//! Each pixel travels as a message of its own: a JSON object with the five
//! keys `x`, `y`, `r`, `g` and `b`, in this order, each with its value as a
//! decimal number, and no white space. The pixel at column 3, row 5 with
//! the colour (10, 20, 30) is written
//!
//! ```text
//! {"x":3,"y":5,"r":10,"g":20,"b":30}
//! ```

use vstd::prelude::*;
use crate::pixel::Pixel;

verus! {

/// The character `{`, which opens the object.
pub const BRACE_OPEN: u8 = 0x7b;

/// The character `}`, which closes the object.
pub const BRACE_CLOSE: u8 = 0x7d;

/// The character `"`, which stands on both sides of a key.
pub const QUOTE: u8 = 0x22;

/// The character `:`, which stands between a key and its value.
pub const COLON: u8 = 0x3a;

/// The character `,`, which stands between two members.
pub const COMMA: u8 = 0x2c;

/// The character `0`. The other digits follow it in order.
pub const ZERO: u8 = 0x30;

/// The character `x`, the key of the column.
pub const KEY_X: u8 = 0x78;

/// The character `y`, the key of the row.
pub const KEY_Y: u8 = 0x79;

/// The character `r`, the key of the red channel.
pub const KEY_R: u8 = 0x72;

/// The character `g`, the key of the green channel.
pub const KEY_G: u8 = 0x67;

/// The character `b`, the key of the blue channel.
pub const KEY_B: u8 = 0x62;

/// The character for the digit `d`, for `0 <= d <= 9`.
pub open spec fn digit(d: nat) -> u8 {
    (ZERO + d) as u8
}

/// The decimal numeral of `n`, without leading zeros.
pub open spec fn decimal(n: nat) -> Seq<u8>
    decreases n,
{
    if n < 10 {
        seq![digit(n)]
    } else {
        decimal(n / 10).push(digit(n % 10))
    }
}

/// One member of the object: the key in quotes, a colon and the value.
pub open spec fn member(key: u8, value: u8) -> Seq<u8> {
    seq![QUOTE, key, QUOTE, COLON] + decimal(value as nat)
}

/// The message that carries `pixel`.
pub open spec fn wire_bytes(pixel: Pixel) -> Seq<u8> {
    seq![BRACE_OPEN] + member(KEY_X, pixel.x) + seq![COMMA] + member(KEY_Y, pixel.y) + seq![COMMA]
        + member(KEY_R, pixel.r) + seq![COMMA] + member(KEY_G, pixel.g) + seq![COMMA] + member(
        KEY_B,
        pixel.b,
    ) + seq![BRACE_CLOSE]
}

/// Whether `byte` is one of the ten digits.
pub open spec fn is_digit(byte: u8) -> bool {
    ZERO <= byte <= ZERO + 9
}

/// The numeral of a byte has one to three digits, the first of which is
/// zero only for zero itself, and its digits give the byte back.
pub proof fn lemma_decimal_of_byte(value: u8)
    ensures
        1 <= decimal(value as nat).len() <= 3,
        forall|i: int| 0 <= i < decimal(value as nat).len() ==> is_digit(#[trigger] decimal(value as nat)[i]),
        decimal(value as nat).len() == 1 ==> value == decimal(value as nat)[0] - ZERO,
        decimal(value as nat).len() == 2 ==> value == 10 * (decimal(value as nat)[0] - ZERO) + (decimal(
            value as nat,
        )[1] - ZERO) && decimal(value as nat)[0] != ZERO,
        decimal(value as nat).len() == 3 ==> value == 100 * (decimal(value as nat)[0] - ZERO) + 10 * (
        decimal(value as nat)[1] - ZERO) + (decimal(value as nat)[2] - ZERO) && decimal(value as nat)[0]
            != ZERO,
{
    reveal_with_fuel(decimal, 3);
}

/// A numeral can be read back off the front of a message: if two numerals
/// of bytes, each followed by something that does not begin with a digit,
/// make the same text, then the bytes are the same and so is what follows.
proof fn lemma_numeral_is_read_back(a: u8, after_a: Seq<u8>, b: u8, after_b: Seq<u8>)
    requires
        after_a.len() > 0 && !is_digit(after_a[0]),
        after_b.len() > 0 && !is_digit(after_b[0]),
        decimal(a as nat) + after_a == decimal(b as nat) + after_b,
    ensures
        a == b,
        after_a == after_b,
{
    lemma_decimal_of_byte(a);
    lemma_decimal_of_byte(b);
    let text_a = decimal(a as nat) + after_a;
    let text_b = decimal(b as nat) + after_b;
    let len_a = decimal(a as nat).len() as int;
    let len_b = decimal(b as nat).len() as int;
    if len_a < len_b {
        assert(text_a[len_a] == after_a[0]);
        assert(text_b[len_a] == decimal(b as nat)[len_a]);
    }
    if len_b < len_a {
        assert(text_b[len_b] == after_b[0]);
        assert(text_a[len_b] == decimal(a as nat)[len_b]);
    }
    assert(len_a == len_b);
    assert forall|i: int| 0 <= i < len_a implies decimal(a as nat)[i] == decimal(b as nat)[i] by {
        assert(text_a[i] == decimal(a as nat)[i]);
        assert(text_b[i] == decimal(b as nat)[i]);
    }
    assert(after_a =~= text_a.skip(len_a));
    assert(after_b =~= text_b.skip(len_b));
}

/// What follows the opening of the member with the key at place `from`
/// (0 for `x` up to 4 for `b`): its value, and the members after it, and
/// the closing brace.
pub open spec fn wire_tail(pixel: Pixel, from: int) -> Seq<u8>
    decreases 5 - from,
{
    if from == 0 {
        decimal(pixel.x as nat) + (seq![COMMA, QUOTE, KEY_Y, QUOTE, COLON] + wire_tail(pixel, 1))
    } else if from == 1 {
        decimal(pixel.y as nat) + (seq![COMMA, QUOTE, KEY_R, QUOTE, COLON] + wire_tail(pixel, 2))
    } else if from == 2 {
        decimal(pixel.r as nat) + (seq![COMMA, QUOTE, KEY_G, QUOTE, COLON] + wire_tail(pixel, 3))
    } else if from == 3 {
        decimal(pixel.g as nat) + (seq![COMMA, QUOTE, KEY_B, QUOTE, COLON] + wire_tail(pixel, 4))
    } else {
        decimal(pixel.b as nat) + seq![BRACE_CLOSE]
    }
}

/// Joining three texts gives the same text however the joins are grouped.
proof fn lemma_join_regroups(a: Seq<u8>, b: Seq<u8>, c: Seq<u8>)
    ensures
        (a + b) + c == a + (b + c),
{
}

/// A text, then a member, then the rest of the message: the member can be
/// taken apart into its key, which stays with the text before it, and its
/// value, which goes with the rest.
proof fn lemma_member_splits(before: Seq<u8>, key: u8, value: u8, rest: Seq<u8>)
    ensures
        (before + member(key, value)) + rest == (before + seq![QUOTE, key, QUOTE, COLON]) + (decimal(
            value as nat,
        ) + rest),
{
    let opening = seq![QUOTE, key, QUOTE, COLON];
    let numeral = decimal(value as nat);
    lemma_join_regroups(before, opening, numeral);
    lemma_join_regroups(before + opening, numeral, rest);
}

/// The message is its opening followed by the tail from the first member.
proof fn lemma_wire_bytes_by_tail(pixel: Pixel)
    ensures
        wire_bytes(pixel) == seq![BRACE_OPEN, QUOTE, KEY_X, QUOTE, COLON] + wire_tail(pixel, 0),
{
    reveal_with_fuel(wire_tail, 5);
    let comma = seq![COMMA];
    let upto_x = seq![BRACE_OPEN] + member(KEY_X, pixel.x);
    let upto_y = upto_x + comma + member(KEY_Y, pixel.y);
    let upto_r = upto_y + comma + member(KEY_R, pixel.r);
    let upto_g = upto_r + comma + member(KEY_G, pixel.g);

    let from_b = seq![COMMA, QUOTE, KEY_B, QUOTE, COLON] + wire_tail(pixel, 4);
    lemma_member_splits(upto_g + comma, KEY_B, pixel.b, seq![BRACE_CLOSE]);
    lemma_join_regroups(upto_g, comma, seq![QUOTE, KEY_B, QUOTE, COLON]);
    lemma_join_regroups(upto_g, seq![COMMA, QUOTE, KEY_B, QUOTE, COLON], wire_tail(pixel, 4));
    assert(wire_bytes(pixel) == upto_g + from_b);

    let from_g = seq![COMMA, QUOTE, KEY_G, QUOTE, COLON] + wire_tail(pixel, 3);
    lemma_member_splits(upto_r + comma, KEY_G, pixel.g, from_b);
    lemma_join_regroups(upto_r, comma, seq![QUOTE, KEY_G, QUOTE, COLON]);
    lemma_join_regroups(upto_r, seq![COMMA, QUOTE, KEY_G, QUOTE, COLON], wire_tail(pixel, 3));
    assert(wire_bytes(pixel) == upto_r + from_g);

    let from_r = seq![COMMA, QUOTE, KEY_R, QUOTE, COLON] + wire_tail(pixel, 2);
    lemma_member_splits(upto_y + comma, KEY_R, pixel.r, from_g);
    lemma_join_regroups(upto_y, comma, seq![QUOTE, KEY_R, QUOTE, COLON]);
    lemma_join_regroups(upto_y, seq![COMMA, QUOTE, KEY_R, QUOTE, COLON], wire_tail(pixel, 2));
    assert(wire_bytes(pixel) == upto_y + from_r);

    let from_y = seq![COMMA, QUOTE, KEY_Y, QUOTE, COLON] + wire_tail(pixel, 1);
    lemma_member_splits(upto_x + comma, KEY_Y, pixel.y, from_r);
    lemma_join_regroups(upto_x, comma, seq![QUOTE, KEY_Y, QUOTE, COLON]);
    lemma_join_regroups(upto_x, seq![COMMA, QUOTE, KEY_Y, QUOTE, COLON], wire_tail(pixel, 1));
    assert(wire_bytes(pixel) == upto_x + from_y);

    lemma_member_splits(seq![BRACE_OPEN], KEY_X, pixel.x, from_y);
    assert(seq![BRACE_OPEN] + seq![QUOTE, KEY_X, QUOTE, COLON] =~= seq![
        BRACE_OPEN,
        QUOTE,
        KEY_X,
        QUOTE,
        COLON,
    ]);
}

/// Two pixels whose tails from one member on are the same agree in that
/// member and in the tails from the next.
proof fn lemma_wire_tail_is_read_back(p: Pixel, q: Pixel, from: int)
    requires
        0 <= from <= 4,
        wire_tail(p, from) == wire_tail(q, from),
    ensures
        from == 0 ==> p.x == q.x,
        from == 1 ==> p.y == q.y,
        from == 2 ==> p.r == q.r,
        from == 3 ==> p.g == q.g,
        from == 4 ==> p.b == q.b,
        from < 4 ==> wire_tail(p, from + 1) == wire_tail(q, from + 1),
{
    let key: u8 = if from == 0 {
        KEY_Y
    } else if from == 1 {
        KEY_R
    } else if from == 2 {
        KEY_G
    } else {
        KEY_B
    };
    let value_p: u8 = if from == 0 {
        p.x
    } else if from == 1 {
        p.y
    } else if from == 2 {
        p.r
    } else if from == 3 {
        p.g
    } else {
        p.b
    };
    let value_q: u8 = if from == 0 {
        q.x
    } else if from == 1 {
        q.y
    } else if from == 2 {
        q.r
    } else if from == 3 {
        q.g
    } else {
        q.b
    };
    if from < 4 {
        let after_p = seq![COMMA, QUOTE, key, QUOTE, COLON] + wire_tail(p, from + 1);
        let after_q = seq![COMMA, QUOTE, key, QUOTE, COLON] + wire_tail(q, from + 1);
        lemma_numeral_is_read_back(value_p, after_p, value_q, after_q);
        assert(wire_tail(p, from + 1) =~= after_p.skip(5));
        assert(wire_tail(q, from + 1) =~= after_q.skip(5));
    } else {
        let after = seq![BRACE_CLOSE];
        lemma_numeral_is_read_back(value_p, after, value_q, after);
    }
}

/// The message tells the pixel: two pixels that are written alike are the
/// same pixel, so whoever reads the message reads back all five fields.
pub proof fn lemma_wire_bytes_tell_the_pixel(p: Pixel, q: Pixel)
    requires
        wire_bytes(p) == wire_bytes(q),
    ensures
        p == q,
{
    lemma_wire_bytes_by_tail(p);
    lemma_wire_bytes_by_tail(q);
    let opening = seq![BRACE_OPEN, QUOTE, KEY_X, QUOTE, COLON];
    assert(wire_tail(p, 0) =~= (opening + wire_tail(p, 0)).skip(5));
    assert(wire_tail(q, 0) =~= (opening + wire_tail(q, 0)).skip(5));
    lemma_wire_tail_is_read_back(p, q, 0);
    lemma_wire_tail_is_read_back(p, q, 1);
    lemma_wire_tail_is_read_back(p, q, 2);
    lemma_wire_tail_is_read_back(p, q, 3);
    lemma_wire_tail_is_read_back(p, q, 4);
}

/// The message is plain text: between 31 and 41 characters, each of them a
/// printable ASCII character.
pub proof fn lemma_wire_bytes_are_text(pixel: Pixel)
    ensures
        31 <= wire_bytes(pixel).len() <= 41,
        forall|i: int| 0 <= i < wire_bytes(pixel).len() ==> 0x20 <= #[trigger] wire_bytes(pixel)[i] < 0x7f,
{
    lemma_decimal_of_byte(pixel.x);
    lemma_decimal_of_byte(pixel.y);
    lemma_decimal_of_byte(pixel.r);
    lemma_decimal_of_byte(pixel.g);
    lemma_decimal_of_byte(pixel.b);
}

/// Appends the decimal numeral of `value`.
fn push_decimal(out: &mut Vec<u8>, value: u8)
    ensures
        final(out)@ == old(out)@ + decimal(value as nat),
{
    reveal_with_fuel(decimal, 3);
    if value >= 100 {
        out.push(ZERO + value / 100);
    }
    if value >= 10 {
        out.push(ZERO + (value / 10) % 10);
    }
    out.push(ZERO + value % 10);
}

/// Appends one member of the object.
fn push_member(out: &mut Vec<u8>, key: u8, value: u8)
    ensures
        final(out)@ == old(out)@ + member(key, value),
{
    out.push(QUOTE);
    out.push(key);
    out.push(QUOTE);
    out.push(COLON);
    push_decimal(out, value);
}

impl Pixel {
    /// Writes the pixel as the text of one message.
    pub fn to_json(&self) -> (text: Vec<u8>)
        ensures
            text@ == wire_bytes(*self),
    {
        let mut text: Vec<u8> = Vec::new();
        text.push(BRACE_OPEN);
        push_member(&mut text, KEY_X, self.x);
        text.push(COMMA);
        push_member(&mut text, KEY_Y, self.y);
        text.push(COMMA);
        push_member(&mut text, KEY_R, self.r);
        text.push(COMMA);
        push_member(&mut text, KEY_G, self.g);
        text.push(COMMA);
        push_member(&mut text, KEY_B, self.b);
        text.push(BRACE_CLOSE);
        text
    }
}

} // verus!
