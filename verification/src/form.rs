//! Request bodies in the format `application/x-www-form-urlencoded`.

use vstd::prelude::*;
use vstd::string::*;
#[allow(unused_imports)]
use vstd::utf8::{decode_utf8, encode_utf8};

use crate::text;

verus! {

/// Whether a byte stands for itself in a form: letters, digits and `*-._`.
pub open spec fn form_plain(byte: u8) -> bool {
    ||| byte == 0x2a
    ||| byte == 0x2d
    ||| byte == 0x2e
    ||| 0x30 <= byte <= 0x39
    ||| 0x41 <= byte <= 0x5a
    ||| byte == 0x5f
    ||| 0x61 <= byte <= 0x7a
}

/// The upper-case hexadecimal digit for a number below sixteen.
pub open spec fn hex_digit(n: u8) -> char {
    if n < 10 {
        (48 + n) as char
    } else {
        (55 + n) as char
    }
}

/// How a byte is written in a form: as itself, as a plus sign for a space, or as a percent sign
/// and two hexadecimal digits.
pub open spec fn form_byte(byte: u8) -> Seq<char> {
    if form_plain(byte) {
        seq![byte as char]
    } else if byte == 0x20 {
        seq!['+']
    } else {
        seq!['%', hex_digit(byte / 16), hex_digit(byte % 16)]
    }
}

/// How bytes are written in a form.
pub open spec fn form_bytes(bytes: Seq<u8>) -> Seq<char>
    decreases bytes.len(),
{
    if bytes.len() == 0 {
        seq![]
    } else {
        form_byte(bytes[0]) + form_bytes(bytes.skip(1))
    }
}

/// How a name or a value is written in a form: by its UTF-8 bytes.
pub open spec fn form_text(content: Seq<char>) -> Seq<char> {
    form_bytes(encode_utf8(content))
}

/// How a pair of a name and a value is written in a form.
pub open spec fn form_pair(pair: (Seq<char>, Seq<char>)) -> Seq<char> {
    form_text(pair.0) + seq!['='] + form_text(pair.1)
}

/// The form that holds some pairs, in order.
pub open spec fn form_of(pairs: Seq<(Seq<char>, Seq<char>)>) -> Seq<char> {
    text::joined(pairs.map_values(|pair: (Seq<char>, Seq<char>)| form_pair(pair)), seq!['&'])
}

/// The texts that a list of parameters holds.
pub open spec fn parameters(params: Seq<(&str, &str)>) -> Seq<(Seq<char>, Seq<char>)> {
    params.map_values(|pair: (&str, &str)| (pair.0@, pair.1@))
}

/// Calls `url::form_urlencoded::Serializer`: a serializer on an empty string that `extend_pairs`
/// fills with the parameters and `finish` hands out. It writes each name and value by its UTF-8
/// bytes as [`form_byte`] says, puts an equals sign between the two, and an ampersand between
/// pairs.
#[verifier::external_body]
pub(crate) fn form(params: &[(&str, &str)]) -> (body: String)
    ensures
        body@ == form_of(parameters(params@)),
{
    url::form_urlencoded::Serializer::new(String::new())
        .extend_pairs(params.iter().copied())
        .finish()
}

/// A written byte is not empty, and holds no mark that parts names, values and pairs.
proof fn lemma_form_byte(byte: u8)
    ensures
        form_byte(byte).len() > 0,
        forall|i: int|
            0 <= i < form_byte(byte).len() ==> #[trigger] form_byte(byte)[i] != '&' && form_byte(
                byte,
            )[i] != '=',
{
}

/// Written bytes hold no mark that parts names, values and pairs.
proof fn lemma_form_bytes(bytes: Seq<u8>)
    ensures
        bytes.len() > 0 ==> form_bytes(bytes).len() > 0,
        forall|i: int|
            0 <= i < form_bytes(bytes).len() ==> #[trigger] form_bytes(bytes)[i] != '&'
                && form_bytes(bytes)[i] != '=',
    decreases bytes.len(),
{
    if bytes.len() > 0 {
        lemma_form_byte(bytes[0]);
        lemma_form_bytes(bytes.skip(1));
        let head = form_byte(bytes[0]);
        let rest = form_bytes(bytes.skip(1));
        assert forall|i: int| 0 <= i < form_bytes(bytes).len() implies #[trigger] form_bytes(
            bytes,
        )[i] != '&' && form_bytes(bytes)[i] != '=' by {
            if i < head.len() {
                assert(form_bytes(bytes)[i] == head[i]);
            } else {
                assert(form_bytes(bytes)[i] == rest[i - head.len()]);
            }
        }
    }
}

/// The number that a hexadecimal digit stands for, in either case.
pub open spec fn hex_value(c: char) -> Option<u8> {
    if '0' <= c <= '9' {
        Some((c as int - 48) as u8)
    } else if 'A' <= c <= 'F' {
        Some((c as int - 55) as u8)
    } else if 'a' <= c <= 'f' {
        Some((c as int - 87) as u8)
    } else {
        None
    }
}

/// Whether `written` opens with a percent sign and two hexadecimal digits.
pub open spec fn opens_with_escape(written: Seq<char>) -> bool {
    written.len() >= 3 && written[0] == '%' && hex_value(written[1]) is Some && hex_value(
        written[2],
    ) is Some
}

/// The bytes that a name or a value in a form stands for: a percent sign and two hexadecimal
/// digits for a byte, a plus sign for a space, and any other character for itself.
pub open spec fn read_bytes(written: Seq<char>) -> Seq<u8>
    decreases written.len(),
{
    if written.len() == 0 {
        seq![]
    } else if opens_with_escape(written) {
        seq![(hex_value(written[1])->Some_0 * 16 + hex_value(written[2])->Some_0) as u8]
            + read_bytes(written.skip(3))
    } else if written[0] == '+' {
        seq![0x20u8] + read_bytes(written.skip(1))
    } else {
        encode_utf8(seq![written[0]]) + read_bytes(written.skip(1))
    }
}

/// The name or the value that stands in a form, where its bytes are UTF-8.
pub open spec fn read_text(written: Seq<char>) -> Seq<char> {
    decode_utf8(read_bytes(written))
}

/// The pair that stands in a form: the name before the first equals sign, and the value behind it,
/// which is empty where there is no such sign.
pub open spec fn read_pair(written: Seq<char>) -> (Seq<char>, Seq<char>) {
    let n = text::run_before(written, '=') as int;
    if n < written.len() {
        (read_text(written.take(n)), read_text(written.skip(n + 1)))
    } else {
        (read_text(written), read_text(seq![]))
    }
}

/// The pairs that a form holds, in order. Pairs are parted by ampersands, and an empty piece
/// between two of those is no pair.
pub open spec fn read_form(body: Seq<char>) -> Seq<(Seq<char>, Seq<char>)> {
    text::segments(body, '&').filter(|written: Seq<char>| written.len() > 0).map_values(
        |written: Seq<char>| read_pair(written),
    )
}

/// A written byte is read back, whatever follows it.
proof fn lemma_read_byte(byte: u8, rest: Seq<char>)
    ensures
        read_bytes(form_byte(byte) + rest) == seq![byte] + read_bytes(rest),
{
    let written = form_byte(byte) + rest;
    if form_plain(byte) {
        assert(written.skip(1) =~= rest);
        let c = byte as char;
        assert(written[0] == c);
        assert(c as u32 == byte as u32);
        let scalar = c as u32;
        assert((scalar & 0x7f) as u8 == byte) by (bit_vector)
            requires
                scalar == byte as u32,
                byte < 0x80,
        ;
        assert(vstd::utf8::has_width_1_encoding(scalar));
        assert(seq![c].drop_first() =~= Seq::<char>::empty());
        assert(encode_utf8(Seq::<char>::empty()) =~= Seq::<u8>::empty());
        assert(encode_utf8(seq![c]) =~= seq![byte]);
    } else if byte == 0x20 {
        assert(written.skip(1) =~= rest);
    } else {
        assert(written.skip(3) =~= rest);
        assert(hex_value(hex_digit(byte / 16)) == Some((byte / 16) as u8));
        assert(hex_value(hex_digit(byte % 16)) == Some((byte % 16) as u8));
    }
}

/// Written bytes are read back.
proof fn lemma_read_bytes(bytes: Seq<u8>)
    ensures
        read_bytes(form_bytes(bytes)) == bytes,
    decreases bytes.len(),
{
    if bytes.len() > 0 {
        lemma_read_bytes(bytes.skip(1));
        lemma_read_byte(bytes[0], form_bytes(bytes.skip(1)));
        assert(seq![bytes[0]] + bytes.skip(1) =~= bytes);
    }
}

/// A written name or value is read back.
proof fn lemma_read_text(content: Seq<char>)
    ensures
        read_text(form_text(content)) == content,
{
    lemma_read_bytes(encode_utf8(content));
    vstd::utf8::encode_utf8_decode_utf8(content);
}

/// A written pair is not empty, holds no ampersand, and is read back.
proof fn lemma_read_pair(pair: (Seq<char>, Seq<char>))
    ensures
        form_pair(pair).len() > 0,
        forall|i: int| 0 <= i < form_pair(pair).len() ==> #[trigger] form_pair(pair)[i] != '&',
        read_pair(form_pair(pair)) == pair,
{
    let name = form_text(pair.0);
    let value = form_text(pair.1);
    let written = form_pair(pair);
    lemma_form_bytes(encode_utf8(pair.0));
    lemma_form_bytes(encode_utf8(pair.1));
    assert forall|i: int| 0 <= i < written.len() implies #[trigger] written[i] != '&' by {
        if i < name.len() {
            assert(written[i] == name[i]);
        } else if i > name.len() {
            assert(written[i] == value[i - name.len() - 1]);
        }
    }
    assert forall|i: int| 0 <= i < name.len() implies #[trigger] written[i] != '=' by {
        assert(written[i] == name[i]);
    }
    text::lemma_run_before_unique(written, '=', name.len() as int);
    assert(written.take(name.len() as int) =~= name);
    assert(written.skip(name.len() as int + 1) =~= value);
    lemma_read_text(pair.0);
    lemma_read_text(pair.1);
}

/// Where no piece is empty, none is left out.
proof fn lemma_filter_keeps(pieces: Seq<Seq<char>>)
    requires
        forall|i: int| 0 <= i < pieces.len() ==> (#[trigger] pieces[i]).len() > 0,
    ensures
        pieces.filter(|written: Seq<char>| written.len() > 0) == pieces,
    decreases pieces.len(),
{
    reveal(Seq::filter);
    if pieces.len() > 0 {
        let front = pieces.drop_last();
        assert forall|i: int| 0 <= i < front.len() implies (#[trigger] front[i]).len() > 0 by {
            assert(front[i] == pieces[i]);
        }
        lemma_filter_keeps(front);
        assert(pieces[pieces.len() - 1].len() > 0);
        assert(front.push(pieces.last()) =~= pieces);
    }
}

/// A form is read back as the parameters that it was written for: each name and each value, in
/// order, whatever characters they hold. So no value can add a parameter of its own.
pub proof fn form_reads_back(pairs: Seq<(Seq<char>, Seq<char>)>)
    ensures
        read_form(form_of(pairs)) == pairs,
{
    let write = |pair: (Seq<char>, Seq<char>)| form_pair(pair);
    let pieces = pairs.map_values(write);
    let full = |written: Seq<char>| written.len() > 0;
    assert forall|i: int| 0 <= i < pieces.len() implies {
        &&& (#[trigger] pieces[i]).len() > 0
        &&& read_pair(pieces[i]) == pairs[i]
        &&& forall|j: int| 0 <= j < pieces[i].len() ==> #[trigger] pieces[i][j] != '&'
    } by {
        lemma_read_pair(pairs[i]);
        assert(pieces[i] == form_pair(pairs[i]));
    }
    if pairs.len() == 0 {
        assert(text::segments(form_of(pairs), '&') =~= seq![Seq::<char>::empty()]);
        let one = seq![Seq::<char>::empty()];
        reveal(Seq::filter);
        assert(one.drop_last() =~= Seq::<Seq<char>>::empty());
        assert(one.drop_last().filter(full) =~= Seq::<Seq<char>>::empty());
        assert(one.filter(full) =~= Seq::<Seq<char>>::empty());
    } else {
        text::lemma_segments_of_joined(pieces, '&');
        lemma_filter_keeps(pieces);
    }
    assert(read_form(form_of(pairs)) =~= pairs);
}

/// A form determines the parameters that it holds.
pub proof fn form_determines_parameters(
    a: Seq<(Seq<char>, Seq<char>)>,
    b: Seq<(Seq<char>, Seq<char>)>,
)
    requires
        form_of(a) == form_of(b),
    ensures
        a == b,
{
    form_reads_back(a);
    form_reads_back(b);
}

} // verus!
