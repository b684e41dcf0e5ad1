//! How texts are cut to fit the fields in which they are shown.

use vstd::prelude::*;
use vstd::string::{StrSliceExecFns, StringExecFns};
use vstd::utf8::encode_utf8;

verus! {

/// The longest text that a field shows: in bytes for a message that is
/// repeated, in characters for a reply that is split.
pub const MAX_FIELD_LEN: usize = 1000;

/// What is shown of a message: the message itself, or a notice in its place
/// where it takes more than [`MAX_FIELD_LEN`] bytes.
pub open spec fn shown_message(message: Seq<char>) -> Seq<char> {
    if encode_utf8(message).len() > MAX_FIELD_LEN {
        "Response too long to display"@
    } else {
        message
    }
}

/// The pieces of at most `size` characters into which a text is cut: each
/// but the last has `size` characters, and none is empty.
pub open spec fn chunks_of(text: Seq<char>, size: int) -> Seq<Seq<char>>
    decreases text.len(),
{
    if text.len() == 0 || size <= 0 {
        Seq::empty()
    } else if text.len() <= size {
        seq![text]
    } else {
        seq![text.take(size)] + chunks_of(text.skip(size), size)
    }
}

/// The characters of a sequence of pieces, one piece after the other.
pub open spec fn joined(pieces: Seq<Seq<char>>) -> Seq<char>
    decreases pieces.len(),
{
    if pieces.len() == 0 {
        Seq::empty()
    } else {
        pieces.first() + joined(pieces.drop_first())
    }
}

/// The decimal digit for `d`, where `d` is below ten.
pub open spec fn digit_char(d: int) -> char {
    if d == 0 {
        '0'
    } else if d == 1 {
        '1'
    } else if d == 2 {
        '2'
    } else if d == 3 {
        '3'
    } else if d == 4 {
        '4'
    } else if d == 5 {
        '5'
    } else if d == 6 {
        '6'
    } else if d == 7 {
        '7'
    } else if d == 8 {
        '8'
    } else {
        '9'
    }
}

/// The decimal numeral of `n`, without leading zeros.
pub open spec fn decimal_text(n: nat) -> Seq<char>
    decreases n,
{
    if n < 10 {
        seq![digit_char(n as int)]
    } else {
        decimal_text(n / 10).push(digit_char((n % 10) as int))
    }
}

/// The title of piece number `index`, counted from zero, of a reply in
/// `count` pieces: it numbers the piece where there are several.
pub open spec fn title_of_chunk(index: nat, count: nat) -> Seq<char> {
    if count > 1 {
        "Image Analysis Result ("@ + decimal_text(index + 1) + " of "@ + decimal_text(count)
            + ")"@
    } else {
        "Image Analysis Result"@
    }
}

/// What is shown of a message.
pub fn displayed_message(message: &str) -> (r: String)
    ensures
        r@ == shown_message(message@),
{
    if message.as_bytes().len() > MAX_FIELD_LEN {
        String::from_str("Response too long to display")
    } else {
        message.to_owned()
    }
}

/// Cuts a reply into pieces of at most [`MAX_FIELD_LEN`] characters.
pub fn split_reply(reply: &str) -> (r: Vec<String>)
    ensures
        r@.map_values(|piece: String| piece@) == chunks_of(reply@, MAX_FIELD_LEN as int),
{
    let total: usize = reply.unicode_len();
    let mut pieces: Vec<String> = Vec::new();
    let mut position: usize = 0;
    assert(reply@.skip(0) =~= reply@);
    assert(pieces@.map_values(|piece: String| piece@) =~= Seq::empty());
    while position < total
        invariant
            position <= total,
            total == reply@.len(),
            pieces@.map_values(|piece: String| piece@) + chunks_of(
                reply@.skip(position as int),
                MAX_FIELD_LEN as int,
            ) == chunks_of(reply@, MAX_FIELD_LEN as int),
        decreases total - position,
    {
        let end: usize = if total - position > MAX_FIELD_LEN {
            position + MAX_FIELD_LEN
        } else {
            total
        };
        let piece = reply.substring_char(position, end).to_owned();
        proof {
            let rest = reply@.skip(position as int);
            let before = pieces@.map_values(|piece: String| piece@);
            assert(rest.len() == total - position);
            if total - position > MAX_FIELD_LEN {
                assert(rest.take(MAX_FIELD_LEN as int) =~= reply@.subrange(
                    position as int,
                    end as int,
                ));
                assert(rest.skip(MAX_FIELD_LEN as int) =~= reply@.skip(end as int));
            } else {
                assert(rest =~= reply@.subrange(position as int, end as int));
                assert(reply@.skip(end as int).len() == 0);
                assert(chunks_of(reply@.skip(end as int), MAX_FIELD_LEN as int) =~= Seq::empty());
            }
            assert(chunks_of(rest, MAX_FIELD_LEN as int) =~= seq![piece@] + chunks_of(
                reply@.skip(end as int),
                MAX_FIELD_LEN as int,
            ));
            assert(before.push(piece@) + chunks_of(reply@.skip(end as int), MAX_FIELD_LEN as int)
                =~= before + chunks_of(rest, MAX_FIELD_LEN as int));
        }
        let ghost before = pieces@.map_values(|piece: String| piece@);
        pieces.push(piece);
        assert(pieces@.map_values(|piece: String| piece@) =~= before.push(piece@));
        position = end;
    }
    proof {
        assert(reply@.skip(position as int).len() == 0);
        assert(chunks_of(reply@.skip(position as int), MAX_FIELD_LEN as int) =~= Seq::empty());
        assert(pieces@.map_values(|piece: String| piece@) + Seq::<Seq<char>>::empty()
            =~= pieces@.map_values(|piece: String| piece@));
    }
    pieces
}

/// The digit for `d`, as a string.
fn digit_text(d: usize) -> (r: &'static str)
    requires
        d < 10,
    ensures
        r@ == seq![digit_char(d as int)],
{
    proof {
        reveal_strlit("0");
        reveal_strlit("1");
        reveal_strlit("2");
        reveal_strlit("3");
        reveal_strlit("4");
        reveal_strlit("5");
        reveal_strlit("6");
        reveal_strlit("7");
        reveal_strlit("8");
        reveal_strlit("9");
    }
    let r = if d == 0 {
        "0"
    } else if d == 1 {
        "1"
    } else if d == 2 {
        "2"
    } else if d == 3 {
        "3"
    } else if d == 4 {
        "4"
    } else if d == 5 {
        "5"
    } else if d == 6 {
        "6"
    } else if d == 7 {
        "7"
    } else if d == 8 {
        "8"
    } else {
        "9"
    };
    assert(r@ =~= seq![digit_char(d as int)]);
    r
}

/// Writes `n` as a decimal numeral.
pub fn decimal(n: u128) -> (r: String)
    ensures
        r@ == decimal_text(n as nat),
    decreases n,
{
    if n < 10 {
        String::from_str(digit_text(n as usize))
    } else {
        let mut text = decimal(n / 10);
        text.append(digit_text((n % 10) as usize));
        assert(text@ =~= decimal_text((n / 10) as nat).push(digit_char((n % 10) as int)));
        text
    }
}

/// The title under which piece number `index`, counted from zero, of a reply
/// in `count` pieces is shown.
pub fn chunk_title(index: usize, count: usize) -> (r: String)
    ensures
        r@ == title_of_chunk(index as nat, count as nat),
{
    if count > 1 {
        let mut title = String::from_str("Image Analysis Result (");
        title.append(decimal(index as u128 + 1).as_str());
        title.append(" of ");
        title.append(decimal(count as u128).as_str());
        title.append(")");
        title
    } else {
        String::from_str("Image Analysis Result")
    }
}

/// Cutting a text loses nothing: the pieces, one after the other, are the
/// text.
pub proof fn lemma_chunks_join_to_text(text: Seq<char>, size: int)
    requires
        size > 0,
    ensures
        joined(chunks_of(text, size)) == text,
    decreases text.len(),
{
    let pieces = chunks_of(text, size);
    if text.len() == 0 {
        assert(joined(pieces) =~= text);
    } else if text.len() <= size {
        assert(pieces.drop_first() =~= Seq::<Seq<char>>::empty());
        assert(joined(pieces.drop_first()) =~= Seq::<char>::empty());
        assert(joined(pieces) =~= text);
    } else {
        lemma_chunks_join_to_text(text.skip(size), size);
        assert(pieces.first() == text.take(size));
        assert(pieces.drop_first() =~= chunks_of(text.skip(size), size));
        assert(text.take(size) + text.skip(size) =~= text);
    }
}

/// No piece is empty, and none is longer than the size.
pub proof fn lemma_chunks_are_bounded(text: Seq<char>, size: int, i: int)
    requires
        size > 0,
        0 <= i < chunks_of(text, size).len(),
    ensures
        0 < chunks_of(text, size)[i].len() <= size,
    decreases text.len(),
{
    if text.len() > size && i > 0 {
        lemma_chunks_are_bounded(text.skip(size), size, i - 1);
    }
}

} // verus!
