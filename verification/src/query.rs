//! Form-encoded query strings: `key=value` items separated by `&`.
//!
//! The text is handled as its UTF-8 bytes. Both separators are ASCII, and in
//! UTF-8 an ASCII byte is never part of a longer character, so cutting at
//! them cuts between characters.

use vstd::prelude::*;
use vstd::slice::{slice_subrange, slice_to_vec};
use vstd::string::*;
use vstd::utf8::*;
use crate::text::string_from_utf8;
use crate::types::Bytes;

verus! {

/// The byte that separates the items of a query string: `&`.
pub const AMPERSAND: u8 = 0x26;

/// The byte that separates a key from its value: `=`.
pub const EQUALS: u8 = 0x3d;

/// Where the item that begins at `start` ends: at the next `&`, or at the
/// end of the text.
pub open spec fn item_end(body: Seq<u8>, start: int) -> int
    decreases body.len() - start,
{
    if start < 0 || start >= body.len() {
        body.len() as int
    } else if body[start] == AMPERSAND {
        start
    } else {
        item_end(body, start + 1)
    }
}

/// What an item must begin with to give the parameter `name`: the name and
/// a `=`.
pub open spec fn query_key(name: Seq<u8>) -> Seq<u8> {
    name.push(EQUALS)
}

/// The value of the first item at or after `start` that begins with `key`,
/// where `start` is the beginning of an item.
pub open spec fn query_value_from(body: Seq<u8>, key: Seq<u8>, start: int) -> Option<Seq<u8>>
    decreases body.len() - start,
{
    if start < 0 || start > body.len() {
        None
    } else {
        let end = item_end(body, start);
        let item = body.subrange(start, end);
        if key.is_prefix_of(item) {
            Some(item.skip(key.len() as int))
        } else if start <= end < body.len() {
            query_value_from(body, key, end + 1)
        } else {
            None
        }
    }
}

/// The value of the parameter `name` in the query string `body`: what
/// follows `name=` in the first item that begins so.
pub open spec fn query_param(body: Seq<u8>, name: Seq<u8>) -> Option<Seq<u8>> {
    query_value_from(body, query_key(name), 0)
}

/// The name of the book that a request body asks for: the parameter `name`
/// of a body that is text.
pub open spec fn book_name(body: Option<Seq<u8>>) -> Option<Seq<char>> {
    match body {
        Some(bytes) => if valid_utf8(bytes) {
            match query_param(bytes, "name".spec_bytes()) {
                Some(value) => Some(decode_utf8(value)),
                None => None,
            }
        } else {
            None
        },
        None => None,
    }
}

/// An item ends within the text, at or after its beginning.
pub proof fn lemma_item_end_bounds(body: Seq<u8>, start: int)
    requires
        0 <= start <= body.len(),
    ensures
        start <= item_end(body, start) <= body.len(),
        item_end(body, start) < body.len() ==> body[item_end(body, start)] == AMPERSAND,
        forall|i: int| start <= i < item_end(body, start) ==> body[i] != AMPERSAND,
    decreases body.len() - start,
{
    if start < body.len() && body[start] != AMPERSAND {
        lemma_item_end_bounds(body, start + 1);
    }
}

/// In text, what stands between the byte after an ASCII byte and the next
/// ASCII byte (or the end) is text.
pub proof fn lemma_delimited_text(bytes: Seq<u8>, from: int, end: int)
    requires
        valid_utf8(bytes),
        0 < from <= end <= bytes.len(),
        is_leading_byte_width_1(bytes[from - 1]),
        end == bytes.len() || is_leading_byte_width_1(bytes[end]),
    ensures
        valid_utf8(bytes.subrange(from, end)),
{
    let whole = bytes.len() as int;
    is_char_boundary_iff_not_is_continuation_byte(bytes, from - 1);
    valid_utf8_split(bytes, from - 1);
    let tail = bytes.subrange(from - 1, whole);
    let rest = bytes.subrange(from, whole);
    assert(pop_first_scalar(tail) =~= rest);
    let cut = end - from;
    if cut != rest.len() {
        is_char_boundary_iff_not_is_continuation_byte(rest, cut);
        valid_utf8_split(rest, cut);
        assert(rest.subrange(0, cut) =~= bytes.subrange(from, end));
    }
}

fn find_item_end(body: &[u8], start: usize) -> (end: usize)
    requires
        start <= body@.len(),
    ensures
        end == item_end(body@, start as int),
        start <= end <= body@.len(),
{
    let mut end = start;
    while end < body.len() && body[end] != AMPERSAND
        invariant
            start <= end <= body@.len(),
            item_end(body@, end as int) == item_end(body@, start as int),
        decreases body@.len() - end,
    {
        end = end + 1;
    }
    end
}

fn item_has_key(body: &[u8], start: usize, end: usize, name: &[u8]) -> (found: bool)
    requires
        start <= end <= body@.len(),
    ensures
        found == query_key(name@).is_prefix_of(body@.subrange(start as int, end as int)),
{
    let ghost key = query_key(name@);
    let ghost item = body@.subrange(start as int, end as int);
    if end - start <= name.len() {
        return false;
    }
    let mut i: usize = 0;
    while i < name.len()
        invariant
            i <= name@.len(),
            start <= end <= body@.len(),
            end - start > name@.len(),
            key == query_key(name@),
            item == body@.subrange(start as int, end as int),
            forall|j: int| 0 <= j < i ==> item[j] == key[j],
        decreases name@.len() - i,
    {
        if body[start + i] != name[i] {
            assert(key.is_prefix_of(item) ==> item.subrange(0, key.len() as int)[i as int]
                == key[i as int]);
            return false;
        }
        i = i + 1;
    }
    let found = body[start + name.len()] == EQUALS;
    proof {
        let last = name@.len() as int;
        if !found {
            assert(key.is_prefix_of(item) ==> item.subrange(0, key.len() as int)[last]
                == key[last]);
        }
    }
    found
}

/// Looks up the parameter `param_name` in the query string `body`.
pub fn get_query_param(body: &str, param_name: &str) -> (value: Option<String>)
    ensures
        match query_param(body.spec_bytes(), param_name.spec_bytes()) {
            Some(bytes) => {
                &&& valid_utf8(bytes)
                &&& value matches Some(text)
                &&& text@ == decode_utf8(bytes)
            },
            None => value is None,
        },
{
    let bytes = body.as_bytes();
    let name = param_name.as_bytes();
    let mut start: usize = 0;
    loop
        invariant
            bytes@ == body.spec_bytes(),
            name@ == param_name.spec_bytes(),
            start <= bytes@.len(),
            query_value_from(bytes@, query_key(name@), start as int) == query_param(
                bytes@,
                name@,
            ),
        decreases bytes@.len() - start,
    {
        let end = find_item_end(bytes, start);
        if item_has_key(bytes, start, end, name) {
            let from = start + name.len() + 1;
            let value = slice_to_vec(slice_subrange(bytes, from, end));
            proof {
                let item = bytes@.subrange(start as int, end as int);
                assert(item.skip(query_key(name@).len() as int) =~= bytes@.subrange(
                    from as int,
                    end as int,
                ));
                let key = query_key(name@);
                assert(item.subrange(0, key.len() as int)[name@.len() as int] == key[name@.len() as int]);
                encode_utf8_valid_utf8(body@);
                lemma_item_end_bounds(bytes@, start as int);
                lemma_delimited_text(bytes@, from as int, end as int);
            }
            return string_from_utf8(value);
        }
        if end >= bytes.len() {
            return None;
        }
        start = end + 1;
    }
}

/// Finds the name of the book that a request body asks for.
pub fn get_book_name(body: &Option<Bytes>) -> (name: Option<String>)
    ensures
        match book_name(crate::hostcalls::bytes_view(*body)) {
            Some(text) => {
                &&& name matches Some(found)
                &&& found@ == text
            },
            None => name is None,
        },
{
    match body {
        Some(bytes) => match string_from_utf8(slice_to_vec(bytes.as_slice())) {
            Some(text) => {
                proof {
                    decode_utf8_encode_utf8(bytes@);
                }
                get_query_param(text.as_str(), "name")
            },
            None => None,
        },
        None => None,
    }
}

} // verus!
