//! Request headers: the `key=value,key=value` form in which the environment
//! gives them, and the rules of HTTP that names and values must meet.

use crate::error::Error;
use crate::text::{
    chars_of, entries_view, find_char, first_index, pairs_text, trim, trim_bounds,
};
use std::str::FromStr;
use vstd::prelude::*;
use vstd::string::StrSliceExecFns;
use vstd::utf8::encode_utf8;

verus! {

/// The header that one item of a header string gives.
///
/// The item is cut at its first `=`; the key is what stands before it and the
/// value what stands after it, both trimmed. An item without `=`, or with an
/// empty key or an empty value, gives no header.
pub open spec fn header_pair(item: Seq<char>) -> Option<(Seq<char>, Seq<char>)> {
    let at = first_index(item, '=');
    if at >= item.len() {
        None
    } else {
        let key = trim(item.take(at as int));
        let value = trim(item.skip(at as int + 1));
        if key.len() == 0 || value.len() == 0 {
            None
        } else {
            Some((key, value))
        }
    }
}

/// The headers that a header string gives, in the order in which it gives them:
/// the header of its first item, then those of what follows the first comma.
pub open spec fn header_pairs(s: Seq<char>) -> Seq<(Seq<char>, Seq<char>)>
    decreases s.len(),
{
    if s.len() == 0 {
        Seq::empty()
    } else {
        let end = first_index(s, ',');
        let head = match header_pair(s.take(end as int)) {
            Some(pair) => seq![pair],
            None => Seq::empty(),
        };
        if end >= s.len() {
            head
        } else {
            head + header_pairs(s.skip(end as int + 1))
        }
    }
}

/// Every header that a header string gives has a key and a value, and neither
/// is empty.
pub proof fn lemma_header_pairs_are_filled(s: Seq<char>)
    ensures
        forall|i: int|
            0 <= i < header_pairs(s).len() ==> (#[trigger] header_pairs(s)[i]).0.len() > 0
                && header_pairs(s)[i].1.len() > 0,
    decreases s.len(),
{
    if s.len() > 0 {
        let end = first_index(s, ',');
        let head = match header_pair(s.take(end as int)) {
            Some(pair) => seq![pair],
            None => Seq::empty(),
        };
        if end < s.len() {
            let rest = header_pairs(s.skip(end as int + 1));
            lemma_header_pairs_are_filled(s.skip(end as int + 1));
            assert forall|i: int| 0 <= i < header_pairs(s).len() implies (#[trigger] header_pairs(
                s,
            )[i]).0.len() > 0 && header_pairs(s)[i].1.len() > 0 by {
                if i >= head.len() {
                    assert(header_pairs(s)[i] == rest[i - head.len()]);
                }
            }
        }
    }
}

/// Reads a header string: see [`header_pairs`].
pub fn parse_header_string(value: &str) -> (pairs: Vec<(String, String)>)
    ensures
        pairs_text(pairs@) == header_pairs(value@),
        pairs@.len() == header_pairs(value@).len(),
{
    let chars = chars_of(value);
    let n = chars.len();
    let mut pairs: Vec<(String, String)> = Vec::new();
    let mut pos: usize = 0;
    assert(chars@.skip(0) =~= value@);
    assert(pairs_text(pairs@) =~= Seq::empty());
    while pos < n
        invariant
            pos <= n == chars.len(),
            chars@ == value@,
            header_pairs(value@) == pairs_text(pairs@) + header_pairs(chars@.skip(pos as int)),
        decreases n - pos,
    {
        let ghost rest = chars@.skip(pos as int);
        let ghost before = pairs_text(pairs@);
        let end = find_char(&chars, pos, n, ',');
        let eq = find_char(&chars, pos, end, '=');
        proof {
            assert(rest =~= chars@.subrange(pos as int, n as int));
            let item = rest.take(end - pos);
            assert(item =~= chars@.subrange(pos as int, end as int));
            assert(item.take(eq - pos) =~= chars@.subrange(pos as int, eq as int));
            if eq < end {
                assert(item.skip(eq - pos + 1) =~= chars@.subrange(eq as int + 1, end as int));
            }
            if end < n {
                assert(rest.skip(end - pos + 1) =~= chars@.skip(end as int + 1));
            }
        }
        if eq < end {
            let (key_from, key_to) = trim_bounds(&chars, pos, eq);
            let (value_from, value_to) = trim_bounds(&chars, eq + 1, end);
            if key_from < key_to && value_from < value_to {
                let key = value.substring_char(key_from, key_to).to_owned();
                let text = value.substring_char(value_from, value_to).to_owned();
                pairs.push((key, text));
                assert(pairs_text(pairs@) =~= before + seq![(key@, text@)]);
            }
        }
        proof {
            let head = match header_pair(rest.take(end - pos)) {
                Some(pair) => seq![pair],
                None => Seq::empty(),
            };
            assert(pairs_text(pairs@) =~= before + head);
        }
        if end < n {
            pos = end + 1;
        } else {
            pos = n;
            assert(chars@.skip(n as int).len() == 0);
        }
    }
    assert(chars@.skip(pos as int).len() == 0);
    pairs
}

/// The longest header name, in bytes.
pub const MAX_HEADER_NAME_LEN: usize = 65535;

/// The bytes that HTTP lets a header name hold: the digits, the letters, and
/// the fifteen signs `!` `#` `$` `%` `&` `'` `*` `+` `-` `.` `^` `_` `` ` `` `|`
/// and `~`.
pub open spec fn header_name_byte_allowed(b: u8) -> bool {
    ||| 48 <= b <= 57
    ||| 65 <= b <= 90
    ||| 97 <= b <= 122
    ||| b == 33 || (35 <= b <= 39)
    ||| b == 42 || b == 43 || b == 45 || b == 46
    ||| (94 <= b <= 96)
    ||| b == 124 || b == 126
}

/// Whether `name` may stand as a header name: as UTF-8 it is at least one byte
/// and at most [`MAX_HEADER_NAME_LEN`] bytes long, and every byte may stand in a
/// header name.
pub open spec fn header_name_accepted(name: Seq<char>) -> bool {
    &&& 1 <= encode_utf8(name).len() <= MAX_HEADER_NAME_LEN
    &&& forall|i: int|
        0 <= i < encode_utf8(name).len() ==> header_name_byte_allowed(
            #[trigger] encode_utf8(name)[i],
        )
}

/// The bytes that HTTP lets a header value hold: the tab, and everything from
/// the space on but the delete character.
pub open spec fn header_value_byte_allowed(b: u8) -> bool {
    (b >= 32 && b != 127) || b == 9
}

/// Whether every byte of `value` may stand in a header value.
pub open spec fn header_value_accepted(value: Seq<u8>) -> bool {
    forall|i: int| 0 <= i < value.len() ==> header_value_byte_allowed(#[trigger] value[i])
}

/// The entries that pairs of text give: each name as it is, each value as the
/// bytes of its UTF-8 form.
pub open spec fn encoded(pairs: Seq<(Seq<char>, Seq<char>)>) -> Seq<(Seq<char>, Seq<u8>)> {
    Seq::new(pairs.len(), |i: int| (pairs[i].0, encode_utf8(pairs[i].1)))
}

/// Turns pairs of text into entries: see [`encoded`].
pub fn encode_pairs(pairs: &Vec<(String, String)>) -> (entries: Vec<(String, Vec<u8>)>)
    ensures
        entries_view(entries@) == encoded(pairs_text(pairs@)),
{
    let mut entries: Vec<(String, Vec<u8>)> = Vec::new();
    let mut i: usize = 0;
    while i < pairs.len()
        invariant
            i <= pairs.len(),
            entries_view(entries@) =~= encoded(pairs_text(pairs@)).take(i as int),
        decreases pairs.len() - i,
    {
        let name = pairs[i].0.clone();
        let value = pairs[i].1.as_str().as_bytes_vec();
        let ghost before = entries_view(entries@);
        entries.push((name, value));
        assert(entries_view(entries@) =~= before + seq![(name@, value@)]);
        assert(encoded(pairs_text(pairs@)).take(i as int + 1) =~= encoded(pairs_text(pairs@)).take(
            i as int,
        ) + seq![(name@, value@)]);
        i += 1;
    }
    assert(encoded(pairs_text(pairs@)).take(i as int) =~= encoded(pairs_text(pairs@)));
    entries
}

/// Calls `http::header::HeaderName::from_str` and keeps only whether it took
/// the name. It takes a name exactly when the name is 1 to 65535 bytes long and
/// each of its bytes is a digit, a letter or one of the fifteen signs of an
/// HTTP token.
#[verifier::external_body]
fn check_header_name(name: &str) -> (checked: Result<(), http::header::InvalidHeaderName>)
    ensures
        checked is Ok <==> header_name_accepted(name@),
{
    match http::header::HeaderName::from_str(name) {
        Ok(_) => Ok(()),
        Err(e) => Err(e),
    }
}

/// Calls `http::header::HeaderValue::from_bytes` and keeps only whether it
/// took the value. It takes a value exactly when each of its bytes is a tab or
/// is at least 32 and not 127.
#[verifier::external_body]
fn check_header_value(value: &[u8]) -> (checked: Result<(), http::header::InvalidHeaderValue>)
    ensures
        checked is Ok <==> header_value_accepted(value@),
{
    match http::header::HeaderValue::from_bytes(value) {
        Ok(_) => Ok(()),
        Err(e) => Err(e),
    }
}

/// Whether both the name and the value of a header may be sent.
pub open spec fn header_accepted(pair: (Seq<char>, Seq<u8>)) -> bool {
    header_name_accepted(pair.0) && header_value_accepted(pair.1)
}

/// The position of the first header that may not be sent, or the number of
/// headers if all may.
pub open spec fn first_rejected(pairs: Seq<(Seq<char>, Seq<u8>)>) -> nat
    decreases pairs.len(),
{
    if pairs.len() == 0 {
        0
    } else if !header_accepted(pairs[0]) {
        0
    } else {
        1 + first_rejected(pairs.drop_first())
    }
}

/// `first_rejected` stays inside the sequence, points at a header that may not
/// be sent when it points at anything, and passes none on its way.
pub proof fn lemma_first_rejected(pairs: Seq<(Seq<char>, Seq<u8>)>)
    ensures
        first_rejected(pairs) <= pairs.len(),
        first_rejected(pairs) < pairs.len() ==> !header_accepted(
            pairs[first_rejected(pairs) as int],
        ),
        forall|j: int| 0 <= j < first_rejected(pairs) ==> header_accepted(#[trigger] pairs[j]),
    decreases pairs.len(),
{
    if pairs.len() > 0 && header_accepted(pairs[0]) {
        let rest = pairs.drop_first();
        lemma_first_rejected(rest);
        assert forall|j: int| 0 <= j < first_rejected(pairs) implies header_accepted(
            #[trigger] pairs[j],
        ) by {
            if j > 0 {
                assert(pairs[j] == rest[j - 1]);
            }
        }
    }
}

/// A position that may not be sent and follows only headers that may is the
/// first rejected one.
pub proof fn lemma_first_rejected_found(pairs: Seq<(Seq<char>, Seq<u8>)>, at: int)
    requires
        0 <= at <= pairs.len(),
        at < pairs.len() ==> !header_accepted(pairs[at]),
        forall|j: int| 0 <= j < at ==> header_accepted(#[trigger] pairs[j]),
    ensures
        first_rejected(pairs) == at,
{
    lemma_first_rejected(pairs);
    let found = first_rejected(pairs) as int;
    if found < at {
        assert(header_accepted(pairs[found]));
    } else if at < found {
        assert(header_accepted(pairs[at]));
    }
}

/// What [`check_headers`] owes for `pairs`: success where every header may be
/// sent, and else the error for the first that may not, which speaks of the name
/// where the name is refused and of the value where only the value is.
pub open spec fn headers_checked(
    pairs: Seq<(Seq<char>, Seq<u8>)>,
    outcome: Result<(), Error>,
) -> bool {
    let at = first_rejected(pairs) as int;
    if at >= pairs.len() {
        outcome is Ok
    } else if !header_name_accepted(pairs[at].0) {
        outcome matches Err(e) && e is InvalidHeaderName
    } else {
        outcome matches Err(e) && e is InvalidHeaderValue
    }
}

/// Checks each header in turn, name before value, and stops at the first that
/// may not be sent.
pub fn check_headers(pairs: &Vec<(String, Vec<u8>)>) -> (outcome: Result<(), Error>)
    ensures
        headers_checked(entries_view(pairs@), outcome),
{
    let ghost texts = entries_view(pairs@);
    let mut i: usize = 0;
    while i < pairs.len()
        invariant
            i <= pairs.len(),
            texts == entries_view(pairs@),
            forall|j: int| 0 <= j < i ==> header_accepted(#[trigger] texts[j]),
        decreases pairs.len() - i,
    {
        assert(texts[i as int] == (pairs@[i as int].0@, pairs@[i as int].1@));
        match check_header_name(pairs[i].0.as_str()) {
            Ok(()) => {},
            Err(e) => {
                proof {
                    lemma_first_rejected_found(texts, i as int);
                }
                return Err(Error::from_invalid_header_name(e));
            },
        }
        match check_header_value(pairs[i].1.as_slice()) {
            Ok(()) => {},
            Err(e) => {
                proof {
                    lemma_first_rejected_found(texts, i as int);
                }
                return Err(Error::from_invalid_header_value(e));
            },
        }
        i += 1;
    }
    proof {
        lemma_first_rejected_found(texts, pairs.len() as int);
    }
    Ok(())
}

} // verus!
