//! Texts at the boundary: C strings, UTF-8 and lists of names.

use vstd::prelude::*;
use vstd::slice::slice_to_vec;
use vstd::string::StringSliceAdditionalSpecFns;
use vstd::utf8::{decode_utf8, encode_utf8, encode_utf8_decode_utf8, valid_utf8};

verus! {

/// The model of an optional text.
pub open spec fn optional_text(t: Option<String>) -> Option<Seq<char>> {
    match t {
        Some(s) => Some(s@),
        None => None,
    }
}

/// The bytes of the C string that carries a text: the bytes of the text and
/// a closing NUL, or the empty C string where the text holds a NUL itself.
pub open spec fn c_string_bytes(text: Seq<u8>) -> Seq<u8> {
    if text.contains(0u8) {
        seq![0u8]
    } else {
        text.push(0u8)
    }
}

/// Makes the bytes of the C string that carries a text.
pub fn to_c_string(s: &str) -> (bytes: Vec<u8>)
    ensures
        bytes@ == c_string_bytes(s.spec_bytes()),
{
    let text = s.as_bytes();
    let mut i: usize = 0;
    while i < text.len()
        invariant
            i <= text.len(),
            text@ == s.spec_bytes(),
            forall|k: int| 0 <= k < i ==> text@[k] != 0u8,
        decreases text.len() - i,
    {
        if text[i] == 0 {
            let mut empty: Vec<u8> = Vec::new();
            empty.push(0);
            assert(text@.contains(0u8));
            assert(empty@ =~= seq![0u8]);
            return empty;
        }
        i += 1;
    }
    let mut bytes = slice_to_vec(text);
    bytes.push(0);
    bytes
}

/// Reads bytes as UTF-8 with `std::str::from_utf8`.  The result is a text
/// with exactly these bytes where they are valid UTF-8, and absent where
/// they are not.
#[verifier::external_body]
fn utf8_text(bytes: &[u8]) -> (r: Option<String>)
    ensures
        match r {
            Some(s) => valid_utf8(bytes@) && encode_utf8(s@) == bytes@,
            None => !valid_utf8(bytes@),
        },
{
    std::str::from_utf8(bytes).ok().map(|s| s.to_owned())
}

/// What reading a text argument gives: the text, or the message that the
/// argument is missing or is not valid UTF-8.
pub open spec fn text_argument(bytes: Option<Seq<u8>>, name: Seq<char>) -> Result<Seq<char>, Seq<char>> {
    match bytes {
        None => Err(name + " is NULL"@),
        Some(b) => if valid_utf8(b) {
            Ok(decode_utf8(b))
        } else {
            Err(name + " is not valid UTF-8"@)
        },
    }
}

/// The model of optional bytes.
pub open spec fn optional_bytes(bytes: Option<&[u8]>) -> Option<Seq<u8>> {
    match bytes {
        Some(b) => Some(b@),
        None => None,
    }
}

/// The model of the outcome of reading a text.
pub open spec fn outcome_text(r: Result<String, String>) -> Result<Seq<char>, Seq<char>> {
    match r {
        Ok(s) => Ok(s@),
        Err(e) => Err(e@),
    }
}

/// Reads a text argument: the bytes of a C string without its NUL, if the
/// caller gave any.
pub fn parse_c_str(bytes: Option<&[u8]>, name: &str) -> (r: Result<String, String>)
    ensures
        outcome_text(r) == text_argument(optional_bytes(bytes), name@),
{
    match bytes {
        None => {
            let mut message = name.to_owned();
            message.append(" is NULL");
            Err(message)
        },
        Some(b) => match utf8_text(b) {
            Some(s) => {
                proof {
                    encode_utf8_decode_utf8(s@);
                }
                Ok(s)
            },
            None => {
                let mut message = name.to_owned();
                message.append(" is not valid UTF-8");
                Err(message)
            },
        },
    }
}

/// Whether a character has the White_Space property of Unicode: the
/// controls from tab to carriage return, the space, the next-line control,
/// the no-break space, the ogham space mark, the spaces from en quad to hair
/// space, the line and paragraph separators, the narrow no-break space, the
/// medium mathematical space and the ideographic space.
pub open spec fn is_white_space(c: char) -> bool {
    let code = c as u32;
    ||| 0x09 <= code <= 0x0d
    ||| code == 0x20
    ||| code == 0x85
    ||| code == 0xa0
    ||| code == 0x1680
    ||| 0x2000 <= code <= 0x200a
    ||| code == 0x2028
    ||| code == 0x2029
    ||| code == 0x202f
    ||| code == 0x205f
    ||| code == 0x3000
}

/// Tells whether a character is white space, as `char::is_whitespace` does.
pub fn char_is_whitespace(c: char) -> (r: bool)
    ensures
        r == is_white_space(c),
{
    let code: u32 = c as u32;
    (0x09 <= code && code <= 0x0d) || code == 0x20 || code == 0x85 || code == 0xa0 || code == 0x1680 || (0x2000
        <= code && code <= 0x200a) || code == 0x2028 || code == 0x2029 || code == 0x202f || code == 0x205f
        || code == 0x3000
}

/// The first position at or after `i` that holds no white space, or the
/// length where there is none.
pub open spec fn first_kept(s: Seq<char>, i: int) -> int
    decreases s.len() - i,
{
    if i < 0 || i >= s.len() || !is_white_space(s[i]) {
        i
    } else {
        first_kept(s, i + 1)
    }
}

/// The end of the last stretch before `j` that holds no white space, no
/// lower than `lo`.
pub open spec fn last_kept(s: Seq<char>, lo: int, j: int) -> int
    decreases j,
{
    if j <= lo || j <= 0 || j > s.len() || !is_white_space(s[j - 1]) {
        j
    } else {
        last_kept(s, lo, j - 1)
    }
}

/// A text without the white space at its start and at its end.
pub open spec fn trimmed(s: Seq<char>) -> Seq<char> {
    let lo = first_kept(s, 0);
    s.subrange(lo, last_kept(s, lo, s.len() as int))
}

/// The names in the part of a list from position `i` on, where the name
/// being read began at `start`: a comma ends a name, and each name is
/// trimmed.
pub open spec fn names_from(s: Seq<char>, start: int, i: int) -> Seq<Seq<char>>
    decreases s.len() - i,
{
    if i < 0 || i >= s.len() {
        seq![trimmed(s.subrange(start, s.len() as int))]
    } else if s[i] == ',' {
        seq![trimmed(s.subrange(start, i))] + names_from(s, i + 1, i + 1)
    } else {
        names_from(s, start, i + 1)
    }
}

/// The names in a list separated by commas; an empty list holds no name.
pub open spec fn function_names(s: Seq<char>) -> Seq<Seq<char>> {
    if s.len() == 0 {
        seq![]
    } else {
        names_from(s, 0, 0)
    }
}

/// The texts of a sequence of strings.
pub open spec fn name_texts(names: Seq<String>) -> Seq<Seq<char>> {
    names.map_values(|s: String| s@)
}

/// Trims the part of a text between two positions.
fn trim_part(s: &str, from: usize, to: usize) -> (r: String)
    requires
        from <= to <= s@.len(),
    ensures
        r@ == trimmed(s@.subrange(from as int, to as int)),
{
    let ghost part = s@.subrange(from as int, to as int);
    let mut lo: usize = from;
    let mut scanning = true;
    while scanning && lo < to
        invariant
            from <= lo <= to <= s@.len(),
            part == s@.subrange(from as int, to as int),
            first_kept(part, 0) == first_kept(part, lo - from),
            !scanning ==> lo < to && !is_white_space(part[lo - from]),
        decreases to - lo + (if scanning { 1int } else { 0int }),
    {
        let c = s.get_char(lo);
        assert(part[lo - from] == c);
        if char_is_whitespace(c) {
            lo += 1;
        } else {
            scanning = false;
        }
    }
    let ghost kept = (lo - from) as int;
    assert(first_kept(part, 0) == kept);
    let mut hi: usize = to;
    scanning = true;
    while scanning && hi > lo
        invariant
            from <= lo <= hi <= to <= s@.len(),
            part == s@.subrange(from as int, to as int),
            kept == lo - from,
            last_kept(part, kept, part.len() as int) == last_kept(part, kept, hi - from),
            !scanning ==> hi > lo && !is_white_space(part[hi - 1 - from]),
        decreases hi + (if scanning { 1int } else { 0int }),
    {
        let c = s.get_char(hi - 1);
        assert(part[hi - 1 - from] == c);
        if char_is_whitespace(c) {
            hi -= 1;
        } else {
            scanning = false;
        }
    }
    assert(last_kept(part, kept, part.len() as int) == hi - from);
    let piece = s.substring_char(lo, hi);
    assert(piece@ =~= trimmed(part));
    piece.to_owned()
}

/// Reads a list of names separated by commas, trimming each name.
pub fn split_names(s: &str) -> (names: Vec<String>)
    ensures
        name_texts(names@) == function_names(s@),
{
    let n = s.unicode_len();
    let mut names: Vec<String> = Vec::new();
    if n == 0 {
        assert(name_texts(names@) =~= function_names(s@));
        return names;
    }
    let mut start: usize = 0;
    let mut i: usize = 0;
    while i < n
        invariant
            start <= i <= n,
            n == s@.len(),
            name_texts(names@) + names_from(s@, start as int, i as int) == names_from(s@, 0, 0),
        decreases n - i,
    {
        let c = s.get_char(i);
        if c == ',' {
            let name = trim_part(s, start, i);
            let ghost before = name_texts(names@);
            names.push(name);
            assert(name_texts(names@) =~= before + seq![trimmed(s@.subrange(start as int, i as int))]);
            assert(before + names_from(s@, start as int, i as int) =~= name_texts(names@) + names_from(
                s@,
                i + 1,
                i + 1,
            ));
            start = i + 1;
        }
        i += 1;
    }
    let name = trim_part(s, start, n);
    let ghost before = name_texts(names@);
    names.push(name);
    assert(name_texts(names@) =~= before + seq![trimmed(s@.subrange(start as int, n as int))]);
    names
}

} // verus!
