//! Reading JSON wire documents.
//!
//! The grammar accepted here is JSON as this API's wire format uses it:
//! objects, arrays, strings with every escape including `\uXXXX`,
//! booleans, null, and numbers. A number that is a plain unsigned
//! 64-bit integer becomes its value; any other well-formed number (a
//! signed, fractional, exponent or oversized one) is kept as the opaque
//! [`Json::NumOther`] marker, so that a field this library does not
//! read never fails a decode, while a field it does read rejects it as
//! malformed. The grammar itself is the family of `parse_*` spec
//! functions below; the executable reader is proved to return exactly
//! what they say, for every input.

use vstd::prelude::*;

verus! {

/// Relies on String::push: it appends the given character to the end
/// of the string.
pub assume_specification[ String::push ](s: &mut String, c: char)
    ensures
        final(s)@ == old(s)@.push(c),
;

/// Relies on char::from_u32: it returns the character with the given
/// code point, and `None` exactly for the values that are no Unicode
/// scalar value (the surrogate range and everything past 0x10FFFF).
pub assume_specification[ char::from_u32 ](v: u32) -> (r: Option<char>)
    ensures
        r == (if v < 0xD800 || (0xE000 <= v && v <= 0x10FFFF) {
            Some(v as char)
        } else {
            None::<char>
        }),
;

/// A JSON value.
#[derive(Debug, PartialEq)]
pub enum Json {
    Null,
    Bool(bool),
    Num(u64),
    /// A well-formed number that is not a plain unsigned 64-bit
    /// integer: signed, fractional, with an exponent, or too large.
    /// Kept opaque so that such a number in an ignored field does not
    /// fail the document; a schema that reads it rejects it.
    NumOther,
    Str(String),
    Arr(Vec<Json>),
    Obj(Vec<(String, Json)>),
}

/// The ghost image of a [`Json`] value.
pub enum JsonV {
    Null,
    Bool(bool),
    Num(u64),
    NumOther,
    Str(Seq<char>),
    Arr(Seq<JsonV>),
    Obj(Seq<(Seq<char>, JsonV)>),
}

impl DeepView for Json {
    type V = JsonV;

    open spec fn deep_view(&self) -> JsonV
        decreases self, 0int,
    {
        match self {
            Json::Null => JsonV::Null,
            Json::Bool(b) => JsonV::Bool(*b),
            Json::Num(n) => JsonV::Num(*n),
            Json::NumOther => JsonV::NumOther,
            Json::Str(s) => JsonV::Str(s@),
            Json::Arr(items) => {
                proof {
                    assert(decreases_to!(*self => *items));
                    assert(decreases_to!(*items => items@));
                }
                JsonV::Arr(arr_view(items@))
            },
            Json::Obj(fields) => {
                proof {
                    assert(decreases_to!(*self => *fields));
                    assert(decreases_to!(*fields => fields@));
                }
                JsonV::Obj(obj_view(fields@))
            },
        }
    }
}

/// The ghost images of a sequence of JSON values, in order.
pub open spec fn arr_view(s: Seq<Json>) -> Seq<JsonV>
    decreases s, 1int,
{
    if s.len() == 0 {
        Seq::empty()
    } else {
        proof {
            assert(decreases_to!(s => s.subrange(0, s.len() - 1)));
            assert(decreases_to!(s => s[s.len() - 1]));
        }
        arr_view(s.subrange(0, s.len() - 1)).push(s[s.len() - 1].deep_view())
    }
}

/// The ghost images of a sequence of JSON object members, in order.
pub open spec fn obj_view(s: Seq<(String, Json)>) -> Seq<(Seq<char>, JsonV)>
    decreases s, 1int,
{
    if s.len() == 0 {
        Seq::empty()
    } else {
        proof {
            assert(decreases_to!(s => s.subrange(0, s.len() - 1)));
            assert(decreases_to!(s => s[s.len() - 1]));
            assert(decreases_to!(s[s.len() - 1] => s[s.len() - 1].1));
        }
        obj_view(s.subrange(0, s.len() - 1)).push(
            (s[s.len() - 1].0@, s[s.len() - 1].1.deep_view()),
        )
    }
}

/// The value of the first member named `key` at or after position `i`.
pub open spec fn obj_get_from(fields: Seq<(Seq<char>, JsonV)>, key: Seq<char>, i: int) -> Option<
    JsonV,
>
    decreases fields.len() - i,
{
    if i < 0 || i >= fields.len() {
        None
    } else if fields[i].0 == key {
        Some(fields[i].1)
    } else {
        obj_get_from(fields, key, i + 1)
    }
}

/// The value of the first member named `key`, if the object has one.
pub open spec fn spec_obj_get(fields: Seq<(Seq<char>, JsonV)>, key: Seq<char>) -> Option<JsonV> {
    obj_get_from(fields, key, 0)
}

/// Look up the first member named `key`.
pub fn obj_get<'a>(fields: &'a Vec<(String, Json)>, key: &str) -> (r: Option<&'a Json>)
    ensures
        match r {
            Some(j) => spec_obj_get(obj_view(fields@), key@) == Some(j.deep_view()),
            None => spec_obj_get(obj_view(fields@), key@) is None,
        },
{
    let k = String::from_str(key);
    let mut i: usize = 0;
    while i < fields.len()
        invariant
            k@ == key@,
            i <= fields.len(),
            obj_get_from(obj_view(fields@), key@, 0) == obj_get_from(
                obj_view(fields@),
                key@,
                i as int,
            ),
        decreases fields.len() - i,
    {
        proof {
            lemma_obj_view_props(fields@);
        }
        let f = &fields[i];
        if f.0.eq(&k) {
            return Some(&f.1);
        }
        i = i + 1;
    }
    proof {
        lemma_obj_view_props(fields@);
    }
    None
}

/// The image of each element, elementwise.
pub proof fn lemma_arr_view_props(s: Seq<Json>)
    ensures
        arr_view(s).len() == s.len(),
        forall|i: int| 0 <= i < s.len() ==> #[trigger] arr_view(s)[i] == s[i].deep_view(),
    decreases s.len(),
{
    if s.len() > 0 {
        let bl = s.subrange(0, s.len() - 1);
        lemma_arr_view_props(bl);
        assert(arr_view(s) == arr_view(bl).push(s[s.len() - 1].deep_view()));
        assert forall|i: int| 0 <= i < s.len() implies #[trigger] arr_view(s)[i]
            == s[i].deep_view() by {
            if i < s.len() - 1 {
                assert(arr_view(s)[i] == arr_view(bl)[i]);
                assert(bl[i] == s[i]);
            }
        }
    }
}

/// The image of each member, elementwise.
pub proof fn lemma_obj_view_props(s: Seq<(String, Json)>)
    ensures
        obj_view(s).len() == s.len(),
        forall|i: int| 0 <= i < s.len() ==> #[trigger] obj_view(s)[i] == (
            s[i].0@,
            s[i].1.deep_view(),
        ),
    decreases s.len(),
{
    if s.len() > 0 {
        let bl = s.subrange(0, s.len() - 1);
        lemma_obj_view_props(bl);
        assert(obj_view(s) == obj_view(bl).push(
            (s[s.len() - 1].0@, s[s.len() - 1].1.deep_view()),
        ));
        assert forall|i: int| 0 <= i < s.len() implies #[trigger] obj_view(s)[i] == (
            s[i].0@,
            s[i].1.deep_view(),
        ) by {
            if i < s.len() - 1 {
                assert(obj_view(s)[i] == obj_view(bl)[i]);
                assert(bl[i] == s[i]);
            }
        }
    }
}

/// A character the grammar treats as insignificant whitespace.
pub open spec fn is_ws(c: char) -> bool {
    c == ' ' || c == '\t' || c == '\n' || c == '\r'
}

/// An ASCII decimal digit.
pub open spec fn is_digit(c: char) -> bool {
    '0' <= c && c <= '9'
}

/// The numeric value of an ASCII decimal digit.
pub open spec fn digit_val(c: char) -> nat {
    (c as int - '0' as int) as nat
}

/// The character named by a single-character escape, if the escape is
/// one the grammar knows. The `\uXXXX` form is not part of the accepted
/// subset.
pub open spec fn escape_char(c: char) -> Option<char> {
    if c == '"' {
        Some('"')
    } else if c == '\\' {
        Some('\\')
    } else if c == '/' {
        Some('/')
    } else if c == 'b' {
        Some('\u{8}')
    } else if c == 'f' {
        Some('\u{c}')
    } else if c == 'n' {
        Some('\n')
    } else if c == 'r' {
        Some('\r')
    } else if c == 't' {
        Some('\t')
    } else {
        None
    }
}

/// The index of the first non-digit at or after `i`.
pub open spec fn digits_end(s: Seq<char>, i: int) -> int
    decreases s.len() - i,
{
    if i < 0 || i >= s.len() {
        i
    } else if is_digit(s[i]) {
        digits_end(s, i + 1)
    } else {
        i
    }
}

/// The value of the decimal digits `s[i..j]`, most significant first.
pub open spec fn digits_val(s: Seq<char>, i: int, j: int) -> nat
    decreases j - i,
{
    if i >= j {
        0
    } else {
        digits_val(s, i, j - 1) * 10 + digit_val(s[j - 1])
    }
}

/// The end of a number's optional fraction part, starting just after
/// the integer digits; `None` when a point is not followed by a digit.
pub open spec fn frac_end(s: Seq<char>, j: int) -> Option<int> {
    if 0 <= j < s.len() && s[j] == '.' {
        let k = digits_end(s, j + 1);
        if k == j + 1 {
            None
        } else {
            Some(k)
        }
    } else {
        Some(j)
    }
}

/// The end of a number's optional exponent part; `None` when a started
/// exponent has no digits.
pub open spec fn exp_end(s: Seq<char>, j: int) -> Option<int> {
    if 0 <= j < s.len() && (s[j] == 'e' || s[j] == 'E') {
        let j1 = if j + 1 < s.len() && (s[j + 1] == '+' || s[j + 1] == '-') {
            j + 2
        } else {
            j + 1
        };
        let k = digits_end(s, j1);
        if k == j1 {
            None
        } else {
            Some(k)
        }
    } else {
        Some(j)
    }
}

/// Parse a number starting at `s[i]` (a minus sign or a digit): an
/// optional sign, integer digits without a superfluous leading zero, an
/// optional fraction and an optional exponent. A plain unsigned integer
/// that fits in 64 bits becomes its value; every other well-formed
/// number becomes the opaque `NumOther` marker.
pub open spec fn parse_number(s: Seq<char>, i: int) -> Option<(JsonV, int)> {
    let i0 = if s[i] == '-' {
        i + 1
    } else {
        i
    };
    if i0 >= s.len() || !is_digit(s[i0]) {
        None
    } else {
        let j = digits_end(s, i0);
        if s[i0] == '0' && j > i0 + 1 {
            None
        } else {
            match frac_end(s, j) {
                Some(j2) => match exp_end(s, j2) {
                    Some(j3) => if i0 > i || j3 > j {
                        Some((JsonV::NumOther, j3))
                    } else if j - i0 > 20 {
                        Some((JsonV::NumOther, j3))
                    } else {
                        let v = digits_val(s, i0, j);
                        if v > u64::MAX {
                            Some((JsonV::NumOther, j3))
                        } else {
                            Some((JsonV::Num(v as u64), j3))
                        }
                    },
                    None => None,
                },
                None => None,
            }
        }
    }
}

/// An ASCII hexadecimal digit.
pub open spec fn is_hex_digit(c: char) -> bool {
    ('0' <= c && c <= '9') || ('a' <= c && c <= 'f') || ('A' <= c && c <= 'F')
}

/// The numeric value of an ASCII hexadecimal digit.
pub open spec fn hex_val(c: char) -> nat {
    if '0' <= c && c <= '9' {
        (c as int - '0' as int) as nat
    } else if 'a' <= c && c <= 'f' {
        (c as int - 'a' as int + 10) as nat
    } else {
        (c as int - 'A' as int + 10) as nat
    }
}

/// Four hexadecimal digits stand at `s[i..i+4]`.
pub open spec fn hex4_ok(s: Seq<char>, i: int) -> bool {
    i >= 0 && i + 4 <= s.len() && is_hex_digit(s[i]) && is_hex_digit(s[i + 1]) && is_hex_digit(
        s[i + 2],
    ) && is_hex_digit(s[i + 3])
}

/// The value of the four hexadecimal digits `s[i..i+4]`.
pub open spec fn hex4_val(s: Seq<char>, i: int) -> nat {
    hex_val(s[i]) * 4096 + hex_val(s[i + 1]) * 256 + hex_val(s[i + 2]) * 16 + hex_val(s[i + 3])
}

/// Parse a `\uXXXX` escape standing at `s[i]` (so `s[i] == '\\'` and
/// `s[i+1] == 'u'`): four hexadecimal digits name a code unit. A unit
/// outside the surrogate range is the character itself; a high
/// surrogate must be followed by a second `\uXXXX` escape holding a low
/// surrogate, the pair naming one supplementary character; a lone or
/// misordered surrogate is rejected.
pub open spec fn parse_unicode_escape(s: Seq<char>, i: int) -> Option<(char, int)> {
    if !hex4_ok(s, i + 2) {
        None
    } else {
        let u1 = hex4_val(s, i + 2);
        if u1 < 0xD800 || u1 >= 0xE000 {
            Some(((u1 as u32) as char, i + 6))
        } else if u1 < 0xDC00 {
            if i + 8 <= s.len() && s[i + 6] == '\\' && s[i + 7] == 'u' && hex4_ok(s, i + 8) {
                let u2 = hex4_val(s, i + 8);
                if 0xDC00 <= u2 < 0xE000 {
                    let v = 0x10000 + (u1 - 0xD800) * 0x400 + (u2 - 0xDC00);
                    Some(((v as u32) as char, i + 12))
                } else {
                    None
                }
            } else {
                None
            }
        } else {
            None
        }
    }
}

/// Parse the remainder of a string literal, after its opening quote:
/// plain characters and simple escapes until the closing quote.
pub open spec fn parse_string_rest(s: Seq<char>, i: int) -> Option<(Seq<char>, int)>
    decreases s.len() - i, 0int,
{
    if i < 0 || i >= s.len() {
        None
    } else if s[i] == '"' {
        Some((Seq::empty(), i + 1))
    } else if s[i] == '\\' {
        if i + 1 < s.len() {
            if s[i + 1] == 'u' {
                match parse_unicode_escape(s, i) {
                    Some((c, j)) => if i < j <= s.len() {
                        match parse_string_rest(s, j) {
                            Some((t, k)) => Some((seq![c] + t, k)),
                            None => None,
                        }
                    } else {
                        None
                    },
                    None => None,
                }
            } else {
                match escape_char(s[i + 1]) {
                    Some(c) => match parse_string_rest(s, i + 2) {
                        Some((t, j)) => Some((seq![c] + t, j)),
                        None => None,
                    },
                    None => None,
                }
            }
        } else {
            None
        }
    } else if (s[i] as u32) < 32 {
        None
    } else {
        match parse_string_rest(s, i + 1) {
            Some((t, j)) => Some((seq![s[i]] + t, j)),
            None => None,
        }
    }
}

/// Parse one JSON value beginning at or after `i`, skipping leading
/// whitespace. Yields the value and the index just past it. Every rule
/// of the grammar consumes at least one character; the recursion is
/// measured by the remaining input, and a continuation that somehow
/// failed to advance would simply be rejected.
pub open spec fn parse_value(s: Seq<char>, i: int) -> Option<(JsonV, int)>
    decreases s.len() - i, 0int,
{
    if i < 0 || i >= s.len() {
        None
    } else if is_ws(s[i]) {
        parse_value(s, i + 1)
    } else if s[i] == 'n' {
        if i + 4 <= s.len() && s[i + 1] == 'u' && s[i + 2] == 'l' && s[i + 3] == 'l' {
            Some((JsonV::Null, i + 4))
        } else {
            None
        }
    } else if s[i] == 't' {
        if i + 4 <= s.len() && s[i + 1] == 'r' && s[i + 2] == 'u' && s[i + 3] == 'e' {
            Some((JsonV::Bool(true), i + 4))
        } else {
            None
        }
    } else if s[i] == 'f' {
        if i + 5 <= s.len() && s[i + 1] == 'a' && s[i + 2] == 'l' && s[i + 3] == 's' && s[i + 4]
            == 'e' {
            Some((JsonV::Bool(false), i + 5))
        } else {
            None
        }
    } else if s[i] == '"' {
        match parse_string_rest(s, i + 1) {
            Some((t, j)) => Some((JsonV::Str(t), j)),
            None => None,
        }
    } else if s[i] == '-' || is_digit(s[i]) {
        parse_number(s, i)
    } else if s[i] == '[' {
        match parse_items(s, i + 1) {
            Some((vs, j)) => Some((JsonV::Arr(vs), j)),
            None => None,
        }
    } else if s[i] == '{' {
        match parse_members(s, i + 1) {
            Some((kvs, j)) => Some((JsonV::Obj(kvs), j)),
            None => None,
        }
    } else {
        None
    }
}

/// Parse the elements of an array, after its opening bracket: empty, or
/// a first value followed by comma-separated values and the closing
/// bracket.
pub open spec fn parse_items(s: Seq<char>, i: int) -> Option<(Seq<JsonV>, int)>
    decreases s.len() - i, 1int,
{
    if i < 0 || i >= s.len() {
        None
    } else if is_ws(s[i]) {
        parse_items(s, i + 1)
    } else if s[i] == ']' {
        Some((Seq::empty(), i + 1))
    } else {
        match parse_value(s, i) {
            Some((v, j)) => if i < j <= s.len() {
                match parse_items_rest(s, j) {
                    Some((vs, k)) => Some((seq![v] + vs, k)),
                    None => None,
                }
            } else {
                None
            },
            None => None,
        }
    }
}

/// Parse what follows an array element: the closing bracket, or a comma
/// and the next element.
pub open spec fn parse_items_rest(s: Seq<char>, i: int) -> Option<(Seq<JsonV>, int)>
    decreases s.len() - i, 1int,
{
    if i < 0 || i >= s.len() {
        None
    } else if is_ws(s[i]) {
        parse_items_rest(s, i + 1)
    } else if s[i] == ']' {
        Some((Seq::empty(), i + 1))
    } else if s[i] == ',' {
        match parse_value(s, i + 1) {
            Some((v, j)) => if i < j <= s.len() {
                match parse_items_rest(s, j) {
                    Some((vs, k)) => Some((seq![v] + vs, k)),
                    None => None,
                }
            } else {
                None
            },
            None => None,
        }
    } else {
        None
    }
}

/// Parse one object member: a quoted key, a colon, and a value.
pub open spec fn parse_member(s: Seq<char>, i: int) -> Option<((Seq<char>, JsonV), int)>
    decreases s.len() - i, 1int,
{
    if i < 0 || i >= s.len() {
        None
    } else if is_ws(s[i]) {
        parse_member(s, i + 1)
    } else if s[i] == '"' {
        match parse_string_rest(s, i + 1) {
            Some((key, j)) => if i < j <= s.len() {
                match parse_after_key(s, j) {
                    Some((v, k)) => Some(((key, v), k)),
                    None => None,
                }
            } else {
                None
            },
            None => None,
        }
    } else {
        None
    }
}

/// Parse the colon and value that follow an object member's key.
pub open spec fn parse_after_key(s: Seq<char>, i: int) -> Option<(JsonV, int)>
    decreases s.len() - i, 1int,
{
    if i < 0 || i >= s.len() {
        None
    } else if is_ws(s[i]) {
        parse_after_key(s, i + 1)
    } else if s[i] == ':' {
        parse_value(s, i + 1)
    } else {
        None
    }
}

/// Parse the members of an object, after its opening brace: empty, or a
/// first member followed by comma-separated members and the closing
/// brace.
pub open spec fn parse_members(s: Seq<char>, i: int) -> Option<(Seq<(Seq<char>, JsonV)>, int)>
    decreases s.len() - i, 2int,
{
    if i < 0 || i >= s.len() {
        None
    } else if is_ws(s[i]) {
        parse_members(s, i + 1)
    } else if s[i] == '}' {
        Some((Seq::empty(), i + 1))
    } else {
        match parse_member(s, i) {
            Some((kv, j)) => if i < j <= s.len() {
                match parse_members_rest(s, j) {
                    Some((kvs, k)) => Some((seq![kv] + kvs, k)),
                    None => None,
                }
            } else {
                None
            },
            None => None,
        }
    }
}

/// Parse what follows an object member: the closing brace, or a comma
/// and the next member.
pub open spec fn parse_members_rest(s: Seq<char>, i: int) -> Option<(Seq<(Seq<char>, JsonV)>, int)>
    decreases s.len() - i, 2int,
{
    if i < 0 || i >= s.len() {
        None
    } else if is_ws(s[i]) {
        parse_members_rest(s, i + 1)
    } else if s[i] == '}' {
        Some((Seq::empty(), i + 1))
    } else if s[i] == ',' {
        match parse_member(s, i + 1) {
            Some((kv, j)) => if i < j <= s.len() {
                match parse_members_rest(s, j) {
                    Some((kvs, k)) => Some((seq![kv] + kvs, k)),
                    None => None,
                }
            } else {
                None
            },
            None => None,
        }
    } else {
        None
    }
}

/// Only whitespace from `i` to the end of the input.
pub open spec fn trailing_ws(s: Seq<char>, i: int) -> bool {
    forall|t: int| i <= t < s.len() ==> is_ws(#[trigger] s[t])
}

/// The parse of a whole document: one value surrounded by whitespace.
pub open spec fn spec_parse_json(s: Seq<char>) -> Option<JsonV> {
    match parse_value(s, 0) {
        Some((j, end)) => if trailing_ws(s, end) {
            Some(j)
        } else {
            None
        },
        None => None,
    }
}

fn escape_str(e: char) -> (r: Option<&'static str>)
    ensures
        match r {
            Some(t) => escape_char(e) == Some(t@[0]) && t@.len() == 1,
            None => escape_char(e) is None,
        },
{
    if e == '"' {
        proof {
            reveal_strlit("\"");
        }
        Some("\"")
    } else if e == '\\' {
        proof {
            reveal_strlit("\\");
        }
        Some("\\")
    } else if e == '/' {
        proof {
            reveal_strlit("/");
        }
        Some("/")
    } else if e == 'b' {
        proof {
            reveal_strlit("\u{8}");
        }
        Some("\u{8}")
    } else if e == 'f' {
        proof {
            reveal_strlit("\u{c}");
        }
        Some("\u{c}")
    } else if e == 'n' {
        proof {
            reveal_strlit("\n");
        }
        Some("\n")
    } else if e == 'r' {
        proof {
            reveal_strlit("\r");
        }
        Some("\r")
    } else if e == 't' {
        proof {
            reveal_strlit("\t");
        }
        Some("\t")
    } else {
        None
    }
}

fn scan_string_rest(s: &str, n: usize, i: usize) -> (r: Option<(String, usize)>)
    requires
        n == s@.len(),
        i <= n,
    ensures
        match r {
            Some((t, k)) => parse_string_rest(s@, i as int) == Some((t@, k as int)) && i <= k <= n,
            None => parse_string_rest(s@, i as int) is None,
        },
    decreases n - i, 0int,
{
    if i >= n {
        return None;
    }
    let c = s.get_char(i);
    if c == '"' {
        Some((String::new(), i + 1))
    } else if c == '\\' {
        if i + 1 < n {
            let e = s.get_char(i + 1);
            if e == 'u' {
                match scan_unicode_escape(s, n, i) {
                    Some((c2, j)) => {
                        if j <= i {
                            return None;
                        }
                        match scan_string_rest(s, n, j) {
                            Some((t, k)) => {
                                let mut out = String::new();
                                out.push(c2);
                                out.append(t.as_str());
                                proof {
                                    assert(out@ =~= seq![c2] + t@);
                                }
                                Some((out, k))
                            },
                            None => None,
                        }
                    },
                    None => None,
                }
            } else {
                match escape_str(e) {
                    Some(pre) => match scan_string_rest(s, n, i + 2) {
                        Some((t, k)) => {
                            let mut out = String::from_str(pre);
                            out.append(t.as_str());
                            proof {
                                assert(out@ =~= seq![pre@[0]] + t@);
                            }
                            Some((out, k))
                        },
                        None => None,
                    },
                    None => None,
                }
            }
        } else {
            None
        }
    } else if (c as u32) < 32 {
        None
    } else {
        let pre = s.substring_char(i, i + 1);
        match scan_string_rest(s, n, i + 1) {
            Some((t, k)) => {
                let mut out = String::from_str(pre);
                out.append(t.as_str());
                proof {
                    assert(pre@ =~= seq![s@[i as int]]);
                    assert(out@ =~= seq![s@[i as int]] + t@);
                }
                Some((out, k))
            },
            None => None,
        }
    }
}

fn hex_digit_val(c: char) -> (r: Option<u32>)
    ensures
        match r {
            Some(v) => is_hex_digit(c) && v == hex_val(c) && v < 16,
            None => !is_hex_digit(c),
        },
{
    let u = c as u32;
    if u >= 48 && u <= 57 {
        Some(u - 48)
    } else if u >= 97 && u <= 102 {
        Some(u - 97 + 10)
    } else if u >= 65 && u <= 70 {
        Some(u - 65 + 10)
    } else {
        None
    }
}

fn scan_hex4(s: &str, n: usize, i: usize) -> (r: Option<u32>)
    requires
        n == s@.len(),
        i <= n,
    ensures
        match r {
            Some(v) => hex4_ok(s@, i as int) && v == hex4_val(s@, i as int) && v < 0x10000,
            None => !hex4_ok(s@, i as int),
        },
{
    if n - i < 4 {
        return None;
    }
    let h0 = hex_digit_val(s.get_char(i));
    let h1 = hex_digit_val(s.get_char(i + 1));
    let h2 = hex_digit_val(s.get_char(i + 2));
    let h3 = hex_digit_val(s.get_char(i + 3));
    match (h0, h1, h2, h3) {
        (Some(v0), Some(v1), Some(v2), Some(v3)) => Some(v0 * 4096 + v1 * 256 + v2 * 16 + v3),
        _ => None,
    }
}

fn scan_unicode_escape(s: &str, n: usize, i: usize) -> (r: Option<(char, usize)>)
    requires
        n == s@.len(),
        i + 1 < n,
        s@[i as int] == '\\',
        s@[i as int + 1] == 'u',
    ensures
        match r {
            Some((c, j)) => parse_unicode_escape(s@, i as int) == Some((c, j as int)) && i < j
                <= n,
            None => parse_unicode_escape(s@, i as int) is None,
        },
{
    match scan_hex4(s, n, i + 2) {
        Some(u1) => {
            if u1 < 0xD800 || u1 >= 0xE000 {
                match char::from_u32(u1) {
                    Some(c) => Some((c, i + 6)),
                    None => None,
                }
            } else if u1 < 0xDC00 {
                if n - i >= 8 && s.get_char(i + 6) == '\\' && s.get_char(i + 7) == 'u' {
                    match scan_hex4(s, n, i + 8) {
                        Some(u2) => {
                            if u2 >= 0xDC00 && u2 < 0xE000 {
                                let v = 0x10000 + (u1 - 0xD800) * 1024 + (u2 - 0xDC00);
                                match char::from_u32(v) {
                                    Some(c) => Some((c, i + 12)),
                                    None => None,
                                }
                            } else {
                                None
                            }
                        },
                        None => None,
                    }
                } else {
                    None
                }
            } else {
                None
            }
        },
        None => None,
    }
}

fn scan_digits_end(s: &str, n: usize, i: usize) -> (r: usize)
    requires
        n == s@.len(),
        i <= n,
    ensures
        digits_end(s@, i as int) == r,
        i <= r <= n,
        forall|t: int| i <= t < r ==> is_digit(#[trigger] s@[t]),
{
    let mut j: usize = i;
    loop
        invariant_except_break
            n == s@.len(),
            i <= j <= n,
            digits_end(s@, i as int) == digits_end(s@, j as int),
            forall|t: int| i <= t < j ==> is_digit(#[trigger] s@[t]),
        ensures
            n == s@.len(),
            i <= j <= n,
            digits_end(s@, i as int) == j,
            forall|t: int| i <= t < j ==> is_digit(#[trigger] s@[t]),
        decreases n - j,
    {
        if j >= n {
            break ;
        }
        let c = s.get_char(j);
        if !(c as u32 >= 48 && c as u32 <= 57) {
            break ;
        }
        j = j + 1;
    }
    j
}

fn scan_number(s: &str, n: usize, i: usize) -> (r: Option<(Json, usize)>)
    requires
        n == s@.len(),
        i < n,
        s@[i as int] == '-' || is_digit(s@[i as int]),
    ensures
        match r {
            Some((j, k)) => parse_number(s@, i as int) == Some((j.deep_view(), k as int)) && i <= k
                <= n,
            None => parse_number(s@, i as int) is None,
        },
{
    let mut i0: usize = i;
    if s.get_char(i) == '-' {
        i0 = i + 1;
    }
    if i0 >= n {
        return None;
    }
    let c0 = s.get_char(i0);
    if !(c0 as u32 >= 48 && c0 as u32 <= 57) {
        return None;
    }
    let j = scan_digits_end(s, n, i0);
    if c0 == '0' && j > i0 + 1 {
        return None;
    }
    let mut j2: usize = j;
    if j < n && s.get_char(j) == '.' {
        let k = scan_digits_end(s, n, j + 1);
        if k == j + 1 {
            return None;
        }
        j2 = k;
    }
    let mut j3: usize = j2;
    if j2 < n {
        let ce = s.get_char(j2);
        if ce == 'e' || ce == 'E' {
            let mut j1: usize = j2 + 1;
            if j2 + 1 < n {
                let cs = s.get_char(j2 + 1);
                if cs == '+' || cs == '-' {
                    j1 = j2 + 2;
                }
            }
            let k = scan_digits_end(s, n, j1);
            if k == j1 {
                return None;
            }
            j3 = k;
        }
    }
    if i0 > i || j3 > j {
        return Some((Json::NumOther, j3));
    }
    if j - i0 > 20 {
        return Some((Json::NumOther, j3));
    }
    proof {
        crate::lemma_pow10_20();
    }
    let mut acc: u128 = 0;
    let mut k: usize = i0;
    while k < j
        invariant
            n == s@.len(),
            i0 <= k <= j <= n,
            j - i0 <= 20,
            forall|t: int| i0 <= t < j ==> is_digit(#[trigger] s@[t]),
            acc == digits_val(s@, i0 as int, k as int),
            acc < crate::pow10((k - i0) as nat),
            crate::pow10(20) == 100000000000000000000,
        decreases j - k,
    {
        let c = s.get_char(k);
        let d = (c as u32 - 48) as u128;
        proof {
            crate::lemma_pow10_increases((k - i0 + 1) as nat, 20);
        }
        acc = acc * 10 + d;
        k = k + 1;
    }
    if acc > 18446744073709551615u128 {
        Some((Json::NumOther, j3))
    } else {
        Some((Json::Num(acc as u64), j3))
    }
}

fn scan_value(s: &str, n: usize, i: usize) -> (r: Option<(Json, usize)>)
    requires
        n == s@.len(),
        i <= n,
    ensures
        match r {
            Some((j, k)) => parse_value(s@, i as int) == Some((j.deep_view(), k as int)) && i <= k
                <= n,
            None => parse_value(s@, i as int) is None,
        },
    decreases n - i, 0int,
{
    if i >= n {
        return None;
    }
    let c = s.get_char(i);
    if c == ' ' || c == '\t' || c == '\n' || c == '\r' {
        scan_value(s, n, i + 1)
    } else if c == 'n' {
        if n - i >= 4 && s.get_char(i + 1) == 'u' && s.get_char(i + 2) == 'l' && s.get_char(i + 3)
            == 'l' {
            Some((Json::Null, i + 4))
        } else {
            None
        }
    } else if c == 't' {
        if n - i >= 4 && s.get_char(i + 1) == 'r' && s.get_char(i + 2) == 'u' && s.get_char(i + 3)
            == 'e' {
            Some((Json::Bool(true), i + 4))
        } else {
            None
        }
    } else if c == 'f' {
        if n - i >= 5 && s.get_char(i + 1) == 'a' && s.get_char(i + 2) == 'l' && s.get_char(i + 3)
            == 's' && s.get_char(i + 4) == 'e' {
            Some((Json::Bool(false), i + 5))
        } else {
            None
        }
    } else if c == '"' {
        match scan_string_rest(s, n, i + 1) {
            Some((t, k)) => Some((Json::Str(t), k)),
            None => None,
        }
    } else if c == '-' || (c as u32 >= 48 && c as u32 <= 57) {
        scan_number(s, n, i)
    } else if c == '[' {
        match scan_items(s, n, i + 1) {
            Some((vs, k)) => Some((Json::Arr(vs), k)),
            None => None,
        }
    } else if c == '{' {
        match scan_members(s, n, i + 1) {
            Some((kvs, k)) => Some((Json::Obj(kvs), k)),
            None => None,
        }
    } else {
        None
    }
}

fn scan_items(s: &str, n: usize, i: usize) -> (r: Option<(Vec<Json>, usize)>)
    requires
        n == s@.len(),
        i <= n,
    ensures
        match r {
            Some((vs, k)) => parse_items(s@, i as int) == Some((arr_view(vs@), k as int)) && i <= k
                <= n,
            None => parse_items(s@, i as int) is None,
        },
    decreases n - i, 1int,
{
    if i >= n {
        return None;
    }
    let c = s.get_char(i);
    if c == ' ' || c == '\t' || c == '\n' || c == '\r' {
        scan_items(s, n, i + 1)
    } else if c == ']' {
        let vs: Vec<Json> = Vec::new();
        proof {
            assert(arr_view(vs@) =~= Seq::<JsonV>::empty());
        }
        Some((vs, i + 1))
    } else {
        match scan_value(s, n, i) {
            Some((v, j)) => {
                if j <= i {
                    return None;
                }
                match scan_items_rest(s, n, j) {
                    Some((tail, k)) => {
                        let ghost old_tail = tail@;
                        let mut vs = tail;
                        vs.insert(0, v);
                        proof {
                            lemma_arr_view_props(vs@);
                            lemma_arr_view_props(old_tail);
                            assert(vs@ =~= seq![v] + old_tail);
                            assert(arr_view(vs@) =~= seq![v.deep_view()] + arr_view(old_tail));
                        }
                        Some((vs, k))
                    },
                    None => None,
                }
            },
            None => None,
        }
    }
}

fn scan_items_rest(s: &str, n: usize, i: usize) -> (r: Option<(Vec<Json>, usize)>)
    requires
        n == s@.len(),
        i <= n,
    ensures
        match r {
            Some((vs, k)) => parse_items_rest(s@, i as int) == Some((arr_view(vs@), k as int)) && i
                <= k <= n,
            None => parse_items_rest(s@, i as int) is None,
        },
    decreases n - i, 1int,
{
    if i >= n {
        return None;
    }
    let c = s.get_char(i);
    if c == ' ' || c == '\t' || c == '\n' || c == '\r' {
        scan_items_rest(s, n, i + 1)
    } else if c == ']' {
        let vs: Vec<Json> = Vec::new();
        proof {
            assert(arr_view(vs@) =~= Seq::<JsonV>::empty());
        }
        Some((vs, i + 1))
    } else if c == ',' {
        match scan_value(s, n, i + 1) {
            Some((v, j)) => {
                if j <= i {
                    return None;
                }
                match scan_items_rest(s, n, j) {
                    Some((tail, k)) => {
                        let ghost old_tail = tail@;
                        let mut vs = tail;
                        vs.insert(0, v);
                        proof {
                            lemma_arr_view_props(vs@);
                            lemma_arr_view_props(old_tail);
                            assert(vs@ =~= seq![v] + old_tail);
                            assert(arr_view(vs@) =~= seq![v.deep_view()] + arr_view(old_tail));
                        }
                        Some((vs, k))
                    },
                    None => None,
                }
            },
            None => None,
        }
    } else {
        None
    }
}

fn scan_member(s: &str, n: usize, i: usize) -> (r: Option<((String, Json), usize)>)
    requires
        n == s@.len(),
        i <= n,
    ensures
        match r {
            Some((kv, k)) => parse_member(s@, i as int) == Some(
                ((kv.0@, kv.1.deep_view()), k as int),
            ) && i <= k <= n,
            None => parse_member(s@, i as int) is None,
        },
    decreases n - i, 1int,
{
    if i >= n {
        return None;
    }
    let c = s.get_char(i);
    if c == ' ' || c == '\t' || c == '\n' || c == '\r' {
        scan_member(s, n, i + 1)
    } else if c == '"' {
        match scan_string_rest(s, n, i + 1) {
            Some((key, j)) => {
                if j <= i {
                    return None;
                }
                match scan_after_key(s, n, j) {
                    Some((v, k)) => Some(((key, v), k)),
                    None => None,
                }
            },
            None => None,
        }
    } else {
        None
    }
}

fn scan_after_key(s: &str, n: usize, i: usize) -> (r: Option<(Json, usize)>)
    requires
        n == s@.len(),
        i <= n,
    ensures
        match r {
            Some((j, k)) => parse_after_key(s@, i as int) == Some((j.deep_view(), k as int)) && i
                <= k <= n,
            None => parse_after_key(s@, i as int) is None,
        },
    decreases n - i, 1int,
{
    if i >= n {
        return None;
    }
    let c = s.get_char(i);
    if c == ' ' || c == '\t' || c == '\n' || c == '\r' {
        scan_after_key(s, n, i + 1)
    } else if c == ':' {
        scan_value(s, n, i + 1)
    } else {
        None
    }
}

fn scan_members(s: &str, n: usize, i: usize) -> (r: Option<(Vec<(String, Json)>, usize)>)
    requires
        n == s@.len(),
        i <= n,
    ensures
        match r {
            Some((kvs, k)) => parse_members(s@, i as int) == Some((obj_view(kvs@), k as int)) && i
                <= k <= n,
            None => parse_members(s@, i as int) is None,
        },
    decreases n - i, 2int,
{
    if i >= n {
        return None;
    }
    let c = s.get_char(i);
    if c == ' ' || c == '\t' || c == '\n' || c == '\r' {
        scan_members(s, n, i + 1)
    } else if c == '}' {
        let kvs: Vec<(String, Json)> = Vec::new();
        proof {
            assert(obj_view(kvs@) =~= Seq::<(Seq<char>, JsonV)>::empty());
        }
        Some((kvs, i + 1))
    } else {
        match scan_member(s, n, i) {
            Some((kv, j)) => {
                if j <= i {
                    return None;
                }
                match scan_members_rest(s, n, j) {
                    Some((tail, k)) => {
                        let ghost old_tail = tail@;
                        let ghost kv0 = (kv.0@, kv.1.deep_view());
                        let mut kvs = tail;
                        kvs.insert(0, kv);
                        proof {
                            lemma_obj_view_props(kvs@);
                            lemma_obj_view_props(old_tail);
                            assert(obj_view(kvs@) =~= seq![kv0] + obj_view(old_tail));
                        }
                        Some((kvs, k))
                    },
                    None => None,
                }
            },
            None => None,
        }
    }
}

fn scan_members_rest(s: &str, n: usize, i: usize) -> (r: Option<(Vec<(String, Json)>, usize)>)
    requires
        n == s@.len(),
        i <= n,
    ensures
        match r {
            Some((kvs, k)) => parse_members_rest(s@, i as int) == Some(
                (obj_view(kvs@), k as int),
            ) && i <= k <= n,
            None => parse_members_rest(s@, i as int) is None,
        },
    decreases n - i, 2int,
{
    if i >= n {
        return None;
    }
    let c = s.get_char(i);
    if c == ' ' || c == '\t' || c == '\n' || c == '\r' {
        scan_members_rest(s, n, i + 1)
    } else if c == '}' {
        let kvs: Vec<(String, Json)> = Vec::new();
        proof {
            assert(obj_view(kvs@) =~= Seq::<(Seq<char>, JsonV)>::empty());
        }
        Some((kvs, i + 1))
    } else if c == ',' {
        match scan_member(s, n, i + 1) {
            Some((kv, j)) => {
                if j <= i {
                    return None;
                }
                match scan_members_rest(s, n, j) {
                    Some((tail, k)) => {
                        let ghost old_tail = tail@;
                        let ghost kv0 = (kv.0@, kv.1.deep_view());
                        let mut kvs = tail;
                        kvs.insert(0, kv);
                        proof {
                            lemma_obj_view_props(kvs@);
                            lemma_obj_view_props(old_tail);
                            assert(obj_view(kvs@) =~= seq![kv0] + obj_view(old_tail));
                        }
                        Some((kvs, k))
                    },
                    None => None,
                }
            },
            None => None,
        }
    } else {
        None
    }
}

/// Parse a whole JSON document: one value, surrounded by nothing but
/// whitespace.
pub fn parse_json(s: &str) -> (r: Option<Json>)
    ensures
        match r {
            Some(j) => spec_parse_json(s@) == Some(j.deep_view()),
            None => spec_parse_json(s@) is None,
        },
{
    let n = s.unicode_len();
    match scan_value(s, n, 0) {
        Some((j, end)) => {
            let mut m = end;
            while m < n
                invariant
                    n == s@.len(),
                    end <= m <= n,
                    parse_value(s@, 0) == Some((j.deep_view(), end as int)),
                    forall|t: int| end <= t < m ==> is_ws(#[trigger] s@[t]),
                decreases n - m,
            {
                let c = s.get_char(m);
                if !(c == ' ' || c == '\t' || c == '\n' || c == '\r') {
                    proof {
                        assert(!is_ws(s@[m as int]));
                        assert(!trailing_ws(s@, end as int));
                    }
                    return None;
                }
                m = m + 1;
            }
            Some(j)
        },
        None => None,
    }
}

} // verus!
