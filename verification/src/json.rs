//! A structural model of a parsed JSON5 config document, and the trusted
//! parser boundary that produces it.
//!
//! The model keeps exactly what the config reader looks at: nulls,
//! booleans, strings, arrays and objects (as key/value entry lists, in the
//! map's sorted order); numbers carry no payload since the config format
//! never reads one. Parsing is a function of the text alone, so the parse
//! result has a name, `json5_of`, that the trusted parser's contract
//! applies; everything downstream of it is verified against the model.
//! Because the parser recurses once per array or object level, callers
//! must first bound the text's structural bracket nesting with the
//! verified lexical scan below.

use vstd::prelude::*;
use vstd::string::StringSliceAdditionalSpecFns;

use crate::text::str_eq;

verus! {

/// The parsed form of a config document.
#[derive(Debug)]
pub enum JsonVal {
    Null,
    Bool(bool),
    /// A number; the config never reads one, so its value is not kept.
    Num,
    Str(String),
    Arr(Vec<JsonVal>),
    Obj(Vec<(String, JsonVal)>),
}

/// What parsing a JSON5 text yields: the parsed document, or a parse
/// error. The parse depends on the text alone, so the trusted parser's
/// contract speaks of this name.
pub uninterp spec fn json5_of(s: Seq<char>) -> Result<JsonVal, Seq<char>>;

/// The deepest structural bracket/brace nesting the parser is allowed to
/// see. The parser recurses once per array or object level, so an
/// unbounded depth could exhaust the stack; a genuine layout config nests
/// a handful of levels.
pub const MAX_JSON_NESTING: i128 = 128;

/// The lexical mode of the scan at a position in the text: outside any
/// token, just after a `/` that may open a comment, inside a double- or
/// single-quoted string (or just after a backslash in one), or inside a
/// line or block comment. Line comments end at any JSON5 line terminator
/// (U+000A, U+000D, U+2028, U+2029); the two extra modes step through the
/// three-byte encodings of U+2028 and U+2029.
#[derive(Clone, Copy, PartialEq, Eq, Structural, Debug)]
pub enum LexMode {
    Normal,
    Slash,
    StringD,
    StringS,
    EscapeD,
    EscapeS,
    LineComment,
    LineCommentE2,
    LineCommentE280,
    BlockComment,
    BlockCommentStar,
}

/// One byte of the lexical scan. Inside strings, a backslash escapes the
/// next byte (multi-byte escapes continue with hex digits or continuation
/// bytes, never a delimiter, so one byte suffices) and only the unescaped
/// matching quote leaves the string. ASCII bytes never occur inside the
/// encoding of another character, so the byte scan sees exactly the
/// delimiters, terminators and brackets the parser's lexer sees.
pub open spec fn lex_step(m: LexMode, b: u8) -> LexMode {
    match m {
        LexMode::Normal => if b == 0x22u8 {
            LexMode::StringD
        } else if b == 0x27u8 {
            LexMode::StringS
        } else if b == 0x2Fu8 {
            LexMode::Slash
        } else {
            LexMode::Normal
        },
        LexMode::Slash => if b == 0x2Fu8 {
            LexMode::LineComment
        } else if b == 0x2Au8 {
            LexMode::BlockComment
        } else if b == 0x22u8 {
            LexMode::StringD
        } else if b == 0x27u8 {
            LexMode::StringS
        } else {
            LexMode::Normal
        },
        LexMode::StringD => if b == 0x5Cu8 {
            LexMode::EscapeD
        } else if b == 0x22u8 {
            LexMode::Normal
        } else {
            LexMode::StringD
        },
        LexMode::StringS => if b == 0x5Cu8 {
            LexMode::EscapeS
        } else if b == 0x27u8 {
            LexMode::Normal
        } else {
            LexMode::StringS
        },
        LexMode::EscapeD => LexMode::StringD,
        LexMode::EscapeS => LexMode::StringS,
        LexMode::LineComment => if b == 0x0Au8 || b == 0x0Du8 {
            LexMode::Normal
        } else if b == 0xE2u8 {
            LexMode::LineCommentE2
        } else {
            LexMode::LineComment
        },
        LexMode::LineCommentE2 => if b == 0x80u8 {
            LexMode::LineCommentE280
        } else if b == 0x0Au8 || b == 0x0Du8 {
            LexMode::Normal
        } else if b == 0xE2u8 {
            LexMode::LineCommentE2
        } else {
            LexMode::LineComment
        },
        LexMode::LineCommentE280 => if b == 0xA8u8 || b == 0xA9u8 {
            LexMode::Normal
        } else if b == 0x0Au8 || b == 0x0Du8 {
            LexMode::Normal
        } else if b == 0xE2u8 {
            LexMode::LineCommentE2
        } else {
            LexMode::LineComment
        },
        LexMode::BlockComment => if b == 0x2Au8 {
            LexMode::BlockCommentStar
        } else {
            LexMode::BlockComment
        },
        LexMode::BlockCommentStar => if b == 0x2Fu8 {
            LexMode::Normal
        } else if b == 0x2Au8 {
            LexMode::BlockCommentStar
        } else {
            LexMode::BlockComment
        },
    }
}

/// The lexical mode after reading the given bytes, starting outside any
/// token.
pub open spec fn lex_after(s: Seq<u8>) -> LexMode
    decreases s.len(),
{
    if s.len() == 0 {
        LexMode::Normal
    } else {
        lex_step(lex_after(s.drop_last()), s.last())
    }
}

/// What one byte does to the structural bracket depth: only a bracket
/// read outside strings and comments counts.
pub open spec fn depth_delta(m: LexMode, b: u8) -> int {
    if m == LexMode::Normal {
        if b == 0x5Bu8 || b == 0x7Bu8 {
            1
        } else if b == 0x5Du8 || b == 0x7Du8 {
            -1
        } else {
            0
        }
    } else {
        0
    }
}

/// The structural bracket/brace depth after reading the given bytes:
/// brackets inside string literals and comments do not count.
pub open spec fn nesting_after(s: Seq<u8>) -> int
    decreases s.len(),
{
    if s.len() == 0 {
        0
    } else {
        nesting_after(s.drop_last()) + depth_delta(lex_after(s.drop_last()), s.last())
    }
}

/// Whether the structural depth stays within the parser's bound at every
/// prefix of the bytes.
pub open spec fn spec_nesting_ok(s: Seq<u8>) -> bool {
    forall|i: int| 0 <= i <= s.len() ==> nesting_after(#[trigger] s.take(i)) <= MAX_JSON_NESTING
}

/// One byte of the lexical scan, as `lex_step` describes.
fn lex_step_at(m: LexMode, b: u8) -> (r: LexMode)
    ensures
        r == lex_step(m, b),
{
    match m {
        LexMode::Normal => if b == 0x22 {
            LexMode::StringD
        } else if b == 0x27 {
            LexMode::StringS
        } else if b == 0x2F {
            LexMode::Slash
        } else {
            LexMode::Normal
        },
        LexMode::Slash => if b == 0x2F {
            LexMode::LineComment
        } else if b == 0x2A {
            LexMode::BlockComment
        } else if b == 0x22 {
            LexMode::StringD
        } else if b == 0x27 {
            LexMode::StringS
        } else {
            LexMode::Normal
        },
        LexMode::StringD => if b == 0x5C {
            LexMode::EscapeD
        } else if b == 0x22 {
            LexMode::Normal
        } else {
            LexMode::StringD
        },
        LexMode::StringS => if b == 0x5C {
            LexMode::EscapeS
        } else if b == 0x27 {
            LexMode::Normal
        } else {
            LexMode::StringS
        },
        LexMode::EscapeD => LexMode::StringD,
        LexMode::EscapeS => LexMode::StringS,
        LexMode::LineComment => if b == 0x0A || b == 0x0D {
            LexMode::Normal
        } else if b == 0xE2 {
            LexMode::LineCommentE2
        } else {
            LexMode::LineComment
        },
        LexMode::LineCommentE2 => if b == 0x80 {
            LexMode::LineCommentE280
        } else if b == 0x0A || b == 0x0D {
            LexMode::Normal
        } else if b == 0xE2 {
            LexMode::LineCommentE2
        } else {
            LexMode::LineComment
        },
        LexMode::LineCommentE280 => if b == 0xA8 || b == 0xA9 {
            LexMode::Normal
        } else if b == 0x0A || b == 0x0D {
            LexMode::Normal
        } else if b == 0xE2 {
            LexMode::LineCommentE2
        } else {
            LexMode::LineComment
        },
        LexMode::BlockComment => if b == 0x2A {
            LexMode::BlockCommentStar
        } else {
            LexMode::BlockComment
        },
        LexMode::BlockCommentStar => if b == 0x2F {
            LexMode::Normal
        } else if b == 0x2A {
            LexMode::BlockCommentStar
        } else {
            LexMode::BlockComment
        },
    }
}

/// Scans the text's bytes, tracking the lexical mode, and reports whether
/// the structural bracket depth stays within the nesting bound at every
/// prefix.
pub fn nesting_within(s: &str) -> (r: bool)
    ensures
        r == spec_nesting_ok(s.spec_bytes()),
{
    let bytes = s.as_bytes();
    let mut mode = LexMode::Normal;
    let mut depth: i128 = 0;
    let mut i: usize = 0;
    while i < bytes.len()
        invariant
            bytes@ == s.spec_bytes(),
            0 <= i <= bytes@.len(),
            mode == lex_after(bytes@.take(i as int)),
            depth == nesting_after(bytes@.take(i as int)),
            -(i as int) <= depth <= i as int,
            forall|j: int|
                0 <= j <= i ==> nesting_after(#[trigger] bytes@.take(j)) <= MAX_JSON_NESTING,
        decreases bytes@.len() - i,
    {
        let b = bytes[i];
        proof {
            assert(bytes@.take(i + 1).drop_last() =~= bytes@.take(i as int));
            assert(bytes@.take(i + 1).last() == bytes@[i as int]);
        }
        let next: i128 = if matches!(mode, LexMode::Normal) {
            if b == 0x5B || b == 0x7B {
                depth + 1
            } else if b == 0x5D || b == 0x7D {
                depth - 1
            } else {
                depth
            }
        } else {
            depth
        };
        if next > MAX_JSON_NESTING {
            proof {
                assert(nesting_after(bytes@.take(i + 1)) > MAX_JSON_NESTING);
            }
            return false;
        }
        mode = lex_step_at(mode, b);
        depth = next;
        i += 1;
    }
    proof {
        assert(bytes@.take(bytes@.len() as int) =~= bytes@);
    }
    true
}

/// Declares `serde_json::Value` so the conversion below can name it; the
/// value is opaque here and exists only on the way into the model.
#[verifier::external_type_specification]
#[verifier::external_body]
pub struct ExValue(serde_json::Value);

/// Relies on `serde_json::Value`'s variants: renders a parsed value into
/// the model, one variant per arm, moving only what the config reader
/// needs (numbers keep no payload).
#[verifier::external_body]
fn value_model(v: &serde_json::Value) -> JsonVal {
    match v {
        serde_json::Value::Null => JsonVal::Null,
        serde_json::Value::Bool(b) => JsonVal::Bool(*b),
        serde_json::Value::Number(_) => JsonVal::Num,
        serde_json::Value::String(s) => JsonVal::Str(s.clone()),
        serde_json::Value::Array(a) => JsonVal::Arr(a.iter().map(value_model).collect()),
        serde_json::Value::Object(m) => JsonVal::Obj(
            m.iter().map(|(k, x)| (k.clone(), value_model(x))).collect(),
        ),
    }
}

/// Relies on `json5::from_str` parsing the JSON5 text into a
/// `serde_json::Value` — a deterministic function of the text, with object
/// entries in the map's sorted order — here rendered into the model; a
/// parse error is rendered into its message. The parser is hand-written
/// recursive descent without a depth limit, recursing once per array or
/// object level, so the caller must first bound the text's structural
/// nesting. The scan above mirrors the parser's own lexical rules (string
/// delimiters and escapes; line comments ending at the four JSON5 line
/// terminators; block comments), so wherever the parse is still
/// succeeding the scan counts every bracket the parser treats as
/// structural.
#[verifier::external_body]
pub(crate) fn parse_json5(text: &str) -> (r: Result<JsonVal, String>)
    requires
        spec_nesting_ok(text.spec_bytes()),
    ensures
        r is Ok <==> json5_of(text@) is Ok,
        r matches Ok(v) ==> v == json5_of(text@)->Ok_0,
{
    match json5::from_str::<serde_json::Value>(text) {
        Ok(v) => Ok(value_model(&v)),
        Err(e) => Err(format!("JSON5 parse error: {e}")),
    }
}

/// First-match lookup of a key among an object's entries.
pub open spec fn spec_obj_get(entries: Seq<(String, JsonVal)>, key: Seq<char>) -> Option<JsonVal>
    decreases entries.len(),
{
    if entries.len() == 0 {
        None
    } else if entries[0].0@ == key {
        Some(entries[0].1)
    } else {
        spec_obj_get(entries.drop_first(), key)
    }
}

/// The value at this key when `v` is an object that has it.
pub open spec fn spec_get(v: JsonVal, key: Seq<char>) -> Option<JsonVal> {
    match v {
        JsonVal::Obj(es) => spec_obj_get(es@, key),
        _ => None,
    }
}

/// Looks a key up in an object, as `spec_get` describes; `None` on any
/// other kind of value.
pub fn json_get<'a>(v: &'a JsonVal, key: &str) -> (r: Option<&'a JsonVal>)
    ensures
        match r {
            Some(x) => spec_get(*v, key@) == Some(*x),
            None => spec_get(*v, key@) is None,
        },
{
    match v {
        JsonVal::Obj(entries) => {
            let mut i: usize = 0;
            proof {
                assert(entries@.skip(0) =~= entries@);
            }
            while i < entries.len()
                invariant
                    i <= entries@.len(),
                    spec_get(*v, key@) == spec_obj_get(entries@, key@),
                    spec_obj_get(entries@.skip(i as int), key@) == spec_obj_get(entries@, key@),
                decreases entries@.len() - i,
            {
                let (k, val) = &entries[i];
                proof {
                    assert(entries@.skip(i as int)[0] == entries@[i as int]);
                    assert(entries@.skip(i as int).drop_first() =~= entries@.skip(i + 1));
                }
                if str_eq(k.as_str(), key) {
                    proof {
                        assert(entries@[i as int].0@ == key@);
                        assert(spec_obj_get(entries@.skip(i as int), key@) == Some(
                            entries@[i as int].1));
                    }
                    return Some(val);
                }
                i += 1;
            }
            proof {
                assert(entries@.skip(entries@.len() as int) =~= Seq::<(String, JsonVal)>::empty());
            }
            None
        },
        _ => None,
    }
}

} // verus!
