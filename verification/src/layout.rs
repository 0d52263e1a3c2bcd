//! Keyboard layout: the parsed keymap and combination table, and the loader
//! that reads both from a JSON5 config text.
//!
//! The config document holds an `id`, a `name`, a `type` ("jamo" for the
//! two-set dialect, "jaso" for the three-set dialect), a `keymap` object
//! from key labels to hex code-point strings, an optional `combinations`
//! array of `{first, second, result}` hex triples, and optional `options`
//! (currently `auto_reorder`). The JSON5 text goes through the trusted
//! parser boundary into the structural model of the `json` module;
//! everything after that — pulling the fields apart, hex parsing,
//! assembling the lookup tables — is verified, and loading succeeds
//! exactly on the configs `spec_config_ok` accepts.

use vstd::prelude::*;
use vstd::string::{StrSliceExecFns, StringExecFns};

use crate::json::{json_get, json5_of, nesting_within, parse_json5, spec_get, spec_nesting_ok, JsonVal};
use crate::text::str_eq;
use crate::unicode::char_from_u32;

verus! {

/// The two layout dialects: `Jamo` (two-set; consonant keys serve both the
/// initial and the final role) and `Jaso` (three-set; distinct keys per
/// role).
#[derive(Clone, Copy, PartialEq, Eq, Structural, Debug)]
pub enum LayoutType {
    Jamo,
    Jaso,
}

/// One combination rule from the config: `first` then `second` combine
/// into `result`; all three are hex code-point strings.
#[derive(Clone, Debug)]
pub struct CombinationEntry {
    pub first: String,
    pub second: String,
    pub result: String,
}

/// The optional flags of a layout.
#[derive(Clone, Copy, PartialEq, Eq, Structural, Debug)]
pub struct LayoutOptions {
    /// Whether the automaton forgives mis-ordered jamo (see the automata).
    pub auto_reorder: bool,
}

/// The config document after structural parsing, before hex decoding: the
/// keymap as label/hex pairs and the combination rules as hex triples.
#[derive(Clone, Debug)]
pub struct LayoutSchema {
    pub id: String,
    pub name: String,
    pub layout_type: LayoutType,
    pub keymap: Vec<(String, String)>,
    pub combinations: Vec<CombinationEntry>,
    pub options: LayoutOptions,
}

// ── Hex code-point strings ──

/// The value of one hex digit, upper or lower case.
pub open spec fn spec_hex_digit(c: char) -> Option<u32> {
    let u = c as u32;
    if 0x30 <= u <= 0x39 {
        Some((u - 0x30) as u32)
    } else if 0x61 <= u <= 0x66 {
        Some((u - 0x57) as u32)
    } else if 0x41 <= u <= 0x46 {
        Some((u - 0x37) as u32)
    } else {
        None
    }
}

/// The value of a non-empty string of hex digits; `None` when empty or when
/// any character is not a hex digit.
pub open spec fn spec_hex_num(s: Seq<char>) -> Option<int>
    decreases s.len(),
{
    if s.len() == 0 {
        None
    } else if s.len() == 1 {
        match spec_hex_digit(s[0]) {
            Some(d) => Some(d as int),
            None => None,
        }
    } else {
        match (spec_hex_num(s.drop_last()), spec_hex_digit(s.last())) {
            (Some(h), Some(d)) => Some(h * 16 + d),
            _ => None,
        }
    }
}

/// What `parse_hex_char` returns: the string must read `0x` or `0X`, then
/// hex digits whose value fits in 32 bits and is a Unicode scalar value.
pub open spec fn spec_hex_char(s: Seq<char>) -> Option<char> {
    if s.len() >= 2 && s[0] == '0' && (s[1] == 'x' || s[1] == 'X') {
        match spec_hex_num(s.skip(2)) {
            Some(n) => if n < 0x1_0000_0000 && (n < 0xD800 || (0xE000 <= n < 0x11_0000)) {
                Some(((n as u32) as char))
            } else {
                None
            },
            None => None,
        }
    } else {
        None
    }
}

proof fn lemma_hex_num_nonneg(s: Seq<char>)
    requires
        spec_hex_num(s) is Some,
    ensures
        spec_hex_num(s)->Some_0 >= 0,
    decreases s.len(),
{
    if s.len() > 1 {
        lemma_hex_num_nonneg(s.drop_last());
    }
}

/// Extending a digit string by one digit multiplies its value by 16 and
/// adds the digit.
proof fn lemma_hex_num_step(s: Seq<char>, k: int)
    requires
        1 <= k < s.len(),
    ensures
        spec_hex_num(s.take(k + 1)) == match (spec_hex_num(s.take(k)), spec_hex_digit(s[k])) {
            (Some(h), Some(d)) => Some(h * 16 + d),
            _ => None::<int>,
        },
{
    assert(s.take(k + 1).drop_last() =~= s.take(k));
    assert(s.take(k + 1).last() == s[k]);
}

/// If a proper prefix of the digits already has a value, the whole string
/// either fails to parse or has a value at least sixteen times as large.
proof fn lemma_hex_num_prefix_bound(s: Seq<char>, k: int)
    requires
        1 <= k < s.len(),
        spec_hex_num(s.take(k)) is Some,
    ensures
        spec_hex_num(s) is Some ==> spec_hex_num(s)->Some_0 >= 16 * spec_hex_num(s.take(k))->Some_0,
    decreases s.len() - k,
{
    let h = spec_hex_num(s.take(k))->Some_0;
    lemma_hex_num_nonneg(s.take(k));
    if k + 1 == s.len() {
        assert(s.take(k + 1) =~= s);
        lemma_hex_num_step(s, k);
    } else {
        lemma_hex_num_step(s, k);
        if spec_hex_num(s.take(k + 1)) is Some {
            lemma_hex_num_prefix_bound(s, k + 1);
        } else {
            lemma_hex_num_invalid_prefix(s, k + 1);
        }
    }
}

/// If some prefix of the digits fails to parse, the whole string does too.
proof fn lemma_hex_num_invalid_prefix(s: Seq<char>, k: int)
    requires
        1 <= k <= s.len(),
        spec_hex_num(s.take(k)) is None,
    ensures
        spec_hex_num(s) is None,
    decreases s.len() - k,
{
    if k == s.len() {
        assert(s.take(k) =~= s);
    } else {
        lemma_hex_num_step(s, k);
        lemma_hex_num_invalid_prefix(s, k + 1);
    }
}

/// The value of one hex digit, as `spec_hex_digit` gives it.
fn hex_digit(c: char) -> (r: Option<u32>)
    ensures
        r == spec_hex_digit(c),
{
    let u: u32 = c as u32;
    if 0x30 <= u && u <= 0x39 {
        Some(u - 0x30)
    } else if 0x61 <= u && u <= 0x66 {
        Some(u - 0x57)
    } else if 0x41 <= u && u <= 0x46 {
        Some(u - 0x37)
    } else {
        None
    }
}

/// Decodes a hex code-point string such as `0x3131` into its character.
/// Fails on a missing `0x` prefix, a non-digit, an empty digit part, a
/// value beyond 32 bits, or a value that is no Unicode scalar.
pub fn parse_hex_char(s: &str) -> (r: Option<char>)
    ensures
        r == spec_hex_char(s@),
{
    let n: usize = s.unicode_len();
    if n < 3 {
        return None;
    }
    let c0: char = s.get_char(0);
    let c1: char = s.get_char(1);
    if !(c0 == '0' && (c1 == 'x' || c1 == 'X')) {
        return None;
    }
    let ghost digits = s@.skip(2);
    let mut acc: u32 = 0;
    let mut i: usize = 2;
    while i < n
        invariant
            2 <= i <= n,
            n == s@.len(),
            3 <= n,
            digits == s@.skip(2),
            s@[0] == '0' && (s@[1] == 'x' || s@[1] == 'X'),
            i == 2 ==> acc == 0,
            i > 2 ==> Some(acc as int) == spec_hex_num(digits.take(i - 2)),
        decreases n - i,
    {
        let d: Option<u32> = hex_digit(s.get_char(i));
        proof {
            assert(digits[i - 2] == s@[i as int]);
        }
        match d {
            None => {
                proof {
                    if i == 2 {
                        if digits.len() == 1 {
                            assert(spec_hex_num(digits) is None);
                        } else {
                            assert(digits.take(1).len() == 1);
                            assert(digits.take(1)[0] == digits[0]);
                            assert(spec_hex_num(digits.take(1)) is None);
                            lemma_hex_num_invalid_prefix(digits, 1);
                        }
                    } else {
                        lemma_hex_num_step(digits, i - 2);
                        lemma_hex_num_invalid_prefix(digits, i - 1);
                    }
                }
                return None;
            },
            Some(d) => {
                if acc > 0x0FFF_FFFF {
                    proof {
                        lemma_hex_num_prefix_bound(digits, i - 2);
                        if spec_hex_num(digits) is Some {
                            lemma_hex_num_nonneg(digits);
                        }
                    }
                    return None;
                }
                proof {
                    if i == 2 {
                        assert(digits.take(1).len() == 1);
                        assert(digits.take(1)[0] == digits[0]);
                    } else {
                        lemma_hex_num_step(digits, i - 2);
                    }
                }
                acc = acc * 16 + d;
                i += 1;
            },
        }
    }
    proof {
        assert(digits.take(n - 2) =~= digits);
    }
    let r = char_from_u32(acc);
    proof {
        if r is Some {
            vstd::utf8::char_u32_cast(r.unwrap(), acc);
        }
    }
    r
}

// ── The structural reader ──

/// An error message built from a fixed text and the offending fragment.
fn err_with(prefix: &str, detail: &str) -> (r: String) {
    let mut msg = String::from_str(prefix);
    msg.append(detail);
    msg
}

/// The character content of the string at this key, when the parsed value
/// is an object that has the key and it holds a string.
pub open spec fn spec_field_str(v: JsonVal, key: Seq<char>) -> Option<Seq<char>> {
    match spec_get(v, key) {
        Some(JsonVal::Str(s)) => Some(s@),
        _ => None,
    }
}

/// The keymap entries of the parsed config, when present and an object.
pub open spec fn spec_keymap_entries(v: JsonVal) -> Option<Seq<(String, JsonVal)>> {
    match spec_get(v, ("keymap")@) {
        Some(JsonVal::Obj(es)) => Some(es@),
        _ => None,
    }
}

/// The combination entries of the parsed config: an absent field means
/// none; a present one must be an array.
pub open spec fn spec_comb_items(v: JsonVal) -> Option<Seq<JsonVal>> {
    match spec_get(v, ("combinations")@) {
        None => Some(Seq::<JsonVal>::empty()),
        Some(JsonVal::Arr(items)) => Some(items@),
        Some(_) => None,
    }
}

/// Whether one combination entry is structurally sound: an object with
/// string fields `first`, `second` and `result`.
pub open spec fn spec_comb_entry_ok(item: JsonVal) -> bool {
    &&& spec_field_str(item, ("first")@) is Some
    &&& spec_field_str(item, ("second")@) is Some
    &&& spec_field_str(item, ("result")@) is Some
}

/// The auto-reorder flag of the parsed config; an absent `options` object
/// or flag means off.
pub open spec fn spec_auto_reorder(v: JsonVal) -> bool {
    match spec_get(v, ("options")@) {
        Some(o) => match spec_get(o, ("auto_reorder")@) {
            Some(JsonVal::Bool(b)) => b,
            _ => false,
        },
        None => false,
    }
}

/// Whether the optional `options` field is structurally sound: absent, or
/// an object whose `auto_reorder`, if present, is a boolean.
pub open spec fn spec_options_ok(v: JsonVal) -> bool {
    match spec_get(v, ("options")@) {
        None => true,
        Some(o) => o is Obj && match spec_get(o, ("auto_reorder")@) {
            None => true,
            Some(b) => b is Bool,
        },
    }
}

/// Whether the structural reader accepts the parsed config: an object with
/// string `id` and `name`, a `type` out of the closed set, a `keymap`
/// object whose values are strings, an optional `combinations` array of
/// string triples, and optional boolean `options.auto_reorder`.
pub open spec fn spec_schema_ok(v: JsonVal) -> bool {
    &&& v is Obj
    &&& spec_field_str(v, ("id")@) is Some
    &&& spec_field_str(v, ("name")@) is Some
    &&& (spec_field_str(v, ("type")@) matches Some(t) && (t == ("jamo")@ || t == ("jaso")@))
    &&& (spec_keymap_entries(v) matches Some(km) && forall|i: int|
        0 <= i < km.len() ==> (#[trigger] km[i]).1 is Str)
    &&& (spec_comb_items(v) matches Some(cs) && forall|j: int|
        0 <= j < cs.len() ==> spec_comb_entry_ok(#[trigger] cs[j]))
    &&& spec_options_ok(v)
}

/// Whether a schema is exactly the structural reading of the parsed
/// config.
pub open spec fn schema_matches(v: JsonVal, s: LayoutSchema) -> bool {
    &&& Some(s.id@) == spec_field_str(v, ("id")@)
    &&& Some(s.name@) == spec_field_str(v, ("name")@)
    &&& s.layout_type == (if spec_field_str(v, ("type")@) == Some(("jamo")@) {
        LayoutType::Jamo
    } else {
        LayoutType::Jaso
    })
    &&& (spec_keymap_entries(v) matches Some(km) && s.keymap@.len() == km.len() && forall|i: int|
        0 <= i < km.len() ==> (#[trigger] s.keymap@[i]).0@ == km[i].0@ && (km[i].1 matches
        JsonVal::Str(h) && s.keymap@[i].1@ == h@))
    &&& (spec_comb_items(v) matches Some(cs) && s.combinations@.len() == cs.len() && forall|j: int|
        0 <= j < cs.len() ==> {
            &&& Some((#[trigger] s.combinations@[j]).first@) == spec_field_str(cs[j], ("first")@)
            &&& Some(s.combinations@[j].second@) == spec_field_str(cs[j], ("second")@)
            &&& Some(s.combinations@[j].result@) == spec_field_str(cs[j], ("result")@)
        })
    &&& s.options.auto_reorder == spec_auto_reorder(v)
}

/// Reads the structural layer of a parsed config into a `LayoutSchema`.
/// Succeeds exactly when `spec_schema_ok` accepts the value, and the
/// schema is then exactly the value's structural reading.
fn value_to_schema(v: &JsonVal) -> (r: Result<LayoutSchema, String>)
    ensures
        r is Ok <==> spec_schema_ok(*v),
        r matches Ok(s) ==> schema_matches(*v, s),
{
    if !matches!(v, JsonVal::Obj(_)) {
        return Err(String::from_str("layout config: document must be an object"));
    }
    let id: String = match json_get(v, "id") {
        Some(JsonVal::Str(s)) => s.clone(),
        Some(_) => {
            return Err(String::from_str("layout config: id must be a string"));
        },
        None => {
            return Err(String::from_str("layout config: missing id"));
        },
    };
    let name: String = match json_get(v, "name") {
        Some(JsonVal::Str(s)) => s.clone(),
        Some(_) => {
            return Err(String::from_str("layout config: name must be a string"));
        },
        None => {
            return Err(String::from_str("layout config: missing name"));
        },
    };
    let layout_type: LayoutType = match json_get(v, "type") {
        Some(JsonVal::Str(s)) => {
            if str_eq(s.as_str(), "jamo") {
                LayoutType::Jamo
            } else if str_eq(s.as_str(), "jaso") {
                LayoutType::Jaso
            } else {
                return Err(err_with("layout config: unknown type: ", s.as_str()));
            }
        },
        Some(_) => {
            return Err(String::from_str("layout config: type must be a string"));
        },
        None => {
            return Err(String::from_str("layout config: missing type"));
        },
    };
    let keymap_entries: &Vec<(String, JsonVal)> = match json_get(v, "keymap") {
        Some(JsonVal::Obj(es)) => es,
        Some(_) => {
            return Err(String::from_str("layout config: keymap must be an object"));
        },
        None => {
            return Err(String::from_str("layout config: missing keymap"));
        },
    };
    let mut keymap: Vec<(String, String)> = Vec::new();
    let mut i: usize = 0;
    while i < keymap_entries.len()
        invariant
            spec_keymap_entries(*v) == Some(keymap_entries@),
            i <= keymap_entries@.len(),
            keymap@.len() == i,
            forall|k: int|
                0 <= k < i ==> (#[trigger] keymap@[k]).0@ == keymap_entries@[k].0@ && (
                keymap_entries@[k].1 matches JsonVal::Str(h) && keymap@[k].1@ == h@),
        decreases keymap_entries@.len() - i,
    {
        let (label, val) = &keymap_entries[i];
        match val {
            JsonVal::Str(hex) => keymap.push((label.clone(), hex.clone())),
            _ => {
                return Err(err_with("layout config: keymap value must be a string for key: ",
                    label.as_str()));
            },
        }
        i += 1;
    }
    let mut combinations: Vec<CombinationEntry> = Vec::new();
    match json_get(v, "combinations") {
        None => {},
        Some(JsonVal::Arr(items)) => {
            let mut j: usize = 0;
            while j < items.len()
                invariant
                    spec_comb_items(*v) == Some(items@),
                    j <= items@.len(),
                    combinations@.len() == j,
                    forall|k: int|
                        0 <= k < j ==> {
                            &&& Some((#[trigger] combinations@[k]).first@) == spec_field_str(
                                items@[k],
                                ("first")@,
                            )
                            &&& Some(combinations@[k].second@) == spec_field_str(
                                items@[k],
                                ("second")@,
                            )
                            &&& Some(combinations@[k].result@) == spec_field_str(
                                items@[k],
                                ("result")@,
                            )
                        },
                decreases items@.len() - j,
            {
                let entry = &items[j];
                let first: String = match json_get(entry, "first") {
                    Some(JsonVal::Str(f)) => f.clone(),
                    _ => {
                        proof {
                            assert(!spec_comb_entry_ok(items@[j as int]));
                            if spec_schema_ok(*v) {
                                let cs = spec_comb_items(*v)->Some_0;
                                assert(spec_comb_entry_ok(cs[j as int]));
                                assert(false);
                            }
                        }
                        return Err(String::from_str(
                            "layout config: combination first must be a string"));
                    },
                };
                let second: String = match json_get(entry, "second") {
                    Some(JsonVal::Str(f)) => f.clone(),
                    _ => {
                        proof {
                            assert(!spec_comb_entry_ok(items@[j as int]));
                            if spec_schema_ok(*v) {
                                let cs = spec_comb_items(*v)->Some_0;
                                assert(spec_comb_entry_ok(cs[j as int]));
                                assert(false);
                            }
                        }
                        return Err(String::from_str(
                            "layout config: combination second must be a string"));
                    },
                };
                let result: String = match json_get(entry, "result") {
                    Some(JsonVal::Str(f)) => f.clone(),
                    _ => {
                        proof {
                            assert(!spec_comb_entry_ok(items@[j as int]));
                            if spec_schema_ok(*v) {
                                let cs = spec_comb_items(*v)->Some_0;
                                assert(spec_comb_entry_ok(cs[j as int]));
                                assert(false);
                            }
                        }
                        return Err(String::from_str(
                            "layout config: combination result must be a string"));
                    },
                };
                combinations.push(CombinationEntry { first, second, result });
                j += 1;
            }
            proof {
                assert forall|k: int| 0 <= k < items@.len() implies spec_comb_entry_ok(
                    #[trigger] items@[k]) by {
                    assert(Some(combinations@[k].first@) == spec_field_str(
                        items@[k],
                        ("first")@,
                    ));
                    assert(Some(combinations@[k].second@) == spec_field_str(
                        items@[k],
                        ("second")@,
                    ));
                    assert(Some(combinations@[k].result@) == spec_field_str(
                        items@[k],
                        ("result")@,
                    ));
                }
            }
        },
        Some(_) => {
            return Err(String::from_str("layout config: combinations must be an array"));
        },
    }
    let auto_reorder: bool = match json_get(v, "options") {
        None => false,
        Some(opts) => {
            if !matches!(opts, JsonVal::Obj(_)) {
                return Err(String::from_str("layout config: options must be an object"));
            }
            match json_get(opts, "auto_reorder") {
                None => false,
                Some(JsonVal::Bool(b)) => *b,
                Some(_) => {
                    return Err(String::from_str(
                        "layout config: auto_reorder must be a boolean"));
                },
            }
        },
    };
    proof {
        let km = spec_keymap_entries(*v)->Some_0;
        assert forall|k: int| 0 <= k < km.len() implies (#[trigger] km[k]).1 is Str by {
            assert((#[trigger] keymap@[k]).0@ == keymap_entries@[k].0@);
        }
        assert forall|k: int|
            0 <= k < km.len() implies (#[trigger] keymap@[k]).0@ == km[k].0@ && (km[k].1 matches
            JsonVal::Str(h) && keymap@[k].1@ == h@) by {
            assert(keymap@[k].0@ == keymap_entries@[k].0@ && (keymap_entries@[k].1 matches
                JsonVal::Str(h) && keymap@[k].1@ == h@));
        }
    }
    Ok(LayoutSchema {
        id,
        name,
        layout_type,
        keymap,
        combinations,
        options: LayoutOptions { auto_reorder },
    })
}

// ── The parsed layout ──

/// A parsed keyboard layout: the key label to jamo mapping and the ordered
/// pair combination table, with the dialect and options.
#[derive(Clone, Debug)]
pub struct KeyboardLayout {
    pub id: String,
    pub name: String,
    pub layout_type: LayoutType,
    pub keymap: Vec<(String, char)>,
    pub combinations: Vec<(char, char, char)>,
    pub auto_reorder: bool,
}

/// First-match lookup of a label in the keymap entries.
pub open spec fn spec_keymap_lookup(entries: Seq<(String, char)>, label: Seq<char>) -> Option<char>
    decreases entries.len(),
{
    if entries.len() == 0 {
        None
    } else if entries[0].0@ == label {
        Some(entries[0].1)
    } else {
        spec_keymap_lookup(entries.drop_first(), label)
    }
}

/// First-match lookup of an ordered pair in the combination entries.
pub open spec fn spec_combine_lookup(entries: Seq<(char, char, char)>, a: char, b: char) -> Option<
    char,
>
    decreases entries.len(),
{
    if entries.len() == 0 {
        None
    } else if entries[0].0 == a && entries[0].1 == b {
        Some(entries[0].2)
    } else {
        spec_combine_lookup(entries.drop_first(), a, b)
    }
}

impl KeyboardLayout {
    /// What `map_key` returns for a label.
    pub open spec fn spec_map_key(self, label: Seq<char>) -> Option<char> {
        spec_keymap_lookup(self.keymap@, label)
    }

    /// What `combine` returns for an ordered pair of jamo.
    pub open spec fn spec_combine(self, a: char, b: char) -> Option<char> {
        spec_combine_lookup(self.combinations@, a, b)
    }

    /// The jamo a key label maps to, if the layout maps it.
    pub fn map_key(&self, key: &str) -> (r: Option<char>)
        ensures
            r == self.spec_map_key(key@),
    {
        let mut i: usize = 0;
        proof {
            assert(self.keymap@.skip(0) =~= self.keymap@);
        }
        while i < self.keymap.len()
            invariant
                i <= self.keymap@.len(),
                spec_keymap_lookup(self.keymap@.skip(i as int), key@) == self.spec_map_key(key@),
            decreases self.keymap@.len() - i,
        {
            let (label, jamo) = &self.keymap[i];
            proof {
                assert(self.keymap@.skip(i as int)[0] == self.keymap@[i as int]);
                assert(self.keymap@.skip(i as int).drop_first() =~= self.keymap@.skip(i + 1));
            }
            if str_eq(label.as_str(), key) {
                return Some(*jamo);
            }
            i += 1;
        }
        proof {
            assert(self.keymap@.skip(self.keymap@.len() as int) =~= Seq::<(String, char)>::empty());
        }
        None
    }

    /// The combined jamo of an ordered pair, if the layout combines them.
    pub fn combine(&self, first: char, second: char) -> (r: Option<char>)
        ensures
            r == self.spec_combine(first, second),
    {
        let mut i: usize = 0;
        proof {
            assert(self.combinations@.skip(0) =~= self.combinations@);
        }
        while i < self.combinations.len()
            invariant
                i <= self.combinations@.len(),
                spec_combine_lookup(self.combinations@.skip(i as int), first, second)
                    == self.spec_combine(first, second),
            decreases self.combinations@.len() - i,
        {
            let (a, b, c) = self.combinations[i];
            proof {
                assert(self.combinations@.skip(i as int)[0] == self.combinations@[i as int]);
                assert(self.combinations@.skip(i as int).drop_first() =~= self.combinations@.skip(
                    i + 1));
            }
            if a == first && b == second {
                return Some(c);
            }
            i += 1;
        }
        proof {
            assert(self.combinations@.skip(self.combinations@.len() as int) =~= Seq::<
                (char, char, char),
            >::empty());
        }
        None
    }

    /// Builds the layout from a structurally parsed schema. Succeeds
    /// exactly when every hex string in the keymap and in the combination
    /// entries decodes; the tables then carry the decoded characters in
    /// the schema's order.
    pub fn from_schema(schema: &LayoutSchema) -> (r: Result<KeyboardLayout, String>)
        ensures
            r is Ok <==> {
                &&& forall|i: int|
                    0 <= i < schema.keymap@.len() ==> spec_hex_char(
                        #[trigger] schema.keymap@[i].1@,
                    ) is Some
                &&& forall|i: int|
                    0 <= i < schema.combinations@.len() ==> {
                        &&& spec_hex_char(#[trigger] schema.combinations@[i].first@) is Some
                        &&& spec_hex_char(schema.combinations@[i].second@) is Some
                        &&& spec_hex_char(schema.combinations@[i].result@) is Some
                    }
            },
            r matches Ok(layout) ==> {
                &&& layout.id@ == schema.id@
                &&& layout.name@ == schema.name@
                &&& layout.layout_type == schema.layout_type
                &&& layout.auto_reorder == schema.options.auto_reorder
                &&& layout.keymap@.len() == schema.keymap@.len()
                &&& forall|i: int|
                    0 <= i < schema.keymap@.len() ==> {
                        &&& (#[trigger] layout.keymap@[i]).0@ == schema.keymap@[i].0@
                        &&& Some(layout.keymap@[i].1) == spec_hex_char(schema.keymap@[i].1@)
                    }
                &&& layout.combinations@.len() == schema.combinations@.len()
                &&& forall|i: int|
                    0 <= i < schema.combinations@.len() ==> {
                        &&& Some((#[trigger] layout.combinations@[i]).0) == spec_hex_char(
                            schema.combinations@[i].first@,
                        )
                        &&& Some(layout.combinations@[i].1) == spec_hex_char(
                            schema.combinations@[i].second@,
                        )
                        &&& Some(layout.combinations@[i].2) == spec_hex_char(
                            schema.combinations@[i].result@,
                        )
                    }
            },
    {
        let mut keymap: Vec<(String, char)> = Vec::new();
        let mut i: usize = 0;
        while i < schema.keymap.len()
            invariant
                i <= schema.keymap@.len(),
                keymap@.len() == i,
                forall|k: int|
                    0 <= k < i ==> {
                        &&& (#[trigger] keymap@[k]).0@ == schema.keymap@[k].0@
                        &&& Some(keymap@[k].1) == spec_hex_char(schema.keymap@[k].1@)
                    },
            decreases schema.keymap@.len() - i,
        {
            let (label, hex) = &schema.keymap[i];
            match parse_hex_char(hex.as_str()) {
                Some(c) => keymap.push((label.clone(), c)),
                None => {
                    return Err(err_with("Invalid hex in keymap: ", hex.as_str()));
                },
            }
            i += 1;
        }
        let mut combinations: Vec<(char, char, char)> = Vec::new();
        let mut j: usize = 0;
        while j < schema.combinations.len()
            invariant
                j <= schema.combinations@.len(),
                combinations@.len() == j,
                forall|k: int|
                    0 <= k < j ==> {
                        &&& Some((#[trigger] combinations@[k]).0) == spec_hex_char(
                            schema.combinations@[k].first@,
                        )
                        &&& Some(combinations@[k].1) == spec_hex_char(
                            schema.combinations@[k].second@,
                        )
                        &&& Some(combinations@[k].2) == spec_hex_char(
                            schema.combinations@[k].result@,
                        )
                    },
            decreases schema.combinations@.len() - j,
        {
            let entry = &schema.combinations[j];
            let first: char = match parse_hex_char(entry.first.as_str()) {
                Some(c) => c,
                None => {
                    return Err(err_with("Invalid hex in combination first: ", entry.first.as_str()));
                },
            };
            let second: char = match parse_hex_char(entry.second.as_str()) {
                Some(c) => c,
                None => {
                    return Err(err_with("Invalid hex in combination second: ",
                        entry.second.as_str()));
                },
            };
            let result: char = match parse_hex_char(entry.result.as_str()) {
                Some(c) => c,
                None => {
                    return Err(err_with("Invalid hex in combination result: ",
                        entry.result.as_str()));
                },
            };
            combinations.push((first, second, result));
            j += 1;
        }
        proof {
            assert forall|k: int| 0 <= k < schema.keymap@.len() implies spec_hex_char(
                #[trigger] schema.keymap@[k].1@) is Some by {
                assert(Some(keymap@[k].1) == spec_hex_char(schema.keymap@[k].1@));
            }
            assert forall|k: int| 0 <= k < schema.combinations@.len() implies {
                &&& spec_hex_char(#[trigger] schema.combinations@[k].first@) is Some
                &&& spec_hex_char(schema.combinations@[k].second@) is Some
                &&& spec_hex_char(schema.combinations@[k].result@) is Some
            } by {
                assert(Some(combinations@[k].0) == spec_hex_char(schema.combinations@[k].first@));
            }
        }
        Ok(KeyboardLayout {
            id: schema.id.clone(),
            name: schema.name.clone(),
            layout_type: schema.layout_type,
            keymap,
            combinations,
            auto_reorder: schema.options.auto_reorder,
        })
    }

    /// Parses a JSON5 config text into a layout: a nesting check, the
    /// named JSON5 parse, the structural reader, and the hex decoding of
    /// `from_schema`. Succeeds exactly when `spec_config_ok` accepts the
    /// text, and the layout is then exactly the config's reading.
    pub fn from_json(json: &str) -> (r: Result<KeyboardLayout, String>)
        ensures
            r is Ok <==> spec_config_ok(json@),
            r matches Ok(layout) ==> layout_matches_config(json@, layout),
    {
        if !nesting_within(json) {
            return Err(String::from_str("layout config: nesting too deep"));
        }
        let value = match parse_json5(json) {
            Ok(v) => v,
            Err(e) => {
                return Err(e);
            },
        };
        let schema = match value_to_schema(&value) {
            Ok(s) => s,
            Err(e) => {
                return Err(e);
            },
        };
        let ghost v = json5_of(json@)->Ok_0;
        match Self::from_schema(&schema) {
            Ok(layout) => {
                proof {
                    lemma_schema_hexes(v, schema, layout);
                }
                Ok(layout)
            },
            Err(e) => {
                proof {
                    if spec_hexes_ok(v) {
                        lemma_hexes_carry_to_schema(v, schema);
                    }
                }
                Err(e)
            },
        }
    }
}

/// When the built layout exists, the config's hex strings were all valid
/// and the layout is the config's reading.
proof fn lemma_schema_hexes(v: JsonVal, schema: LayoutSchema, layout: KeyboardLayout)
    requires
        spec_schema_ok(v),
        schema_matches(v, schema),
        forall|i: int|
            0 <= i < schema.keymap@.len() ==> spec_hex_char(#[trigger] schema.keymap@[i].1@)
                is Some,
        forall|i: int|
            0 <= i < schema.combinations@.len() ==> {
                &&& spec_hex_char(#[trigger] schema.combinations@[i].first@) is Some
                &&& spec_hex_char(schema.combinations@[i].second@) is Some
                &&& spec_hex_char(schema.combinations@[i].result@) is Some
            },
        layout.id@ == schema.id@,
        layout.name@ == schema.name@,
        layout.layout_type == schema.layout_type,
        layout.auto_reorder == schema.options.auto_reorder,
        layout.keymap@.len() == schema.keymap@.len(),
        forall|i: int|
            0 <= i < schema.keymap@.len() ==> {
                &&& (#[trigger] layout.keymap@[i]).0@ == schema.keymap@[i].0@
                &&& Some(layout.keymap@[i].1) == spec_hex_char(schema.keymap@[i].1@)
            },
        layout.combinations@.len() == schema.combinations@.len(),
        forall|i: int|
            0 <= i < schema.combinations@.len() ==> {
                &&& Some((#[trigger] layout.combinations@[i]).0) == spec_hex_char(
                    schema.combinations@[i].first@,
                )
                &&& Some(layout.combinations@[i].1) == spec_hex_char(
                    schema.combinations@[i].second@,
                )
                &&& Some(layout.combinations@[i].2) == spec_hex_char(
                    schema.combinations@[i].result@,
                )
            },
    ensures
        spec_hexes_ok(v),
        layout_matches_value(v, layout),
{
    let km = spec_keymap_entries(v)->Some_0;
    let cs = spec_comb_items(v)->Some_0;
    assert forall|i: int| 0 <= i < km.len() implies ((#[trigger] km[i]).1 matches JsonVal::Str(h)
        ==> spec_hex_char(h@) is Some) by {
        assert(schema.keymap@[i].1@ == km[i].1->Str_0@);
        assert(spec_hex_char(schema.keymap@[i].1@) is Some);
    }
    assert forall|j: int| 0 <= j < cs.len() implies {
        &&& (spec_field_str(#[trigger] cs[j], ("first")@) matches Some(h) ==> spec_hex_char(h)
            is Some)
        &&& (spec_field_str(cs[j], ("second")@) matches Some(h) ==> spec_hex_char(h) is Some)
        &&& (spec_field_str(cs[j], ("result")@) matches Some(h) ==> spec_hex_char(h) is Some)
    } by {
        assert(Some(schema.combinations@[j].first@) == spec_field_str(cs[j], ("first")@));
        assert(spec_hex_char(schema.combinations@[j].first@) is Some);
    }
    assert forall|i: int| 0 <= i < km.len() implies (#[trigger] layout.keymap@[i]).0@ == km[i].0@
        && (km[i].1 matches JsonVal::Str(h) && Some(layout.keymap@[i].1) == spec_hex_char(h@)) by {
        assert(schema.keymap@[i].0@ == km[i].0@);
        assert(schema.keymap@[i].1@ == km[i].1->Str_0@);
    }
    assert forall|j: int| 0 <= j < cs.len() implies {
        &&& Some((#[trigger] layout.combinations@[j]).0) == spec_hex_of_field(cs[j], ("first")@)
        &&& Some(layout.combinations@[j].1) == spec_hex_of_field(cs[j], ("second")@)
        &&& Some(layout.combinations@[j].2) == spec_hex_of_field(cs[j], ("result")@)
    } by {
        assert(Some(schema.combinations@[j].first@) == spec_field_str(cs[j], ("first")@));
        assert(Some(schema.combinations@[j].second@) == spec_field_str(cs[j], ("second")@));
        assert(Some(schema.combinations@[j].result@) == spec_field_str(cs[j], ("result")@));
    }
}

/// When the config's hex strings are all valid, the schema read from it
/// carries only valid hex strings.
proof fn lemma_hexes_carry_to_schema(v: JsonVal, schema: LayoutSchema)
    requires
        spec_schema_ok(v),
        schema_matches(v, schema),
        spec_hexes_ok(v),
    ensures
        forall|i: int|
            0 <= i < schema.keymap@.len() ==> spec_hex_char(#[trigger] schema.keymap@[i].1@)
                is Some,
        forall|i: int|
            0 <= i < schema.combinations@.len() ==> {
                &&& spec_hex_char(#[trigger] schema.combinations@[i].first@) is Some
                &&& spec_hex_char(schema.combinations@[i].second@) is Some
                &&& spec_hex_char(schema.combinations@[i].result@) is Some
            },
{
    let km = spec_keymap_entries(v)->Some_0;
    let cs = spec_comb_items(v)->Some_0;
    assert forall|i: int| 0 <= i < schema.keymap@.len() implies spec_hex_char(
        #[trigger] schema.keymap@[i].1@) is Some by {
        assert((km[i]).1 is Str);
        assert(schema.keymap@[i].1@ == km[i].1->Str_0@);
    }
    assert forall|i: int| 0 <= i < schema.combinations@.len() implies {
        &&& spec_hex_char(#[trigger] schema.combinations@[i].first@) is Some
        &&& spec_hex_char(schema.combinations@[i].second@) is Some
        &&& spec_hex_char(schema.combinations@[i].result@) is Some
    } by {
        assert(spec_comb_entry_ok(cs[i]));
        assert(Some(schema.combinations@[i].first@) == spec_field_str(cs[i], ("first")@));
        assert(Some(schema.combinations@[i].second@) == spec_field_str(cs[i], ("second")@));
        assert(Some(schema.combinations@[i].result@) == spec_field_str(cs[i], ("result")@));
    }
}

/// Whether every hex code-point string in the parsed config decodes.
pub open spec fn spec_hexes_ok(v: JsonVal) -> bool {
    &&& (spec_keymap_entries(v) matches Some(km) ==> forall|i: int|
        0 <= i < km.len() ==> ((#[trigger] km[i]).1 matches JsonVal::Str(h) ==> spec_hex_char(h@)
            is Some))
    &&& (spec_comb_items(v) matches Some(cs) ==> forall|j: int|
        0 <= j < cs.len() ==> {
            &&& (spec_field_str(#[trigger] cs[j], ("first")@) matches Some(h) ==> spec_hex_char(h)
                is Some)
            &&& (spec_field_str(cs[j], ("second")@) matches Some(h) ==> spec_hex_char(h) is Some)
            &&& (spec_field_str(cs[j], ("result")@) matches Some(h) ==> spec_hex_char(h) is Some)
        })
}

/// Whether a config text is one that loads: its structural bracket
/// nesting is within the parser's bound, the JSON5 parse succeeds, the
/// structural reader accepts the document, and every hex code-point
/// string decodes.
pub open spec fn spec_config_ok(text: Seq<char>) -> bool {
    &&& spec_nesting_ok(vstd::utf8::encode_utf8(text))
    &&& json5_of(text) is Ok
    &&& spec_schema_ok(json5_of(text)->Ok_0)
    &&& spec_hexes_ok(json5_of(text)->Ok_0)
}

/// The decoded character of the hex string at this key of a combination
/// entry.
pub open spec fn spec_hex_of_field(item: JsonVal, key: Seq<char>) -> Option<char> {
    match spec_field_str(item, key) {
        Some(h) => spec_hex_char(h),
        None => None,
    }
}

/// Whether a built layout is exactly the reading of the parsed config.
pub open spec fn layout_matches_value(v: JsonVal, layout: KeyboardLayout) -> bool {
    &&& Some(layout.id@) == spec_field_str(v, ("id")@)
    &&& Some(layout.name@) == spec_field_str(v, ("name")@)
    &&& layout.layout_type == (if spec_field_str(v, ("type")@) == Some(("jamo")@) {
        LayoutType::Jamo
    } else {
        LayoutType::Jaso
    })
    &&& layout.auto_reorder == spec_auto_reorder(v)
    &&& (spec_keymap_entries(v) matches Some(km) && layout.keymap@.len() == km.len() && forall|
        i: int,
    |
        0 <= i < km.len() ==> (#[trigger] layout.keymap@[i]).0@ == km[i].0@ && (km[i].1 matches
        JsonVal::Str(h) && Some(layout.keymap@[i].1) == spec_hex_char(h@)))
    &&& (spec_comb_items(v) matches Some(cs) && layout.combinations@.len() == cs.len() && forall|
        j: int,
    |
        0 <= j < cs.len() ==> {
            &&& Some((#[trigger] layout.combinations@[j]).0) == spec_hex_of_field(
                cs[j],
                ("first")@,
            )
            &&& Some(layout.combinations@[j].1) == spec_hex_of_field(cs[j], ("second")@)
            &&& Some(layout.combinations@[j].2) == spec_hex_of_field(cs[j], ("result")@)
        })
}

/// Whether a built layout is exactly the reading of a config text.
pub open spec fn layout_matches_config(text: Seq<char>, layout: KeyboardLayout) -> bool {
    json5_of(text) matches Ok(v) && layout_matches_value(v, layout)
}

} // verus!
