//! Sprite sheet metadata: parses the texture-packer JSON that maps
//! sprite names to frames on a texture.
//!
//! The JSON text is turned into a tree of plain values by one trusted
//! call into `serde_json`; everything read out of the tree afterwards
//! is verified logic.  Sprite keys and the texture name are stripped
//! of their file extension by one trusted call into `regex`.

use vstd::prelude::*;
use crate::types::Vec2I;

verus! {

#[verifier::external_type_specification]
#[verifier::external_body]
pub struct ExJsonValue(serde_json::Value);

/// A JSON document as plain values.  Numbers that do not fit `i64`
/// (floats, huge integers) are kept only as a marker, which is all the
/// sheet format needs.
#[derive(Debug, PartialEq)]
pub enum JsonValue {
    Null,
    Bool(bool),
    Int(i64),
    NonIntNum,
    Str(String),
    Arr(Vec<JsonValue>),
    Obj(Vec<(String, JsonValue)>),
}

/// What `serde_json` parses the text into, converted to plain values
/// (object entries in the parser's key order).
pub uninterp spec fn json_of(text: Seq<char>) -> Option<JsonValue>;

/// The file name with its final dot-extension stripped; a name without
/// one is returned whole.
pub uninterp spec fn mainname_of(name: Seq<char>) -> Seq<char>;

/// Relies on serde_json::from_str::<serde_json::Value>: parses the
/// text, or reports a malformed document with `None`.  The conversion
/// below maps the parsed tree onto the crate's plain values.
#[verifier::external_body]
fn parse_json(text: &str) -> (r: Option<JsonValue>)
    ensures
        r == json_of(text@),
{
    serde_json::from_str::<serde_json::Value>(text).ok().map(convert_json)
}

/// Converts one parsed `serde_json::Value` node: one arm per variant,
/// moving the fields.
#[verifier::external_body]
fn convert_json(v: serde_json::Value) -> JsonValue {
    match v {
        serde_json::Value::Null => JsonValue::Null,
        serde_json::Value::Bool(b) => JsonValue::Bool(b),
        serde_json::Value::Number(n) => match n.as_i64() {
            Some(i) => JsonValue::Int(i),
            None => JsonValue::NonIntNum,
        },
        serde_json::Value::String(s) => JsonValue::Str(s),
        serde_json::Value::Array(a) => JsonValue::Arr(a.into_iter().map(convert_json).collect()),
        serde_json::Value::Object(o) => JsonValue::Obj(
            o.into_iter().map(|(k, x)| (k, convert_json(x))).collect(),
        ),
    }
}

/// Relies on regex::Regex::captures with an anchored greedy pattern:
/// returns the capture before the final dot-extension, or the name
/// unchanged when nothing matches.
#[verifier::external_body]
fn get_mainname(filename: &str) -> (r: String)
    ensures
        r@ == mainname_of(filename@),
{
    let re = regex::Regex::new(r"^(.*)\.\w+").unwrap();
    match re.captures(filename) {
        Some(caps) => caps.get(1).unwrap().as_str().to_string(),
        None => filename.to_string(),
    }
}

/// A rectangle on the texture, in pixels.
#[derive(Clone, Copy, Debug, PartialEq, Eq, Structural)]
pub struct Rect {
    pub x: i32,
    pub y: i32,
    pub w: u32,
    pub h: u32,
}

/// A size in pixels.
#[derive(Clone, Copy, Debug, PartialEq, Eq, Structural)]
pub struct Size {
    pub w: u32,
    pub h: u32,
}

/// Trim data of a sprite whose transparent border was cut away.
#[derive(Clone, Copy, Debug, PartialEq, Eq, Structural)]
pub struct Trimmed {
    pub sprite_source_size: Rect,
    pub source_size: Size,
}

/// One sprite's frame on the texture.
#[derive(Clone, Copy, Debug, PartialEq, Eq, Structural)]
pub struct Sheet {
    pub frame: Rect,
    pub rotated: bool,
    pub trimmed: Option<Trimmed>,
}

/// A loaded sprite sheet: the texture name and the sprites on it.
pub struct SpriteSheet {
    /// Texture file name without its extension.
    pub texture_name: String,
    /// Sprite entries, keyed by name without extension, in file order.
    pub sheets: Vec<(String, Sheet)>,
}

/// The first value under `key` among object entries.
pub open spec fn spec_get_field(entries: Seq<(String, JsonValue)>, key: Seq<char>) -> Option<
    JsonValue,
>
    decreases entries.len(),
{
    if entries.len() == 0 {
        None
    } else if entries[0].0@ == key {
        Some(entries[0].1)
    } else {
        spec_get_field(entries.skip(1), key)
    }
}

/// An `i64` field value in `i32` range.
pub open spec fn spec_field_i32(entries: Seq<(String, JsonValue)>, key: Seq<char>) -> Option<i32> {
    match spec_get_field(entries, key) {
        Some(JsonValue::Int(i)) => if -0x8000_0000 <= i <= 0x7fff_ffff {
            Some(i as i32)
        } else {
            None
        },
        _ => None,
    }
}

/// A nonnegative `i64` field value in `u32` range.
pub open spec fn spec_field_u32(entries: Seq<(String, JsonValue)>, key: Seq<char>) -> Option<u32> {
    match spec_get_field(entries, key) {
        Some(JsonValue::Int(i)) => if 0 <= i <= 0xffff_ffff {
            Some(i as u32)
        } else {
            None
        },
        _ => None,
    }
}

/// What `convert_rect` reads from a JSON node: its `x`, `y`, `w`, `h`
/// fields, all integral and in range.
pub open spec fn spec_convert_rect(v: JsonValue) -> Option<Rect> {
    match v {
        JsonValue::Obj(entries) => {
            match (
                spec_field_i32(entries@, "x"@),
                spec_field_i32(entries@, "y"@),
                spec_field_u32(entries@, "w"@),
                spec_field_u32(entries@, "h"@),
            ) {
                (Some(x), Some(y), Some(w), Some(h)) => Some(Rect { x, y, w, h }),
                _ => None,
            }
        },
        _ => None,
    }
}

/// What `convert_size` reads: the `w` and `h` fields.
pub open spec fn spec_convert_size(v: JsonValue) -> Option<Size> {
    match v {
        JsonValue::Obj(entries) => {
            match (spec_field_u32(entries@, "w"@), spec_field_u32(entries@, "h"@)) {
                (Some(w), Some(h)) => Some(Size { w, h }),
                _ => None,
            }
        },
        _ => None,
    }
}

/// What `convert_sheet` reads from one sprite entry: its frame, the
/// rotation flag, and trim data when the entry is marked trimmed.
pub open spec fn spec_convert_sheet(v: JsonValue) -> Option<Sheet> {
    match v {
        JsonValue::Obj(entries) => {
            let frame_opt = match spec_get_field(entries@, "frame"@) {
                Some(f) => spec_convert_rect(f),
                None => None,
            };
            let rotated_opt = match spec_get_field(entries@, "rotated"@) {
                Some(JsonValue::Bool(b)) => Some(b),
                _ => None,
            };
            match (frame_opt, rotated_opt) {
                (Some(frame), Some(rotated)) => {
                    if spec_get_field(entries@, "trimmed"@) == Some(JsonValue::Bool(true)) {
                        let sss = match spec_get_field(entries@, "spriteSourceSize"@) {
                            Some(f) => spec_convert_rect(f),
                            None => None,
                        };
                        let ss = match spec_get_field(entries@, "sourceSize"@) {
                            Some(f) => spec_convert_size(f),
                            None => None,
                        };
                        match (sss, ss) {
                            (Some(sprite_source_size), Some(source_size)) => Some(
                                Sheet {
                                    frame,
                                    rotated,
                                    trimmed: Some(Trimmed { sprite_source_size, source_size }),
                                },
                            ),
                            _ => None,
                        }
                    } else {
                        Some(Sheet { frame, rotated, trimmed: None })
                    }
                },
                _ => None,
            }
        },
        _ => None,
    }
}

impl SpriteSheet {
    /// The loaded entries, keys as character sequences.
    pub open spec fn view(&self) -> Seq<(Seq<char>, Sheet)> {
        Seq::new(self.sheets@.len(), |i: int| (self.sheets@[i].0@, self.sheets@[i].1))
    }

    /// Builds an empty sheet.
    pub fn empty() -> (r: SpriteSheet)
        ensures
            r.texture_name@ == Seq::<char>::empty(),
            r@ == Seq::<(Seq<char>, Sheet)>::empty(),
    {
        let r = SpriteSheet { texture_name: String::new(), sheets: Vec::new() };
        proof {
            assert(r@ =~= Seq::<(Seq<char>, Sheet)>::empty());
        }
        r
    }

    /// Parses a sheet description.  The document must be an object
    /// whose `meta.image` names the texture and whose `frames` object
    /// maps each sprite name to a convertible entry; any other shape
    /// yields `None`.  Names keep only their extension-stripped main
    /// part.
    pub fn load(text: &str) -> (r: Option<SpriteSheet>)
        ensures
            json_of(text@) is None ==> r is None,
            r matches Some(s) ==> {
                &&& json_of(text@) matches Some(doc)
                &&& doc matches JsonValue::Obj(entries)
                &&& (exists|img: Seq<char>|
                    spec_meta_image(entries@) == Some(img) && s.texture_name@ == mainname_of(img))
            },
    {
        let doc = match parse_json(text) {
            Some(d) => d,
            None => {
                return None;
            },
        };
        let entries = match &doc {
            JsonValue::Obj(entries) => entries,
            _ => {
                return None;
            },
        };
        let meta_entries = match get_field(entries, "meta") {
            Some(JsonValue::Obj(m)) => m,
            _ => {
                return None;
            },
        };
        let image = match get_field(meta_entries, "image") {
            Some(JsonValue::Str(s)) => s,
            _ => {
                return None;
            },
        };
        let texture_name = get_mainname(image.as_str());
        let frames = match get_field(entries, "frames") {
            Some(JsonValue::Obj(f)) => f,
            _ => {
                return None;
            },
        };
        let mut sheets: Vec<(String, Sheet)> = Vec::new();
        let mut i: usize = 0;
        while i < frames.len()
            invariant
                i <= frames@.len(),
            decreases frames@.len() - i,
        {
            let key = &frames[i].0;
            let sheet = match convert_sheet(&frames[i].1) {
                Some(s) => s,
                None => {
                    return None;
                },
            };
            let main = get_mainname(key.as_str());
            sheets.push((main, sheet));
            i = i + 1;
        }
        Some(SpriteSheet { texture_name, sheets })
    }

    /// Looks a sprite up by its extension-stripped name.
    pub fn get(&self, key: &str) -> (r: Option<&Sheet>)
        ensures
            r matches Some(s) ==> exists|i: int|
                0 <= i < self@.len() && self@[i].0 == key@ && #[trigger] self@[i].1 == *s,
            r is None ==> forall|i: int| 0 <= i < self@.len() ==> (#[trigger] self@[i]).0 != key@,
    {
        let mut i: usize = 0;
        while i < self.sheets.len()
            invariant
                i <= self.sheets@.len(),
                forall|j: int| 0 <= j < i ==> (#[trigger] self@[j]).0 != key@,
            decreases self.sheets@.len() - i,
        {
            if str_eq(self.sheets[i].0.as_str(), key) {
                proof {
                    assert(self@[i as int].0 == key@ && self@[i as int].1 == self.sheets@[
                        i as int
                    ].1);
                }
                return Some(&self.sheets[i].1);
            }
            i = i + 1;
        }
        None
    }
}

/// The `meta.image` value of a parsed document, when it is a string.
pub open spec fn spec_meta_image(entries: Seq<(String, JsonValue)>) -> Option<Seq<char>> {
    match spec_get_field(entries, "meta"@) {
        Some(JsonValue::Obj(m)) => match spec_get_field(m@, "image"@) {
            Some(JsonValue::Str(s)) => Some(s@),
            _ => None,
        },
        _ => None,
    }
}

/// String equality on views.
fn str_eq(a: &str, b: &str) -> (r: bool)
    ensures
        r == (a@ == b@),
{
    let sa = a.to_owned();
    let sb = b.to_owned();
    sa == sb
}

/// Finds the first value under `key` among object entries.
fn get_field<'a>(entries: &'a Vec<(String, JsonValue)>, key: &str) -> (r: Option<&'a JsonValue>)
    ensures
        match spec_get_field(entries@, key@) {
            Some(v) => r matches Some(rv) && *rv == v,
            None => r is None,
        },
{
    let mut i: usize = 0;
    proof {
        assert(entries@.skip(0) =~= entries@);
    }
    while i < entries.len()
        invariant
            i <= entries@.len(),
            spec_get_field(entries@, key@) == spec_get_field(entries@.skip(i as int), key@),
        decreases entries@.len() - i,
    {
        proof {
            assert(entries@.skip(i as int)[0] == entries@[i as int]);
            assert(entries@.skip(i as int).skip(1) =~= entries@.skip(i + 1));
        }
        if str_eq(entries[i].0.as_str(), key) {
            return Some(&entries[i].1);
        }
        i = i + 1;
    }
    proof {
        assert(entries@.skip(i as int).len() == 0);
    }
    None
}

/// Reads an `i32`-ranged integer field.
fn field_i32(entries: &Vec<(String, JsonValue)>, key: &str) -> (r: Option<i32>)
    ensures
        r == spec_field_i32(entries@, key@),
{
    match get_field(entries, key) {
        Some(JsonValue::Int(i)) => {
            let v = *i;
            if -0x8000_0000i64 <= v && v <= 0x7fff_ffffi64 {
                Some(v as i32)
            } else {
                None
            }
        },
        _ => None,
    }
}

/// Reads a `u32`-ranged integer field.
fn field_u32(entries: &Vec<(String, JsonValue)>, key: &str) -> (r: Option<u32>)
    ensures
        r == spec_field_u32(entries@, key@),
{
    match get_field(entries, key) {
        Some(JsonValue::Int(i)) => {
            let v = *i;
            if 0i64 <= v && v <= 0xffff_ffffi64 {
                Some(v as u32)
            } else {
                None
            }
        },
        _ => None,
    }
}

/// Converts a JSON node to a rectangle.
fn convert_rect(v: &JsonValue) -> (r: Option<Rect>)
    ensures
        r == spec_convert_rect(*v),
{
    match v {
        JsonValue::Obj(entries) => {
            let x = field_i32(entries, "x");
            let y = field_i32(entries, "y");
            let w = field_u32(entries, "w");
            let h = field_u32(entries, "h");
            match (x, y, w, h) {
                (Some(x), Some(y), Some(w), Some(h)) => Some(Rect { x, y, w, h }),
                _ => None,
            }
        },
        _ => None,
    }
}

/// Converts a JSON node to a size.
fn convert_size(v: &JsonValue) -> (r: Option<Size>)
    ensures
        r == spec_convert_size(*v),
{
    match v {
        JsonValue::Obj(entries) => {
            let w = field_u32(entries, "w");
            let h = field_u32(entries, "h");
            match (w, h) {
                (Some(w), Some(h)) => Some(Size { w, h }),
                _ => None,
            }
        },
        _ => None,
    }
}

/// Converts a JSON node to a sprite entry.
fn convert_sheet(v: &JsonValue) -> (r: Option<Sheet>)
    ensures
        r == spec_convert_sheet(*v),
{
    match v {
        JsonValue::Obj(entries) => {
            let frame = match get_field(entries, "frame") {
                Some(f) => convert_rect(f),
                None => None,
            };
            let rotated = match get_field(entries, "rotated") {
                Some(JsonValue::Bool(b)) => Some(*b),
                _ => None,
            };
            match (frame, rotated) {
                (Some(frame), Some(rotated)) => {
                    let is_trimmed = match get_field(entries, "trimmed") {
                        Some(JsonValue::Bool(b)) => *b,
                        _ => false,
                    };
                    if is_trimmed {
                        let sss = match get_field(entries, "spriteSourceSize") {
                            Some(f) => convert_rect(f),
                            None => None,
                        };
                        let ss = match get_field(entries, "sourceSize") {
                            Some(f) => convert_size(f),
                            None => None,
                        };
                        match (sss, ss) {
                            (Some(sprite_source_size), Some(source_size)) => Some(
                                Sheet {
                                    frame,
                                    rotated,
                                    trimmed: Some(Trimmed { sprite_source_size, source_size }),
                                },
                            ),
                            _ => None,
                        }
                    } else {
                        Some(Sheet { frame, rotated, trimmed: None })
                    }
                },
                _ => None,
            }
        },
        _ => None,
    }
}

} // verus!
