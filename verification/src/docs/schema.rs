//! Schema metadata helpers shared by documentation and OpenAPI generation: short type
//! names and the fallback schema kind chosen from a Rust type name.
use vstd::prelude::*;

use crate::text::{
    after_last_sep, before_angle, before_first_angle, last_path_segment, starts_with,
    starts_with_spec, str_eq, trim, trim_spec,
};

verus! {

/// The last `::` segment of the part of a type name before its first `<`, trimmed.
pub open spec fn short_name_spec(s: Seq<char>) -> Seq<char> {
    trim_spec(after_last_sep(before_angle(s)))
}

/// Strip a fully-qualified Rust path down to its last segment (generic arguments dropped).
pub fn short_name(rust_type: &str) -> (s: &str)
    ensures
        s@ == short_name_spec(rust_type@),
{
    let head = before_first_angle(rust_type);
    let last = last_path_segment(head);
    trim(last)
}

/// The fallback OpenAPI schema kind of a Rust type name.
#[derive(Debug, Clone, PartialEq, Eq)]
pub enum SchemaKind {
    /// `{"type": "integer"}`
    Integer,
    /// `{"type": "number"}`
    Number,
    /// `{"type": "boolean"}`
    Boolean,
    /// `{"type": "string"}`
    Text,
    /// `{"type": "array", "items": {}}`
    Array,
    /// `{"type": "object", "title": <title>}`
    Object { title: String },
}

/// Abstract value of a [`SchemaKind`].
pub enum SchemaKindView {
    Integer,
    Number,
    Boolean,
    Text,
    Array,
    Object(Seq<char>),
}

impl View for SchemaKind {
    type V = SchemaKindView;

    open spec fn view(&self) -> SchemaKindView {
        match self {
            SchemaKind::Integer => SchemaKindView::Integer,
            SchemaKind::Number => SchemaKindView::Number,
            SchemaKind::Boolean => SchemaKindView::Boolean,
            SchemaKind::Text => SchemaKindView::Text,
            SchemaKind::Array => SchemaKindView::Array,
            SchemaKind::Object { title } => SchemaKindView::Object(title@),
        }
    }
}

/// Whether a short name denotes a Rust integer type.
pub open spec fn integer_name(s: Seq<char>) -> bool {
    s == "u8"@ || s == "u16"@ || s == "u32"@ || s == "u64"@ || s == "u128"@ || s == "usize"@
        || s == "i8"@ || s == "i16"@ || s == "i32"@ || s == "i64"@ || s == "i128"@ || s
        == "isize"@
}

/// Whether a (trimmed) type name denotes a sequence type.
pub open spec fn array_name(t: Seq<char>) -> bool {
    starts_with_spec(t, "alloc::vec::Vec"@) || starts_with_spec(t, "Vec"@) || starts_with_spec(
        t,
        "["@,
    ) || starts_with_spec(t, "&["@) || starts_with_spec(t, "[&"@)
}

/// The fallback schema kind of a type name: by its short name for primitives, `Array` for
/// vectors and slices, else an object titled with the short name.
pub open spec fn schema_kind_spec(s: Seq<char>) -> SchemaKindView {
    let t = trim_spec(s);
    let short = short_name_spec(t);
    if integer_name(short) {
        SchemaKindView::Integer
    } else if short == "f32"@ || short == "f64"@ {
        SchemaKindView::Number
    } else if short == "bool"@ {
        SchemaKindView::Boolean
    } else if short == "String"@ || short == "str"@ || short == "&str"@ {
        SchemaKindView::Text
    } else if array_name(t) {
        SchemaKindView::Array
    } else {
        SchemaKindView::Object(short)
    }
}

fn is_integer_name(s: &str) -> (b: bool)
    ensures
        b == integer_name(s@),
{
    str_eq(s, "u8") || str_eq(s, "u16") || str_eq(s, "u32") || str_eq(s, "u64") || str_eq(
        s,
        "u128",
    ) || str_eq(s, "usize") || str_eq(s, "i8") || str_eq(s, "i16") || str_eq(s, "i32")
        || str_eq(s, "i64") || str_eq(s, "i128") || str_eq(s, "isize")
}

/// Choose the fallback schema kind for a Rust type name.
pub fn schema_kind(rust_type: &str) -> (k: SchemaKind)
    ensures
        k@ == schema_kind_spec(rust_type@),
{
    let trimmed = trim(rust_type);
    let short = short_name(trimmed);
    if is_integer_name(short) {
        SchemaKind::Integer
    } else if str_eq(short, "f32") || str_eq(short, "f64") {
        SchemaKind::Number
    } else if str_eq(short, "bool") {
        SchemaKind::Boolean
    } else if str_eq(short, "String") || str_eq(short, "str") || str_eq(short, "&str") {
        SchemaKind::Text
    } else if starts_with(trimmed, "alloc::vec::Vec") || starts_with(trimmed, "Vec") || starts_with(
        trimmed,
        "[",
    ) || starts_with(trimmed, "&[") || starts_with(trimmed, "[&") {
        SchemaKind::Array
    } else {
        SchemaKind::Object { title: String::from_str(short) }
    }
}

} // verus!
