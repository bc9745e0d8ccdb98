//! JSON-safe values and the normalization of decoded element values.
use crate::options::OutputFormat;
use crate::tag::{hex_digit, hex_digits, string_from_chars, Tag};
use vstd::prelude::*;

verus! {

/// One JSON scalar that a tag value can hold. Floating-point numbers are
/// carried as their IEEE-754 bit patterns.
#[derive(Debug, PartialEq, Eq)]
pub enum JsonScalar {
    Str(String),
    UInt(u64),
    Int(i64),
    F32Bits(u32),
    F64Bits(u64),
}

/// The mathematical model of a [`JsonScalar`].
pub enum ScalarView {
    Str(Seq<char>),
    UInt(u64),
    Int(i64),
    F32Bits(u32),
    F64Bits(u64),
}

impl View for JsonScalar {
    type V = ScalarView;

    open spec fn view(&self) -> ScalarView {
        match self {
            JsonScalar::Str(s) => ScalarView::Str(s@),
            JsonScalar::UInt(n) => ScalarView::UInt(*n),
            JsonScalar::Int(n) => ScalarView::Int(*n),
            JsonScalar::F32Bits(b) => ScalarView::F32Bits(*b),
            JsonScalar::F64Bits(b) => ScalarView::F64Bits(*b),
        }
    }
}

/// A normalized tag value: a single scalar or an ordered array of scalars.
#[derive(Debug, PartialEq, Eq)]
pub enum JsonValue {
    Scalar(JsonScalar),
    Array(Vec<JsonScalar>),
}

/// The mathematical model of a [`JsonValue`].
pub enum ValueView {
    Scalar(ScalarView),
    Array(Seq<ScalarView>),
}

pub open spec fn scalars_view(s: Seq<JsonScalar>) -> Seq<ScalarView> {
    s.map_values(|x: JsonScalar| x@)
}

impl View for JsonValue {
    type V = ValueView;

    open spec fn view(&self) -> ValueView {
        match self {
            JsonValue::Scalar(s) => ValueView::Scalar(s@),
            JsonValue::Array(v) => ValueView::Array(scalars_view(v@)),
        }
    }
}

/// A decoded primitive value, one case per kind the decoder produces.
/// Floating-point items are carried as their IEEE-754 bit patterns; date,
/// time and date-time items as their canonical text.
#[derive(Debug)]
pub enum PrimitiveValue {
    Empty,
    Strs(Vec<String>),
    Str(String),
    Tags(Vec<Tag>),
    U8(Vec<u8>),
    I16(Vec<i16>),
    U16(Vec<u16>),
    I32(Vec<i32>),
    U32(Vec<u32>),
    I64(Vec<i64>),
    U64(Vec<u64>),
    F32(Vec<u32>),
    F64(Vec<u64>),
    Date(Vec<String>),
    Time(Vec<String>),
    DateTime(Vec<String>),
}

/// A decoded element value: primitive, a nested sequence of `items` items
/// (never expanded), or another kind (such as encapsulated pixel data).
#[derive(Debug)]
pub enum ElementValue {
    Primitive(PrimitiveValue),
    Sequence { items: usize },
    Other,
}

pub open spec fn text_items(v: Seq<String>) -> Seq<ScalarView> {
    v.map_values(|s: String| ScalarView::Str(s@))
}

/// The items of a primitive value as JSON scalars, in order; `None` for a
/// kind that has no such rendering.
pub open spec fn primitive_items(p: PrimitiveValue) -> Option<Seq<ScalarView>> {
    match p {
        PrimitiveValue::Empty => None,
        PrimitiveValue::Strs(v) => Some(text_items(v@)),
        PrimitiveValue::Str(s) => Some(seq![ScalarView::Str(s@)]),
        PrimitiveValue::Tags(v) => Some(v@.map_values(|t: Tag| ScalarView::Str(t.key_spec()))),
        PrimitiveValue::U8(v) => Some(v@.map_values(|x: u8| ScalarView::UInt(x as u64))),
        PrimitiveValue::I16(v) => Some(v@.map_values(|x: i16| ScalarView::Int(x as i64))),
        PrimitiveValue::U16(v) => Some(v@.map_values(|x: u16| ScalarView::UInt(x as u64))),
        PrimitiveValue::I32(v) => Some(v@.map_values(|x: i32| ScalarView::Int(x as i64))),
        PrimitiveValue::U32(v) => Some(v@.map_values(|x: u32| ScalarView::UInt(x as u64))),
        PrimitiveValue::I64(v) => Some(v@.map_values(|x: i64| ScalarView::Int(x))),
        PrimitiveValue::U64(v) => Some(v@.map_values(|x: u64| ScalarView::UInt(x))),
        PrimitiveValue::F32(v) => Some(v@.map_values(|x: u32| ScalarView::F32Bits(x))),
        PrimitiveValue::F64(v) => Some(v@.map_values(|x: u64| ScalarView::F64Bits(x))),
        PrimitiveValue::Date(v) => Some(text_items(v@)),
        PrimitiveValue::Time(v) => Some(text_items(v@)),
        PrimitiveValue::DateTime(v) => Some(text_items(v@)),
    }
}

/// One item renders as a scalar; any other count as an array, in order.
pub open spec fn collapse_spec(items: Seq<ScalarView>) -> ValueView {
    if items.len() == 1 {
        ValueView::Scalar(items[0])
    } else {
        ValueView::Array(items)
    }
}

/// The JSON rendering of a primitive value; `debug` is the decoder's
/// debug-style dump of it, used for kinds without a structural rendering.
pub open spec fn primitive_json(p: PrimitiveValue, debug: Seq<char>) -> ValueView {
    match primitive_items(p) {
        Some(items) => collapse_spec(items),
        None => ValueView::Scalar(ScalarView::Str(debug)),
    }
}

/// Decimal digits of `n`, most significant first.
pub open spec fn decimal_spec(n: nat) -> Seq<char>
    decreases n,
{
    if n < 10 {
        seq![hex_digits()[n as int]]
    } else {
        decimal_spec(n / 10).push(hex_digits()[(n % 10) as int])
    }
}

/// The placeholder for the `k`-th item of a nested sequence.
pub open spec fn sequence_label(k: nat) -> Seq<char> {
    "Sequence Item "@ + decimal_spec(k)
}

/// The placeholders `Sequence Item 1` to `Sequence Item count`.
pub open spec fn sequence_placeholders(count: nat) -> Seq<ScalarView> {
    Seq::new(count, |i: int| ScalarView::Str(sequence_label((i + 1) as nat)))
}

/// Turns a list of scalars into a value by the single-item rule.
pub fn collapse(items: Vec<JsonScalar>) -> (r: JsonValue)
    ensures
        r@ == collapse_spec(scalars_view(items@)),
{
    if items.len() == 1 {
        let mut items = items;
        let first = items.pop().unwrap();
        assert(scalars_view(items@.push(first))[0] == first@);
        first.into_json()
    } else {
        proof {
            assert(scalars_view(items@).len() == items@.len());
        }
        JsonValue::Array(items)
    }
}

impl JsonScalar {
    pub fn into_json(self) -> (r: JsonValue)
        ensures
            r@ == ValueView::Scalar(self@),
    {
        JsonValue::Scalar(self)
    }
}

fn push_decimal(out: &mut Vec<char>, n: u64)
    ensures
        final(out)@ == old(out)@ + decimal_spec(n as nat),
    decreases n,
{
    if n >= 10 {
        push_decimal(out, n / 10);
    }
    out.push(hex_digit((n % 10) as u16));
    assert(final(out)@ =~= old(out)@ + decimal_spec(n as nat));
}

/// The decimal text of `n`.
pub fn decimal(n: u64) -> (r: String)
    ensures
        r@ == decimal_spec(n as nat),
{
    let mut out: Vec<char> = Vec::new();
    push_decimal(&mut out, n);
    assert(out@ =~= decimal_spec(n as nat));
    string_from_chars(out)
}

/// The placeholder `Sequence Item k`.
pub fn sequence_item_label(k: u64) -> (r: String)
    ensures
        r@ == sequence_label(k as nat),
{
    let prefix = String::from_str("Sequence Item ");
    let digits = decimal(k);
    prefix.concat(digits.as_str())
}

fn u8_items(v: &Vec<u8>) -> (r: Vec<JsonScalar>)
    ensures
        scalars_view(r@) == v@.map_values(|x: u8| ScalarView::UInt(x as u64)),
{
    let mut r: Vec<JsonScalar> = Vec::new();
    let mut i: usize = 0;
    while i < v.len()
        invariant
            i <= v@.len(),
            r@.len() == i,
            forall|j: int| 0 <= j < i ==> #[trigger] r@[j]@ == ({ let x = v@[j]; ScalarView::UInt(x as u64) }),
        decreases v@.len() - i,
    {
        r.push(JsonScalar::UInt(v[i] as u64));
        i += 1;
    }
    assert(scalars_view(r@) =~= v@.map_values(|x: u8| ScalarView::UInt(x as u64)));
    r
}

fn u16_items(v: &Vec<u16>) -> (r: Vec<JsonScalar>)
    ensures
        scalars_view(r@) == v@.map_values(|x: u16| ScalarView::UInt(x as u64)),
{
    let mut r: Vec<JsonScalar> = Vec::new();
    let mut i: usize = 0;
    while i < v.len()
        invariant
            i <= v@.len(),
            r@.len() == i,
            forall|j: int| 0 <= j < i ==> #[trigger] r@[j]@ == ({ let x = v@[j]; ScalarView::UInt(x as u64) }),
        decreases v@.len() - i,
    {
        r.push(JsonScalar::UInt(v[i] as u64));
        i += 1;
    }
    assert(scalars_view(r@) =~= v@.map_values(|x: u16| ScalarView::UInt(x as u64)));
    r
}

fn u32_items(v: &Vec<u32>) -> (r: Vec<JsonScalar>)
    ensures
        scalars_view(r@) == v@.map_values(|x: u32| ScalarView::UInt(x as u64)),
{
    let mut r: Vec<JsonScalar> = Vec::new();
    let mut i: usize = 0;
    while i < v.len()
        invariant
            i <= v@.len(),
            r@.len() == i,
            forall|j: int| 0 <= j < i ==> #[trigger] r@[j]@ == ({ let x = v@[j]; ScalarView::UInt(x as u64) }),
        decreases v@.len() - i,
    {
        r.push(JsonScalar::UInt(v[i] as u64));
        i += 1;
    }
    assert(scalars_view(r@) =~= v@.map_values(|x: u32| ScalarView::UInt(x as u64)));
    r
}

fn u64_items(v: &Vec<u64>) -> (r: Vec<JsonScalar>)
    ensures
        scalars_view(r@) == v@.map_values(|x: u64| ScalarView::UInt(x)),
{
    let mut r: Vec<JsonScalar> = Vec::new();
    let mut i: usize = 0;
    while i < v.len()
        invariant
            i <= v@.len(),
            r@.len() == i,
            forall|j: int| 0 <= j < i ==> #[trigger] r@[j]@ == ({ let x = v@[j]; ScalarView::UInt(x) }),
        decreases v@.len() - i,
    {
        r.push(JsonScalar::UInt(v[i]));
        i += 1;
    }
    assert(scalars_view(r@) =~= v@.map_values(|x: u64| ScalarView::UInt(x)));
    r
}

fn i16_items(v: &Vec<i16>) -> (r: Vec<JsonScalar>)
    ensures
        scalars_view(r@) == v@.map_values(|x: i16| ScalarView::Int(x as i64)),
{
    let mut r: Vec<JsonScalar> = Vec::new();
    let mut i: usize = 0;
    while i < v.len()
        invariant
            i <= v@.len(),
            r@.len() == i,
            forall|j: int| 0 <= j < i ==> #[trigger] r@[j]@ == ({ let x = v@[j]; ScalarView::Int(x as i64) }),
        decreases v@.len() - i,
    {
        r.push(JsonScalar::Int(v[i] as i64));
        i += 1;
    }
    assert(scalars_view(r@) =~= v@.map_values(|x: i16| ScalarView::Int(x as i64)));
    r
}

fn i32_items(v: &Vec<i32>) -> (r: Vec<JsonScalar>)
    ensures
        scalars_view(r@) == v@.map_values(|x: i32| ScalarView::Int(x as i64)),
{
    let mut r: Vec<JsonScalar> = Vec::new();
    let mut i: usize = 0;
    while i < v.len()
        invariant
            i <= v@.len(),
            r@.len() == i,
            forall|j: int| 0 <= j < i ==> #[trigger] r@[j]@ == ({ let x = v@[j]; ScalarView::Int(x as i64) }),
        decreases v@.len() - i,
    {
        r.push(JsonScalar::Int(v[i] as i64));
        i += 1;
    }
    assert(scalars_view(r@) =~= v@.map_values(|x: i32| ScalarView::Int(x as i64)));
    r
}

fn i64_items(v: &Vec<i64>) -> (r: Vec<JsonScalar>)
    ensures
        scalars_view(r@) == v@.map_values(|x: i64| ScalarView::Int(x)),
{
    let mut r: Vec<JsonScalar> = Vec::new();
    let mut i: usize = 0;
    while i < v.len()
        invariant
            i <= v@.len(),
            r@.len() == i,
            forall|j: int| 0 <= j < i ==> #[trigger] r@[j]@ == ({ let x = v@[j]; ScalarView::Int(x) }),
        decreases v@.len() - i,
    {
        r.push(JsonScalar::Int(v[i]));
        i += 1;
    }
    assert(scalars_view(r@) =~= v@.map_values(|x: i64| ScalarView::Int(x)));
    r
}

fn float32_items(v: &Vec<u32>) -> (r: Vec<JsonScalar>)
    ensures
        scalars_view(r@) == v@.map_values(|x: u32| ScalarView::F32Bits(x)),
{
    let mut r: Vec<JsonScalar> = Vec::new();
    let mut i: usize = 0;
    while i < v.len()
        invariant
            i <= v@.len(),
            r@.len() == i,
            forall|j: int| 0 <= j < i ==> #[trigger] r@[j]@ == ({ let x = v@[j]; ScalarView::F32Bits(x) }),
        decreases v@.len() - i,
    {
        r.push(JsonScalar::F32Bits(v[i]));
        i += 1;
    }
    assert(scalars_view(r@) =~= v@.map_values(|x: u32| ScalarView::F32Bits(x)));
    r
}

fn float64_items(v: &Vec<u64>) -> (r: Vec<JsonScalar>)
    ensures
        scalars_view(r@) == v@.map_values(|x: u64| ScalarView::F64Bits(x)),
{
    let mut r: Vec<JsonScalar> = Vec::new();
    let mut i: usize = 0;
    while i < v.len()
        invariant
            i <= v@.len(),
            r@.len() == i,
            forall|j: int| 0 <= j < i ==> #[trigger] r@[j]@ == ({ let x = v@[j]; ScalarView::F64Bits(x) }),
        decreases v@.len() - i,
    {
        r.push(JsonScalar::F64Bits(v[i]));
        i += 1;
    }
    assert(scalars_view(r@) =~= v@.map_values(|x: u64| ScalarView::F64Bits(x)));
    r
}

fn text_scalars(v: &Vec<String>) -> (r: Vec<JsonScalar>)
    ensures
        scalars_view(r@) == text_items(v@),
{
    let mut r: Vec<JsonScalar> = Vec::new();
    let mut i: usize = 0;
    while i < v.len()
        invariant
            i <= v@.len(),
            r@.len() == i,
            forall|j: int| 0 <= j < i ==> #[trigger] r@[j]@ == ({ let x = v@[j]; ScalarView::Str(x@) }),
        decreases v@.len() - i,
    {
        r.push(JsonScalar::Str(v[i].clone()));
        i += 1;
    }
    assert(scalars_view(r@) =~= text_items(v@));
    r
}

fn tag_scalars(v: &Vec<Tag>) -> (r: Vec<JsonScalar>)
    ensures
        scalars_view(r@) == v@.map_values(|x: Tag| ScalarView::Str(x.key_spec())),
{
    let mut r: Vec<JsonScalar> = Vec::new();
    let mut i: usize = 0;
    while i < v.len()
        invariant
            i <= v@.len(),
            r@.len() == i,
            forall|j: int| 0 <= j < i ==> #[trigger] r@[j]@ == ({ let x = v@[j]; ScalarView::Str(x.key_spec()) }),
        decreases v@.len() - i,
    {
        r.push(JsonScalar::Str(v[i].key()));
        i += 1;
    }
    assert(scalars_view(r@) =~= v@.map_values(|x: Tag| ScalarView::Str(x.key_spec())));
    r
}

fn sequence_scalars(count: usize) -> (r: Vec<JsonScalar>)
    ensures
        scalars_view(r@) == sequence_placeholders(count as nat),
{
    let mut r: Vec<JsonScalar> = Vec::new();
    let mut i: usize = 0;
    while i < count
        invariant
            i <= count,
            r@.len() == i,
            forall|j: int| 0 <= j < i ==> #[trigger] r@[j]@ == ScalarView::Str(sequence_label((j + 1) as nat)),
        decreases count - i,
    {
        r.push(JsonScalar::Str(sequence_item_label(i as u64 + 1)));
        i += 1;
    }
    assert(scalars_view(r@) =~= sequence_placeholders(count as nat));
    r
}

/// Renders a primitive value: each item as a JSON scalar, one item as a
/// scalar and any other count as an array in their order; a kind
/// without such a rendering as the text `debug`.
pub fn convert_primitive_value(p: &PrimitiveValue, debug: &String) -> (r: JsonValue)
    ensures
        r@ == primitive_json(*p, debug@),
{
    match p {
        PrimitiveValue::Empty => JsonValue::Scalar(JsonScalar::Str(debug.clone())),
        PrimitiveValue::Strs(v) => collapse(text_scalars(v)),
        PrimitiveValue::Str(s) => JsonValue::Scalar(JsonScalar::Str(s.clone())),
        PrimitiveValue::Tags(v) => collapse(tag_scalars(v)),
        PrimitiveValue::U8(v) => collapse(u8_items(v)),
        PrimitiveValue::I16(v) => collapse(i16_items(v)),
        PrimitiveValue::U16(v) => collapse(u16_items(v)),
        PrimitiveValue::I32(v) => collapse(i32_items(v)),
        PrimitiveValue::U32(v) => collapse(u32_items(v)),
        PrimitiveValue::I64(v) => collapse(i64_items(v)),
        PrimitiveValue::U64(v) => collapse(u64_items(v)),
        PrimitiveValue::F32(v) => collapse(float32_items(v)),
        PrimitiveValue::F64(v) => collapse(float64_items(v)),
        PrimitiveValue::Date(v) => collapse(text_scalars(v)),
        PrimitiveValue::Time(v) => collapse(text_scalars(v)),
        PrimitiveValue::DateTime(v) => collapse(text_scalars(v)),
    }
}

pub open spec fn opt_view(o: Option<String>) -> Option<Seq<char>> {
    match o {
        Some(s) => Some(s@),
        None => None,
    }
}

/// The normalized value of an element and its raw text. `text` is the
/// decoder's own string conversion, if it succeeded; `debug` its debug-style
/// dump of the value.
pub open spec fn element_json(
    value: ElementValue,
    text: Option<Seq<char>>,
    debug: Seq<char>,
    format: OutputFormat,
) -> (ValueView, Option<Seq<char>>) {
    if format == OutputFormat::Raw {
        (ValueView::Scalar(ScalarView::Str(debug)), Some(debug))
    } else {
        match text {
            Some(t) => (ValueView::Scalar(ScalarView::Str(t)), Some(t)),
            None => (
                match value {
                    ElementValue::Primitive(p) => primitive_json(p, debug),
                    ElementValue::Sequence { items } => ValueView::Array(
                        sequence_placeholders(items as nat),
                    ),
                    ElementValue::Other => ValueView::Scalar(ScalarView::Str(debug)),
                },
                None,
            ),
        }
    }
}

/// Normalizes one element value into a JSON-safe value and its raw text.
pub fn extract_element_value(
    value: &ElementValue,
    text: &Option<String>,
    debug: &String,
    format: OutputFormat,
) -> (r: (JsonValue, Option<String>))
    ensures
        (r.0@, opt_view(r.1)) == element_json(*value, opt_view(*text), debug@, format),
{
    match format {
        OutputFormat::Raw => (JsonValue::Scalar(JsonScalar::Str(debug.clone())), Some(debug.clone())),
        _ => match text {
            Some(t) => (JsonValue::Scalar(JsonScalar::Str(t.clone())), Some(t.clone())),
            None => {
                let v = match value {
                    ElementValue::Primitive(p) => convert_primitive_value(p, debug),
                    ElementValue::Sequence { items } => JsonValue::Array(sequence_scalars(*items)),
                    ElementValue::Other => JsonValue::Scalar(JsonScalar::Str(debug.clone())),
                };
                (v, None)
            },
        },
    }
}

impl JsonScalar {
    pub fn duplicate(&self) -> (r: JsonScalar)
        ensures
            r@ == self@,
    {
        match self {
            JsonScalar::Str(s) => JsonScalar::Str(s.clone()),
            JsonScalar::UInt(n) => JsonScalar::UInt(*n),
            JsonScalar::Int(n) => JsonScalar::Int(*n),
            JsonScalar::F32Bits(b) => JsonScalar::F32Bits(*b),
            JsonScalar::F64Bits(b) => JsonScalar::F64Bits(*b),
        }
    }
}

impl JsonValue {
    pub fn duplicate(&self) -> (r: JsonValue)
        ensures
            r@ == self@,
    {
        match self {
            JsonValue::Scalar(s) => JsonValue::Scalar(s.duplicate()),
            JsonValue::Array(v) => {
                let mut out: Vec<JsonScalar> = Vec::new();
                let mut i: usize = 0;
                while i < v.len()
                    invariant
                        i <= v@.len(),
                        out@.len() == i,
                        forall|j: int| 0 <= j < i ==> #[trigger] out@[j]@ == v@[j]@,
                    decreases v@.len() - i,
                {
                    out.push(v[i].duplicate());
                    i += 1;
                }
                assert(scalars_view(out@) =~= scalars_view(v@));
                JsonValue::Array(out)
            },
        }
    }
}

/// How many values a primitive value holds.
pub open spec fn value_count(p: PrimitiveValue) -> nat {
    match p {
        PrimitiveValue::Empty => 0,
        PrimitiveValue::Strs(v) => v@.len(),
        PrimitiveValue::Str(_) => 1,
        PrimitiveValue::Tags(v) => v@.len(),
        PrimitiveValue::U8(v) => v@.len(),
        PrimitiveValue::I16(v) => v@.len(),
        PrimitiveValue::U16(v) => v@.len(),
        PrimitiveValue::I32(v) => v@.len(),
        PrimitiveValue::U32(v) => v@.len(),
        PrimitiveValue::I64(v) => v@.len(),
        PrimitiveValue::U64(v) => v@.len(),
        PrimitiveValue::F32(v) => v@.len(),
        PrimitiveValue::F64(v) => v@.len(),
        PrimitiveValue::Date(v) => v@.len(),
        PrimitiveValue::Time(v) => v@.len(),
        PrimitiveValue::DateTime(v) => v@.len(),
    }
}

/// A numeric, textual, tag or date-like value of one item renders as that
/// item's scalar; one of N > 1 items renders as an array of N scalars in the
/// same order.
pub proof fn lemma_single_item_rule(p: PrimitiveValue, debug: Seq<char>)
    requires
        p !is Empty,
    ensures
        primitive_items(p) is Some,
        primitive_items(p)->0.len() == value_count(p),
        value_count(p) == 1 ==> primitive_json(p, debug) == ValueView::Scalar(primitive_items(p)->0[0]),
        value_count(p) > 1 ==> primitive_json(p, debug) == ValueView::Array(primitive_items(p)->0)
            && primitive_items(p)->0.len() == value_count(p),
{
}

} // verus!
