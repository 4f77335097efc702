//! The dynamic value model: the tagged union of script-visible values that
//! the scripting runtime hands to the bridge and receives back from it.

use vstd::prelude::*;

use crate::objects::Capability;
use crate::objects::Method;

verus! {

/// A floating-point script value, as the bridge sees it.
///
/// The bridge itself never does floating-point arithmetic: where a float is
/// accepted for a geometric parameter, the documented behaviour is to
/// truncate it toward zero and clamp it into the destination range. The
/// embedder therefore hands a float over in two parts: `trunc`, the value
/// converted to `i64` by truncation toward zero (saturating at the `i64`
/// bounds, with a non-number converted to zero), which is all the decoding
/// rules ever read; and `bits`, the raw bit pattern, carried through opaquely
/// for parameters that the native subsystem consumes as a float.
#[derive(Clone, Copy, Debug, PartialEq, Eq, Structural)]
pub struct Float {
    pub trunc: i64,
    pub bits: u64,
}

/// A script value: a tagged union of the shapes the scripting runtime knows.
#[derive(Debug, PartialEq)]
pub enum Value {
    Null,
    Bool(bool),
    Int(i64),
    Float(Float),
    Str(String),
    Object(Record),
    Function(Method),
    UserObject(Capability),
}

/// An ordered mapping from string keys to values: the universal shape for
/// window-configuration options and for decoded events.
#[derive(Debug, PartialEq)]
pub struct Record {
    pub entries: Vec<(String, Value)>,
}

/// The mathematical model of a [`Value`]: strings become character
/// sequences, integers become unbounded, records become sequences of
/// key/value pairs.
pub enum DynVal {
    Null,
    Bool(bool),
    Int(i64),
    Float(Float),
    Str(Seq<char>),
    Object(Seq<(Seq<char>, DynVal)>),
    Function(Method),
    UserObject(Capability),
}

/// The tag of a script value: the shape a decoder matches on, refined for a
/// capability object into which resource type it wraps.
#[derive(Clone, Copy, Debug, PartialEq, Eq, Structural)]
pub enum Tag {
    Null,
    Bool,
    Int,
    Float,
    Str,
    Object,
    Function,
    Sdl,
    Canvas,
    EventPump,
}

/// The tag of a modelled value.
pub open spec fn tag_of(v: DynVal) -> Tag {
    match v {
        DynVal::Null => Tag::Null,
        DynVal::Bool(_) => Tag::Bool,
        DynVal::Int(_) => Tag::Int,
        DynVal::Float(_) => Tag::Float,
        DynVal::Str(_) => Tag::Str,
        DynVal::Object(_) => Tag::Object,
        DynVal::Function(_) => Tag::Function,
        DynVal::UserObject(c) => c.spec_tag(),
    }
}

/// The diagnostic name of a tag.
pub open spec fn spec_tag_name(t: Tag) -> Seq<char> {
    match t {
        Tag::Null => "null"@,
        Tag::Bool => "boolean"@,
        Tag::Int => "int"@,
        Tag::Float => "float"@,
        Tag::Str => "string"@,
        Tag::Object => "object"@,
        Tag::Function => "function"@,
        Tag::Sdl => "sdl"@,
        Tag::Canvas => "canvas"@,
        Tag::EventPump => "event-pump"@,
    }
}

impl Tag {
    /// The diagnostic name of the tag, as scripts and error reports see it.
    pub fn name(&self) -> (r: &'static str)
        ensures
            r@ == spec_tag_name(*self),
    {
        match self {
            Tag::Null => "null",
            Tag::Bool => "boolean",
            Tag::Int => "int",
            Tag::Float => "float",
            Tag::Str => "string",
            Tag::Object => "object",
            Tag::Function => "function",
            Tag::Sdl => "sdl",
            Tag::Canvas => "canvas",
            Tag::EventPump => "event-pump",
        }
    }
}

impl Value {
    /// The tag of this value.
    pub fn tag(&self) -> (t: Tag)
        ensures
            t == tag_of(self@),
    {
        match self {
            Value::Null => Tag::Null,
            Value::Bool(_) => Tag::Bool,
            Value::Int(_) => Tag::Int,
            Value::Float(_) => Tag::Float,
            Value::Str(_) => Tag::Str,
            Value::Object(_) => Tag::Object,
            Value::Function(_) => Tag::Function,
            Value::UserObject(c) => c.tag(),
        }
    }
}

/// The model of a sequence of call arguments.
pub open spec fn models(args: Seq<Value>) -> Seq<DynVal> {
    args.map_values(|v: Value| v@)
}

/// The model of a value.
pub open spec fn dyn_of(v: Value) -> DynVal
    decreases v,
{
    match v {
        Value::Null => DynVal::Null,
        Value::Bool(b) => DynVal::Bool(b),
        Value::Int(n) => DynVal::Int(n),
        Value::Float(f) => DynVal::Float(f),
        Value::Str(s) => DynVal::Str(s@),
        Value::Object(r) => DynVal::Object(record_model(r)),
        Value::Function(m) => DynVal::Function(m),
        Value::UserObject(c) => DynVal::UserObject(c),
    }
}

/// The model of a record: its entries in order, keys as character sequences.
pub open spec fn record_model(r: Record) -> Seq<(Seq<char>, DynVal)>
    decreases r,
{
    Seq::new(
        r.entries@.len(),
        |i: int|
            if 0 <= i < r.entries@.len() {
                (r.entries[i].0@, dyn_of(r.entries[i].1))
            } else {
                (Seq::<char>::empty(), DynVal::Null)
            },
    )
}

impl View for Value {
    type V = DynVal;

    open spec fn view(&self) -> DynVal {
        dyn_of(*self)
    }
}

impl View for Record {
    type V = Seq<(Seq<char>, DynVal)>;

    open spec fn view(&self) -> Seq<(Seq<char>, DynVal)> {
        record_model(*self)
    }
}

impl Record {
    /// The empty record.
    pub fn new() -> (r: Record)
        ensures
            r@ == Seq::<(Seq<char>, DynVal)>::empty(),
    {
        Record { entries: Vec::new() }
    }

    /// Appends one key/value entry, keeping insertion order.
    pub fn push(&mut self, key: String, value: Value)
        ensures
            final(self)@ == old(self)@.push((key@, value@)),
    {
        self.entries.push((key, value));
    }
}

} // verus!
