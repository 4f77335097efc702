//! Window-configuration options: the recognised keys of the record a script
//! may pass when opening a surface, applied in record order with an
//! allow-list, every unrecognised key silently ignored so that configuration
//! stays forward-compatible.

use vstd::prelude::*;

use crate::text::str_eq;
use crate::value::DynVal;
use crate::value::Float;
use crate::value::Record;
use crate::value::Value;

verus! {

/// A brightness setting: the native subsystem consumes it as a float; an
/// integer is converted, a float is passed through.
#[derive(Clone, Copy, Debug, PartialEq, Eq)]
pub enum Brightness {
    Int(i64),
    Float(Float),
}

/// The decoded window options: each recognised key that appeared with a
/// usable value, the rest left unset.
#[derive(Clone, Copy, Debug, PartialEq, Eq)]
pub struct WindowOptions {
    pub always_on_top: Option<bool>,
    pub bordered: Option<bool>,
    pub brightness: Option<Brightness>,
    pub fullscreen: Option<bool>,
}

/// The options of a request that passed no record.
pub open spec fn empty_options() -> WindowOptions {
    WindowOptions { always_on_top: None, bordered: None, brightness: None, fullscreen: None }
}

/// Script truthiness: Null and false are false, every other value is true.
pub open spec fn spec_truthy(v: DynVal) -> bool {
    match v {
        DynVal::Null => false,
        DynVal::Bool(b) => b,
        _ => true,
    }
}

/// Converts a value to a boolean by script truthiness.
pub fn truthy(v: &Value) -> (r: bool)
    ensures
        r == spec_truthy(v@),
{
    match v {
        Value::Null => false,
        Value::Bool(b) => *b,
        _ => true,
    }
}

/// Whether a key is on the allow-list of recognised window options.
pub open spec fn recognized(key: Seq<char>) -> bool {
    ||| key == "always_on_top"@
    ||| key == "bordered"@
    ||| key == "brightness"@
    ||| key == "fullscreen"@
}

/// One record entry applied to the options decoded so far. The boolean
/// options read any value by truthiness; brightness accepts an integer or a
/// float and ignores any other value; an unrecognised key changes nothing.
pub open spec fn spec_apply_option(o: WindowOptions, key: Seq<char>, v: DynVal) -> WindowOptions {
    if key == "always_on_top"@ {
        WindowOptions { always_on_top: Some(spec_truthy(v)), ..o }
    } else if key == "bordered"@ {
        WindowOptions { bordered: Some(spec_truthy(v)), ..o }
    } else if key == "brightness"@ {
        match v {
            DynVal::Int(n) => WindowOptions { brightness: Some(Brightness::Int(n)), ..o },
            DynVal::Float(f) => WindowOptions { brightness: Some(Brightness::Float(f)), ..o },
            _ => o,
        }
    } else if key == "fullscreen"@ {
        WindowOptions { fullscreen: Some(spec_truthy(v)), ..o }
    } else {
        o
    }
}

/// The remaining entries folded, in order, over the options decoded so far.
pub open spec fn spec_fold_options(
    entries: Seq<(Seq<char>, DynVal)>,
    o: WindowOptions,
) -> WindowOptions
    decreases entries.len(),
{
    if entries.len() == 0 {
        o
    } else {
        spec_fold_options(entries.drop_first(), spec_apply_option(o, entries[0].0, entries[0].1))
    }
}

/// The options denoted by a whole record.
pub open spec fn spec_decode_options(entries: Seq<(Seq<char>, DynVal)>) -> WindowOptions {
    spec_fold_options(entries, empty_options())
}

/// Applies one record entry to the options decoded so far.
pub fn apply_option(o: WindowOptions, key: &String, v: &Value) -> (r: WindowOptions)
    ensures
        r == spec_apply_option(o, key@, v@),
{
    if str_eq(key.as_str(), "always_on_top") {
        WindowOptions { always_on_top: Some(truthy(v)), ..o }
    } else if str_eq(key.as_str(), "bordered") {
        WindowOptions { bordered: Some(truthy(v)), ..o }
    } else if str_eq(key.as_str(), "brightness") {
        match v {
            Value::Int(n) => WindowOptions { brightness: Some(Brightness::Int(*n)), ..o },
            Value::Float(f) => WindowOptions { brightness: Some(Brightness::Float(*f)), ..o },
            _ => o,
        }
    } else if str_eq(key.as_str(), "fullscreen") {
        WindowOptions { fullscreen: Some(truthy(v)), ..o }
    } else {
        o
    }
}

/// Decodes a window-options record: every entry applied in order, each
/// recognised key taking effect, every other key ignored. Total: no record
/// shape is an error.
pub fn decode_options(rec: &Record) -> (o: WindowOptions)
    ensures
        o == spec_decode_options(rec@),
{
    let mut o = WindowOptions {
        always_on_top: None,
        bordered: None,
        brightness: None,
        fullscreen: None,
    };
    let n = rec.entries.len();
    let mut i: usize = 0;
    proof {
        assert(rec@.skip(0) =~= rec@);
    }
    while i < n
        invariant
            n == rec.entries@.len(),
            i <= n,
            spec_fold_options(rec@.skip(i as int), o) == spec_decode_options(rec@),
        decreases n - i,
    {
        let key = &rec.entries[i].0;
        let v = &rec.entries[i].1;
        proof {
            assert(rec@[i as int] == (key@, v@));
            assert(rec@.skip(i as int).drop_first() =~= rec@.skip(i as int + 1));
            assert(rec@.skip(i as int)[0] == rec@[i as int]);
        }
        o = apply_option(o, key, v);
        i = i + 1;
    }
    proof {
        assert(rec@.skip(n as int) =~= Seq::<(Seq<char>, DynVal)>::empty());
    }
    o
}

/// Law: an entry whose key is not on the allow-list leaves the fold exactly
/// where it stood, whatever the options decoded so far.
proof fn lemma_fold_unrecognized(
    before: Seq<(Seq<char>, DynVal)>,
    entry: (Seq<char>, DynVal),
    after: Seq<(Seq<char>, DynVal)>,
    o: WindowOptions,
)
    requires
        !recognized(entry.0),
    ensures
        spec_fold_options(before + seq![entry] + after, o) == spec_fold_options(before + after, o),
    decreases before.len(),
{
    if before.len() == 0 {
        assert(before + seq![entry] + after =~= seq![entry] + after);
        assert((seq![entry] + after)[0] == entry);
        assert((seq![entry] + after).drop_first() =~= after);
        assert(spec_apply_option(o, entry.0, entry.1) == o);
        assert(before + after =~= after);
    } else {
        let o1 = spec_apply_option(o, before[0].0, before[0].1);
        assert((before + seq![entry] + after)[0] == before[0]);
        assert((before + after)[0] == before[0]);
        assert((before + seq![entry] + after).drop_first() =~= before.drop_first() + seq![entry]
            + after);
        assert((before + after).drop_first() =~= before.drop_first() + after);
        lemma_fold_unrecognized(before.drop_first(), entry, after, o1);
    }
}

/// Law: an unrecognised key inside a window-options record raises no error
/// and does not alter any recognised option's effect — the record decodes
/// exactly as if the entry were absent.
pub proof fn lemma_unrecognized_key_ignored(
    before: Seq<(Seq<char>, DynVal)>,
    entry: (Seq<char>, DynVal),
    after: Seq<(Seq<char>, DynVal)>,
)
    requires
        !recognized(entry.0),
    ensures
        spec_decode_options(before + seq![entry] + after) == spec_decode_options(before + after),
{
    lemma_fold_unrecognized(before, entry, after, empty_options());
}

} // verus!
