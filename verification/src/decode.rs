//! The argument decoder: turns a positional sequence of script values into
//! validated native parameters.
//!
//! Rules, applied per declared parameter: a required typed parameter must be
//! present with the declared tag; an optional typed parameter may be absent
//! or Null; an integer destined for a narrower native range is clamped into
//! that range, never silently truncated by overflow; a float destined for a
//! geometric parameter is truncated toward zero before clamping. Decoding is
//! pure: it either succeeds with a value in the destination domain or fails
//! with a typed error.

use vstd::prelude::*;

use crate::error::Error;
use crate::error::Expected;
use crate::value::models;
use crate::value::tag_of;
use crate::value::DynVal;
use crate::value::Float;
use crate::value::Record;
use crate::value::Tag;
use crate::value::Value;

verus! {

/// Clamping into an inclusive range.
pub open spec fn clamp_spec(v: int, lo: int, hi: int) -> int {
    if v < lo {
        lo
    } else if v > hi {
        hi
    } else {
        v
    }
}

/// Clamps an integer into an inclusive range.
pub fn clamp_i64(v: i64, lo: i64, hi: i64) -> (r: i64)
    requires
        lo <= hi,
    ensures
        r as int == clamp_spec(v as int, lo as int, hi as int),
{
    if v < lo {
        lo
    } else if v > hi {
        hi
    } else {
        v
    }
}

/// A required string argument.
pub open spec fn spec_req_str(args: Seq<DynVal>, pos: usize) -> Result<Seq<char>, Error> {
    if pos >= args.len() {
        Err(Error::MissingArgument { position: pos })
    } else {
        match args[pos as int] {
            DynVal::Str(s) => Ok(s),
            v => Err(
                Error::TypeMismatch {
                    expected: Expected::Exact(Tag::Str),
                    actual: tag_of(v),
                    position: pos,
                },
            ),
        }
    }
}

/// Decodes a required string argument.
pub fn req_str(args: &Vec<Value>, pos: usize) -> (r: Result<String, Error>)
    ensures
        match r {
            Ok(s) => spec_req_str(models(args@), pos) == Ok::<Seq<char>, Error>(s@),
            Err(e) => spec_req_str(models(args@), pos) == Err::<Seq<char>, Error>(e),
        },
{
    if pos >= args.len() {
        Err(Error::MissingArgument { position: pos })
    } else {
        match &args[pos] {
            Value::Str(s) => Ok(s.clone()),
            v => Err(
                Error::TypeMismatch {
                    expected: Expected::Exact(Tag::Str),
                    actual: v.tag(),
                    position: pos,
                },
            ),
        }
    }
}

/// A required integer argument.
pub open spec fn spec_req_int(args: Seq<DynVal>, pos: usize) -> Result<i64, Error> {
    if pos >= args.len() {
        Err(Error::MissingArgument { position: pos })
    } else {
        match args[pos as int] {
            DynVal::Int(n) => Ok(n),
            v => Err(
                Error::TypeMismatch {
                    expected: Expected::Exact(Tag::Int),
                    actual: tag_of(v),
                    position: pos,
                },
            ),
        }
    }
}

/// Decodes a required integer argument.
pub fn req_int(args: &Vec<Value>, pos: usize) -> (r: Result<i64, Error>)
    ensures
        r == spec_req_int(models(args@), pos),
{
    if pos >= args.len() {
        Err(Error::MissingArgument { position: pos })
    } else {
        match &args[pos] {
            Value::Int(n) => Ok(*n),
            v => Err(
                Error::TypeMismatch {
                    expected: Expected::Exact(Tag::Int),
                    actual: v.tag(),
                    position: pos,
                },
            ),
        }
    }
}

/// A required float argument, kept as the embedder handed it over.
pub open spec fn spec_req_float(args: Seq<DynVal>, pos: usize) -> Result<Float, Error> {
    if pos >= args.len() {
        Err(Error::MissingArgument { position: pos })
    } else {
        match args[pos as int] {
            DynVal::Float(f) => Ok(f),
            v => Err(
                Error::TypeMismatch {
                    expected: Expected::Exact(Tag::Float),
                    actual: tag_of(v),
                    position: pos,
                },
            ),
        }
    }
}

/// Decodes a required float argument.
pub fn req_float(args: &Vec<Value>, pos: usize) -> (r: Result<Float, Error>)
    ensures
        r == spec_req_float(models(args@), pos),
{
    if pos >= args.len() {
        Err(Error::MissingArgument { position: pos })
    } else {
        match &args[pos] {
            Value::Float(f) => Ok(*f),
            v => Err(
                Error::TypeMismatch {
                    expected: Expected::Exact(Tag::Float),
                    actual: v.tag(),
                    position: pos,
                },
            ),
        }
    }
}

/// An optional boolean argument: absent or Null yields nothing.
pub open spec fn spec_opt_bool(args: Seq<DynVal>, pos: usize) -> Result<Option<bool>, Error> {
    if pos >= args.len() {
        Ok(None)
    } else {
        match args[pos as int] {
            DynVal::Null => Ok(None),
            DynVal::Bool(b) => Ok(Some(b)),
            v => Err(
                Error::TypeMismatch {
                    expected: Expected::Exact(Tag::Bool),
                    actual: tag_of(v),
                    position: pos,
                },
            ),
        }
    }
}

/// Decodes an optional boolean argument.
pub fn opt_bool(args: &Vec<Value>, pos: usize) -> (r: Result<Option<bool>, Error>)
    ensures
        r == spec_opt_bool(models(args@), pos),
{
    if pos >= args.len() {
        Ok(None)
    } else {
        match &args[pos] {
            Value::Null => Ok(None),
            Value::Bool(b) => Ok(Some(*b)),
            v => Err(
                Error::TypeMismatch {
                    expected: Expected::Exact(Tag::Bool),
                    actual: v.tag(),
                    position: pos,
                },
            ),
        }
    }
}

/// An optional record argument: absent or Null yields nothing.
pub open spec fn spec_opt_object(args: Seq<DynVal>, pos: usize) -> Result<
    Option<Seq<(Seq<char>, DynVal)>>,
    Error,
> {
    if pos >= args.len() {
        Ok(None)
    } else {
        match args[pos as int] {
            DynVal::Null => Ok(None),
            DynVal::Object(entries) => Ok(Some(entries)),
            v => Err(
                Error::TypeMismatch {
                    expected: Expected::Exact(Tag::Object),
                    actual: tag_of(v),
                    position: pos,
                },
            ),
        }
    }
}

/// Decodes an optional record argument, borrowed from the argument list.
pub fn opt_object<'a>(args: &'a Vec<Value>, pos: usize) -> (r: Result<Option<&'a Record>, Error>)
    ensures
        match r {
            Ok(Some(rec)) => spec_opt_object(models(args@), pos) == Ok::<
                Option<Seq<(Seq<char>, DynVal)>>,
                Error,
            >(Some(rec@)),
            Ok(None) => spec_opt_object(models(args@), pos) == Ok::<
                Option<Seq<(Seq<char>, DynVal)>>,
                Error,
            >(None),
            Err(e) => spec_opt_object(models(args@), pos) == Err::<
                Option<Seq<(Seq<char>, DynVal)>>,
                Error,
            >(e),
        },
{
    if pos >= args.len() {
        Ok(None)
    } else {
        match &args[pos] {
            Value::Null => Ok(None),
            Value::Object(rec) => Ok(Some(rec)),
            v => Err(
                Error::TypeMismatch {
                    expected: Expected::Exact(Tag::Object),
                    actual: v.tag(),
                    position: pos,
                },
            ),
        }
    }
}

/// A required geometric coordinate: an integer, or a float truncated toward
/// zero, clamped into the signed 32-bit range.
pub open spec fn spec_coord(args: Seq<DynVal>, pos: usize) -> Result<i32, Error> {
    if pos >= args.len() {
        Err(Error::MissingArgument { position: pos })
    } else {
        match args[pos as int] {
            DynVal::Int(n) => Ok(clamp_spec(n as int, i32::MIN as int, i32::MAX as int) as i32),
            DynVal::Float(f) => Ok(
                clamp_spec(f.trunc as int, i32::MIN as int, i32::MAX as int) as i32,
            ),
            v => Err(
                Error::TypeMismatch {
                    expected: Expected::Numeric,
                    actual: tag_of(v),
                    position: pos,
                },
            ),
        }
    }
}

/// Decodes a required geometric coordinate.
pub fn coord(args: &Vec<Value>, pos: usize) -> (r: Result<i32, Error>)
    ensures
        r == spec_coord(models(args@), pos),
{
    if pos >= args.len() {
        Err(Error::MissingArgument { position: pos })
    } else {
        match &args[pos] {
            Value::Int(n) => Ok(clamp_i64(*n, i32::MIN as i64, i32::MAX as i64) as i32),
            Value::Float(f) => Ok(clamp_i64(f.trunc, i32::MIN as i64, i32::MAX as i64) as i32),
            v => Err(
                Error::TypeMismatch {
                    expected: Expected::Numeric,
                    actual: v.tag(),
                    position: pos,
                },
            ),
        }
    }
}

/// A required geometric extent: an integer, or a float truncated toward
/// zero, clamped into the unsigned 32-bit range.
pub open spec fn spec_extent(args: Seq<DynVal>, pos: usize) -> Result<u32, Error> {
    if pos >= args.len() {
        Err(Error::MissingArgument { position: pos })
    } else {
        match args[pos as int] {
            DynVal::Int(n) => Ok(clamp_spec(n as int, 0, u32::MAX as int) as u32),
            DynVal::Float(f) => Ok(clamp_spec(f.trunc as int, 0, u32::MAX as int) as u32),
            v => Err(
                Error::TypeMismatch {
                    expected: Expected::Numeric,
                    actual: tag_of(v),
                    position: pos,
                },
            ),
        }
    }
}

/// Decodes a required geometric extent.
pub fn extent(args: &Vec<Value>, pos: usize) -> (r: Result<u32, Error>)
    ensures
        r == spec_extent(models(args@), pos),
{
    if pos >= args.len() {
        Err(Error::MissingArgument { position: pos })
    } else {
        match &args[pos] {
            Value::Int(n) => Ok(clamp_i64(*n, 0, u32::MAX as i64) as u32),
            Value::Float(f) => Ok(clamp_i64(f.trunc, 0, u32::MAX as i64) as u32),
            v => Err(
                Error::TypeMismatch {
                    expected: Expected::Numeric,
                    actual: v.tag(),
                    position: pos,
                },
            ),
        }
    }
}

/// A required colour channel: an integer clamped into 0 through 255.
pub open spec fn spec_channel(args: Seq<DynVal>, pos: usize) -> Result<u8, Error> {
    if pos >= args.len() {
        Err(Error::MissingArgument { position: pos })
    } else {
        match args[pos as int] {
            DynVal::Int(n) => Ok(clamp_spec(n as int, 0, 255) as u8),
            v => Err(
                Error::TypeMismatch {
                    expected: Expected::Exact(Tag::Int),
                    actual: tag_of(v),
                    position: pos,
                },
            ),
        }
    }
}

/// Decodes a required colour channel.
pub fn channel(args: &Vec<Value>, pos: usize) -> (r: Result<u8, Error>)
    ensures
        r == spec_channel(models(args@), pos),
{
    if pos >= args.len() {
        Err(Error::MissingArgument { position: pos })
    } else {
        match &args[pos] {
            Value::Int(n) => Ok(clamp_i64(*n, 0, 255) as u8),
            v => Err(
                Error::TypeMismatch {
                    expected: Expected::Exact(Tag::Int),
                    actual: v.tag(),
                    position: pos,
                },
            ),
        }
    }
}

/// An optional colour channel: an integer clamped into 0 through 255,
/// nothing when absent or Null.
pub open spec fn spec_opt_channel(args: Seq<DynVal>, pos: usize) -> Result<Option<u8>, Error> {
    if pos >= args.len() {
        Ok(None)
    } else {
        match args[pos as int] {
            DynVal::Null => Ok(None),
            DynVal::Int(n) => Ok(Some(clamp_spec(n as int, 0, 255) as u8)),
            v => Err(
                Error::TypeMismatch {
                    expected: Expected::Exact(Tag::Int),
                    actual: tag_of(v),
                    position: pos,
                },
            ),
        }
    }
}

/// Decodes an optional colour channel.
pub fn opt_channel(args: &Vec<Value>, pos: usize) -> (r: Result<Option<u8>, Error>)
    ensures
        r == spec_opt_channel(models(args@), pos),
{
    if pos >= args.len() {
        Ok(None)
    } else {
        match &args[pos] {
            Value::Null => Ok(None),
            Value::Int(n) => Ok(Some(clamp_i64(*n, 0, 255) as u8)),
            v => Err(
                Error::TypeMismatch {
                    expected: Expected::Exact(Tag::Int),
                    actual: v.tag(),
                    position: pos,
                },
            ),
        }
    }
}

/// A required window size: an integer that must lie in 1 through the
/// unsigned 32-bit maximum; out of that range the request is rejected, not
/// clamped.
pub open spec fn spec_req_size(args: Seq<DynVal>, pos: usize) -> Result<u32, Error> {
    if pos >= args.len() {
        Err(Error::MissingArgument { position: pos })
    } else {
        match args[pos as int] {
            DynVal::Int(n) => if 1 <= n <= u32::MAX as i64 {
                Ok(n as u32)
            } else {
                Err(Error::OutOfRange { position: pos })
            },
            v => Err(
                Error::TypeMismatch {
                    expected: Expected::Exact(Tag::Int),
                    actual: tag_of(v),
                    position: pos,
                },
            ),
        }
    }
}

/// Decodes a required window size.
pub fn req_size(args: &Vec<Value>, pos: usize) -> (r: Result<u32, Error>)
    ensures
        r == spec_req_size(models(args@), pos),
{
    if pos >= args.len() {
        Err(Error::MissingArgument { position: pos })
    } else {
        match &args[pos] {
            Value::Int(n) => if 1 <= *n && *n <= u32::MAX as i64 {
                Ok(*n as u32)
            } else {
                Err(Error::OutOfRange { position: pos })
            },
            v => Err(
                Error::TypeMismatch {
                    expected: Expected::Exact(Tag::Int),
                    actual: v.tag(),
                    position: pos,
                },
            ),
        }
    }
}

/// Law: a required typed argument of a different tag than the declared one
/// decodes to the type-mismatch error naming the expectation, the found tag
/// and the position — never to a substituted value.
pub proof fn lemma_required_mismatch(args: Seq<DynVal>, pos: usize)
    requires
        (pos as int) < args.len(),
    ensures
        !(args[pos as int] is Str) ==> spec_req_str(args, pos) == Err::<Seq<char>, Error>(
            Error::TypeMismatch {
                expected: Expected::Exact(Tag::Str),
                actual: tag_of(args[pos as int]),
                position: pos,
            },
        ),
        !(args[pos as int] is Int) ==> spec_req_int(args, pos) == Err::<i64, Error>(
            Error::TypeMismatch {
                expected: Expected::Exact(Tag::Int),
                actual: tag_of(args[pos as int]),
                position: pos,
            },
        ),
        !(args[pos as int] is Int) ==> spec_channel(args, pos) == Err::<u8, Error>(
            Error::TypeMismatch {
                expected: Expected::Exact(Tag::Int),
                actual: tag_of(args[pos as int]),
                position: pos,
            },
        ),
        !(args[pos as int] is Int) ==> spec_req_size(args, pos) == Err::<u32, Error>(
            Error::TypeMismatch {
                expected: Expected::Exact(Tag::Int),
                actual: tag_of(args[pos as int]),
                position: pos,
            },
        ),
        !(args[pos as int] is Float) ==> spec_req_float(args, pos) == Err::<Float, Error>(
            Error::TypeMismatch {
                expected: Expected::Exact(Tag::Float),
                actual: tag_of(args[pos as int]),
                position: pos,
            },
        ),
        !(args[pos as int] is Int) && !(args[pos as int] is Float) ==> spec_coord(args, pos)
            == Err::<i32, Error>(
            Error::TypeMismatch {
                expected: Expected::Numeric,
                actual: tag_of(args[pos as int]),
                position: pos,
            },
        ),
        !(args[pos as int] is Int) && !(args[pos as int] is Float) ==> spec_extent(args, pos)
            == Err::<u32, Error>(
            Error::TypeMismatch {
                expected: Expected::Numeric,
                actual: tag_of(args[pos as int]),
                position: pos,
            },
        ),
{
}

/// Law: an integer colour channel outside 0 through 255 decodes to the input
/// clamped into that range; one inside it decodes to itself.
pub proof fn lemma_channel_clamped(args: Seq<DynVal>, pos: usize, n: i64)
    requires
        (pos as int) < args.len(),
        args[pos as int] == DynVal::Int(n),
    ensures
        spec_channel(args, pos) == Ok::<u8, Error>(
            if n < 0 {
                0u8
            } else if n > 255 {
                255u8
            } else {
                n as u8
            },
        ),
{
}

} // verus!
