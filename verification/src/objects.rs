//! The capability object protocol: the shape every native-resource wrapper
//! implements — a type tag, field lookup, immutable call and mutable call —
//! together with the self-dispatch trampoline used when a capability object
//! is invoked as a bound method from script.
//!
//! Every call decodes to a [`Command`]: the one validated native operation
//! the request denotes. The embedder performs the command against the real
//! resource; a failed decode produces an error and no command, so no native
//! call and no partial side effect can occur.

use vstd::prelude::*;

use crate::decode::channel;
use crate::decode::coord;
use crate::decode::extent;
use crate::decode::opt_bool;
use crate::decode::opt_channel;
use crate::decode::opt_object;
use crate::decode::req_float;
use crate::decode::req_size;
use crate::decode::req_str;
use crate::decode::spec_channel;
use crate::decode::spec_coord;
use crate::decode::spec_extent;
use crate::decode::spec_opt_bool;
use crate::decode::spec_opt_channel;
use crate::decode::spec_opt_object;
use crate::decode::spec_req_float;
use crate::decode::spec_req_size;
use crate::decode::spec_req_str;
use crate::error::Error;
use crate::options::decode_options;
use crate::options::empty_options;
use crate::options::spec_decode_options;
use crate::options::WindowOptions;
use crate::text::str_eq;
use crate::value::models;
use crate::value::spec_tag_name;
use crate::value::tag_of;
use crate::value::DynVal;
use crate::value::Float;
use crate::value::Tag;
use crate::value::Value;

verus! {

/// One method of the exposed surface, resolved from a field name.
#[derive(Clone, Copy, Debug, PartialEq, Eq, Structural)]
pub enum Method {
    Canvas,
    Events,
    Present,
    Clear,
    Color,
    Scale,
    Line,
    Point,
    Rect,
    Pull,
}

/// A handle to one native resource, opaque to the script: the embedder maps
/// it back to the resource it stands for.
pub type Handle = u64;

/// The capability object wrapping the native subsystem itself: the root of
/// the resource chain, created by `init`.
#[derive(Clone, Copy, Debug, PartialEq, Eq, Structural)]
pub struct SdlObject(pub Handle);

/// The capability object wrapping one window together with its canvas:
/// created from the subsystem, target of all drawing operations.
#[derive(Clone, Copy, Debug, PartialEq, Eq, Structural)]
pub struct CanvasObject(pub Handle);

/// The capability object wrapping the event pump: created from the
/// subsystem, drained one event at a time.
#[derive(Clone, Copy, Debug, PartialEq, Eq, Structural)]
pub struct EventPumpObject(pub Handle);

/// A capability object of any of the three resource types.
#[derive(Clone, Copy, Debug, PartialEq, Eq, Structural)]
pub enum Capability {
    Sdl(SdlObject),
    Canvas(CanvasObject),
    EventPump(EventPumpObject),
}

/// One validated native operation, decoded from a script call: what the
/// embedder must perform against the resource the receiver wraps.
#[derive(Debug, PartialEq)]
pub enum Command {
    /// Open a window of the given title and size, configured by the decoded
    /// options, and wrap its canvas.
    OpenCanvas { title: String, width: u32, height: u32, options: WindowOptions },
    /// Produce the event pump of the subsystem.
    OpenEvents,
    /// Present the canvas's back buffer.
    Present,
    /// Clear the canvas with its current draw colour.
    Clear,
    /// Set the draw colour.
    SetColor { r: u8, g: u8, b: u8, a: u8 },
    /// Set the drawing scale; the two factors are consumed as floats.
    SetScale { x: Float, y: Float },
    /// Draw a line between two points.
    DrawLine { x1: i32, y1: i32, x2: i32, y2: i32 },
    /// Draw a single point.
    DrawPoint { x: i32, y: i32 },
    /// Draw a rectangle, outlined or filled.
    DrawRect { x: i32, y: i32, width: u32, height: u32, fill: bool },
    /// Poll for at most one pending native event.
    Pull,
}

/// The model of a command: the title as a character sequence, everything
/// else already plain.
pub enum CommandModel {
    OpenCanvas { title: Seq<char>, width: u32, height: u32, options: WindowOptions },
    OpenEvents,
    Present,
    Clear,
    SetColor { r: u8, g: u8, b: u8, a: u8 },
    SetScale { x: Float, y: Float },
    DrawLine { x1: i32, y1: i32, x2: i32, y2: i32 },
    DrawPoint { x: i32, y: i32 },
    DrawRect { x: i32, y: i32, width: u32, height: u32, fill: bool },
    Pull,
}

impl View for Command {
    type V = CommandModel;

    open spec fn view(&self) -> CommandModel {
        match self {
            Command::OpenCanvas { title, width, height, options } => CommandModel::OpenCanvas {
                title: title@,
                width: *width,
                height: *height,
                options: *options,
            },
            Command::OpenEvents => CommandModel::OpenEvents,
            Command::Present => CommandModel::Present,
            Command::Clear => CommandModel::Clear,
            Command::SetColor { r, g, b, a } => CommandModel::SetColor {
                r: *r,
                g: *g,
                b: *b,
                a: *a,
            },
            Command::SetScale { x, y } => CommandModel::SetScale { x: *x, y: *y },
            Command::DrawLine { x1, y1, x2, y2 } => CommandModel::DrawLine {
                x1: *x1,
                y1: *y1,
                x2: *x2,
                y2: *y2,
            },
            Command::DrawPoint { x, y } => CommandModel::DrawPoint { x: *x, y: *y },
            Command::DrawRect { x, y, width, height, fill } => CommandModel::DrawRect {
                x: *x,
                y: *y,
                width: *width,
                height: *height,
                fill: *fill,
            },
            Command::Pull => CommandModel::Pull,
        }
    }
}

impl Method {
    /// The field name that resolves to this method.
    pub open spec fn spec_key(self) -> Seq<char> {
        match self {
            Method::Canvas => "canvas"@,
            Method::Events => "events"@,
            Method::Present => "present"@,
            Method::Clear => "clear"@,
            Method::Color => "color"@,
            Method::Scale => "scale"@,
            Method::Line => "line"@,
            Method::Point => "point"@,
            Method::Rect => "rect"@,
            Method::Pull => "pull"@,
        }
    }

    /// The field name that resolves to this method.
    pub fn key(&self) -> (r: &'static str)
        ensures
            r@ == self.spec_key(),
    {
        match self {
            Method::Canvas => "canvas",
            Method::Events => "events",
            Method::Present => "present",
            Method::Clear => "clear",
            Method::Color => "color",
            Method::Scale => "scale",
            Method::Line => "line",
            Method::Point => "point",
            Method::Rect => "rect",
            Method::Pull => "pull",
        }
    }

    /// The capability type that owns this method.
    pub open spec fn spec_owner(self) -> Tag {
        match self {
            Method::Canvas => Tag::Sdl,
            Method::Events => Tag::Sdl,
            Method::Pull => Tag::EventPump,
            _ => Tag::Canvas,
        }
    }

    /// The capability type that owns this method.
    pub fn owner(&self) -> (t: Tag)
        ensures
            t == self.spec_owner(),
    {
        match self {
            Method::Canvas => Tag::Sdl,
            Method::Events => Tag::Sdl,
            Method::Pull => Tag::EventPump,
            _ => Tag::Canvas,
        }
    }
}

impl Capability {
    /// The tag this capability contributes to the value model.
    pub open spec fn spec_tag(&self) -> Tag {
        match self {
            Capability::Sdl(_) => Tag::Sdl,
            Capability::Canvas(_) => Tag::Canvas,
            Capability::EventPump(_) => Tag::EventPump,
        }
    }

    /// The tag of the resource type this capability wraps.
    pub fn tag(&self) -> (t: Tag)
        ensures
            t == self.spec_tag(),
    {
        match self {
            Capability::Sdl(_) => Tag::Sdl,
            Capability::Canvas(_) => Tag::Canvas,
            Capability::EventPump(_) => Tag::EventPump,
        }
    }

    /// The stable type tag used for diagnostics and script-side introspection.
    pub fn typ(&self) -> (r: &'static str)
        ensures
            r@ == spec_tag_name(self.spec_tag()),
    {
        match self {
            Capability::Sdl(o) => o.typ(),
            Capability::Canvas(o) => o.typ(),
            Capability::EventPump(o) => o.typ(),
        }
    }

    /// Field lookup on whichever capability this is.
    pub fn get(&self, key: &str) -> (r: Option<Value>)
        ensures
            r == match self {
                Capability::Sdl(_) => SdlObject::spec_get(key@),
                Capability::Canvas(_) => CanvasObject::spec_get(key@),
                Capability::EventPump(_) => EventPumpObject::spec_get(key@),
            },
    {
        match self {
            Capability::Sdl(o) => o.get(key),
            Capability::Canvas(o) => o.get(key),
            Capability::EventPump(o) => o.get(key),
        }
    }
}

impl SdlObject {
    /// The stable type tag used for diagnostics and script-side introspection.
    pub fn typ(&self) -> (r: &'static str)
        ensures
            r@ == "sdl"@,
    {
        "sdl"
    }

    /// The methods the subsystem capability exposes.
    pub open spec fn spec_get(key: Seq<char>) -> Option<Value> {
        if key == "canvas"@ {
            Some(Value::Function(Method::Canvas))
        } else if key == "events"@ {
            Some(Value::Function(Method::Events))
        } else {
            None
        }
    }

    /// Field lookup: a method name resolves to a callable value, any other
    /// key to nothing (script-side access then yields Null, not an error).
    pub fn get(&self, key: &str) -> (r: Option<Value>)
        ensures
            r == Self::spec_get(key@),
    {
        if str_eq(key, "canvas") {
            Some(Value::Function(Method::Canvas))
        } else if str_eq(key, "events") {
            Some(Value::Function(Method::Events))
        } else {
            None
        }
    }

    /// What a call of the given key on the subsystem capability decodes to.
    pub open spec fn spec_call(key: Seq<char>, args: Seq<DynVal>) -> Result<CommandModel, Error> {
        if key == "canvas"@ {
            Self::spec_call_canvas(args)
        } else if key == "events"@ {
            Ok(CommandModel::OpenEvents)
        } else {
            Err(Error::NoSuchMethod)
        }
    }

    /// Dispatches a call by key; an unmapped key fails with `NoSuchMethod`.
    pub fn call(&self, key: &str, args: Vec<Value>) -> (r: Result<Command, Error>)
        ensures
            match r {
                Ok(c) => Self::spec_call(key@, models(args@)) == Ok::<CommandModel, Error>(c@),
                Err(e) => Self::spec_call(key@, models(args@)) == Err::<CommandModel, Error>(e),
            },
    {
        if str_eq(key, "canvas") {
            self.call_canvas(args)
        } else if str_eq(key, "events") {
            self.call_events()
        } else {
            Err(Error::NoSuchMethod)
        }
    }

    /// The decode of a surface request: a title, a width and a height that
    /// must be positive integers within the unsigned 32-bit range, and an
    /// optional record of window options.
    pub open spec fn spec_call_canvas(args: Seq<DynVal>) -> Result<CommandModel, Error> {
        match spec_req_str(args, 0) {
            Err(e) => Err(e),
            Ok(title) => match spec_req_size(args, 1) {
                Err(e) => Err(e),
                Ok(width) => match spec_req_size(args, 2) {
                    Err(e) => Err(e),
                    Ok(height) => match spec_opt_object(args, 3) {
                        Err(e) => Err(e),
                        Ok(opts) => Ok(
                            CommandModel::OpenCanvas {
                                title,
                                width,
                                height,
                                options: match opts {
                                    Some(entries) => spec_decode_options(entries),
                                    None => empty_options(),
                                },
                            },
                        ),
                    },
                },
            },
        }
    }

    /// Decodes a surface request into the open-canvas command.
    pub fn call_canvas(&self, args: Vec<Value>) -> (r: Result<Command, Error>)
        ensures
            match r {
                Ok(c) => Self::spec_call_canvas(models(args@)) == Ok::<CommandModel, Error>(c@),
                Err(e) => Self::spec_call_canvas(models(args@)) == Err::<CommandModel, Error>(e),
            },
    {
        let title = match req_str(&args, 0) {
            Ok(t) => t,
            Err(e) => {
                return Err(e);
            },
        };
        let width = match req_size(&args, 1) {
            Ok(w) => w,
            Err(e) => {
                return Err(e);
            },
        };
        let height = match req_size(&args, 2) {
            Ok(h) => h,
            Err(e) => {
                return Err(e);
            },
        };
        let options = match opt_object(&args, 3) {
            Ok(Some(rec)) => decode_options(rec),
            Ok(None) => WindowOptions {
                always_on_top: None,
                bordered: None,
                brightness: None,
                fullscreen: None,
            },
            Err(e) => {
                return Err(e);
            },
        };
        Ok(Command::OpenCanvas { title, width, height, options })
    }

    /// Decodes an event-source request: no arguments are read.
    pub fn call_events(&self) -> (r: Result<Command, Error>)
        ensures
            r matches Ok(c) && c@ == CommandModel::OpenEvents,
    {
        Ok(Command::OpenEvents)
    }
}

impl CanvasObject {
    /// The stable type tag used for diagnostics and script-side introspection.
    pub fn typ(&self) -> (r: &'static str)
        ensures
            r@ == "canvas"@,
    {
        "canvas"
    }

    /// The methods the surface capability exposes.
    pub open spec fn spec_get(key: Seq<char>) -> Option<Value> {
        if key == "present"@ {
            Some(Value::Function(Method::Present))
        } else if key == "clear"@ {
            Some(Value::Function(Method::Clear))
        } else if key == "color"@ {
            Some(Value::Function(Method::Color))
        } else if key == "scale"@ {
            Some(Value::Function(Method::Scale))
        } else if key == "line"@ {
            Some(Value::Function(Method::Line))
        } else if key == "point"@ {
            Some(Value::Function(Method::Point))
        } else if key == "rect"@ {
            Some(Value::Function(Method::Rect))
        } else {
            None
        }
    }

    /// Field lookup: a method name resolves to a callable value, any other
    /// key to nothing (script-side access then yields Null, not an error).
    pub fn get(&self, key: &str) -> (r: Option<Value>)
        ensures
            r == Self::spec_get(key@),
    {
        if str_eq(key, "present") {
            Some(Value::Function(Method::Present))
        } else if str_eq(key, "clear") {
            Some(Value::Function(Method::Clear))
        } else if str_eq(key, "color") {
            Some(Value::Function(Method::Color))
        } else if str_eq(key, "scale") {
            Some(Value::Function(Method::Scale))
        } else if str_eq(key, "line") {
            Some(Value::Function(Method::Line))
        } else if str_eq(key, "point") {
            Some(Value::Function(Method::Point))
        } else if str_eq(key, "rect") {
            Some(Value::Function(Method::Rect))
        } else {
            None
        }
    }

    /// What a mutating call of the given key on the surface decodes to.
    pub open spec fn spec_call_mut(key: Seq<char>, args: Seq<DynVal>) -> Result<
        CommandModel,
        Error,
    > {
        if key == "present"@ {
            Ok(CommandModel::Present)
        } else if key == "clear"@ {
            Ok(CommandModel::Clear)
        } else if key == "color"@ {
            Self::spec_call_color(args)
        } else if key == "scale"@ {
            Self::spec_call_scale(args)
        } else if key == "line"@ {
            Self::spec_call_line(args)
        } else if key == "point"@ {
            Self::spec_call_point(args)
        } else if key == "rect"@ {
            Self::spec_call_rect(args)
        } else {
            Err(Error::NoSuchMethod)
        }
    }

    /// Dispatches a mutating call by key; an unmapped key fails with
    /// `NoSuchMethod`. Decoding reads the receiver but never changes it.
    pub fn call_mut(&mut self, key: &str, args: Vec<Value>) -> (r: Result<Command, Error>)
        ensures
            *final(self) == *old(self),
            match r {
                Ok(c) => Self::spec_call_mut(key@, models(args@)) == Ok::<CommandModel, Error>(c@),
                Err(e) => Self::spec_call_mut(key@, models(args@)) == Err::<CommandModel, Error>(
                    e,
                ),
            },
    {
        if str_eq(key, "present") {
            self.call_present()
        } else if str_eq(key, "clear") {
            self.call_clear()
        } else if str_eq(key, "color") {
            self.call_color(args)
        } else if str_eq(key, "scale") {
            self.call_scale(args)
        } else if str_eq(key, "line") {
            self.call_line(args)
        } else if str_eq(key, "point") {
            self.call_point(args)
        } else if str_eq(key, "rect") {
            self.call_rect(args)
        } else {
            Err(Error::NoSuchMethod)
        }
    }

    /// Decodes a present request: no arguments are read.
    pub fn call_present(&mut self) -> (r: Result<Command, Error>)
        ensures
            *final(self) == *old(self),
            r matches Ok(c) && c@ == CommandModel::Present,
    {
        Ok(Command::Present)
    }

    /// Decodes a clear request: no arguments are read.
    pub fn call_clear(&mut self) -> (r: Result<Command, Error>)
        ensures
            *final(self) == *old(self),
            r matches Ok(c) && c@ == CommandModel::Clear,
    {
        Ok(Command::Clear)
    }

    /// The decode of a draw-colour request: three required integer channels,
    /// each clamped into 0 through 255, and an optional alpha channel that
    /// defaults to 255.
    pub open spec fn spec_call_color(args: Seq<DynVal>) -> Result<CommandModel, Error> {
        match spec_channel(args, 0) {
            Err(e) => Err(e),
            Ok(r) => match spec_channel(args, 1) {
                Err(e) => Err(e),
                Ok(g) => match spec_channel(args, 2) {
                    Err(e) => Err(e),
                    Ok(b) => match spec_opt_channel(args, 3) {
                        Err(e) => Err(e),
                        Ok(a) => Ok(
                            CommandModel::SetColor {
                                r,
                                g,
                                b,
                                a: match a {
                                    Some(a) => a,
                                    None => 255,
                                },
                            },
                        ),
                    },
                },
            },
        }
    }

    /// Decodes a draw-colour request.
    pub fn call_color(&mut self, args: Vec<Value>) -> (res: Result<Command, Error>)
        ensures
            *final(self) == *old(self),
            match res {
                Ok(c) => Self::spec_call_color(models(args@)) == Ok::<CommandModel, Error>(c@),
                Err(e) => Self::spec_call_color(models(args@)) == Err::<CommandModel, Error>(e),
            },
    {
        let r = match channel(&args, 0) {
            Ok(v) => v,
            Err(e) => {
                return Err(e);
            },
        };
        let g = match channel(&args, 1) {
            Ok(v) => v,
            Err(e) => {
                return Err(e);
            },
        };
        let b = match channel(&args, 2) {
            Ok(v) => v,
            Err(e) => {
                return Err(e);
            },
        };
        let a = match opt_channel(&args, 3) {
            Ok(Some(v)) => v,
            Ok(None) => 255,
            Err(e) => {
                return Err(e);
            },
        };
        Ok(Command::SetColor { r, g, b, a })
    }

    /// The decode of a scale request: two required floats, carried through
    /// for the native subsystem to consume.
    pub open spec fn spec_call_scale(args: Seq<DynVal>) -> Result<CommandModel, Error> {
        match spec_req_float(args, 0) {
            Err(e) => Err(e),
            Ok(x) => match spec_req_float(args, 1) {
                Err(e) => Err(e),
                Ok(y) => Ok(CommandModel::SetScale { x, y }),
            },
        }
    }

    /// Decodes a scale request.
    pub fn call_scale(&mut self, args: Vec<Value>) -> (r: Result<Command, Error>)
        ensures
            *final(self) == *old(self),
            match r {
                Ok(c) => Self::spec_call_scale(models(args@)) == Ok::<CommandModel, Error>(c@),
                Err(e) => Self::spec_call_scale(models(args@)) == Err::<CommandModel, Error>(e),
            },
    {
        let x = match req_float(&args, 0) {
            Ok(v) => v,
            Err(e) => {
                return Err(e);
            },
        };
        let y = match req_float(&args, 1) {
            Ok(v) => v,
            Err(e) => {
                return Err(e);
            },
        };
        Ok(Command::SetScale { x, y })
    }

    /// The decode of a line request: four required geometric coordinates,
    /// integer or float, clamped into the signed 32-bit range.
    pub open spec fn spec_call_line(args: Seq<DynVal>) -> Result<CommandModel, Error> {
        match spec_coord(args, 0) {
            Err(e) => Err(e),
            Ok(x1) => match spec_coord(args, 1) {
                Err(e) => Err(e),
                Ok(y1) => match spec_coord(args, 2) {
                    Err(e) => Err(e),
                    Ok(x2) => match spec_coord(args, 3) {
                        Err(e) => Err(e),
                        Ok(y2) => Ok(CommandModel::DrawLine { x1, y1, x2, y2 }),
                    },
                },
            },
        }
    }

    /// Decodes a line request.
    pub fn call_line(&mut self, args: Vec<Value>) -> (r: Result<Command, Error>)
        ensures
            *final(self) == *old(self),
            match r {
                Ok(c) => Self::spec_call_line(models(args@)) == Ok::<CommandModel, Error>(c@),
                Err(e) => Self::spec_call_line(models(args@)) == Err::<CommandModel, Error>(e),
            },
    {
        let x1 = match coord(&args, 0) {
            Ok(v) => v,
            Err(e) => {
                return Err(e);
            },
        };
        let y1 = match coord(&args, 1) {
            Ok(v) => v,
            Err(e) => {
                return Err(e);
            },
        };
        let x2 = match coord(&args, 2) {
            Ok(v) => v,
            Err(e) => {
                return Err(e);
            },
        };
        let y2 = match coord(&args, 3) {
            Ok(v) => v,
            Err(e) => {
                return Err(e);
            },
        };
        Ok(Command::DrawLine { x1, y1, x2, y2 })
    }

    /// The decode of a point request: two required geometric coordinates.
    pub open spec fn spec_call_point(args: Seq<DynVal>) -> Result<CommandModel, Error> {
        match spec_coord(args, 0) {
            Err(e) => Err(e),
            Ok(x) => match spec_coord(args, 1) {
                Err(e) => Err(e),
                Ok(y) => Ok(CommandModel::DrawPoint { x, y }),
            },
        }
    }

    /// Decodes a point request.
    pub fn call_point(&mut self, args: Vec<Value>) -> (r: Result<Command, Error>)
        ensures
            *final(self) == *old(self),
            match r {
                Ok(c) => Self::spec_call_point(models(args@)) == Ok::<CommandModel, Error>(c@),
                Err(e) => Self::spec_call_point(models(args@)) == Err::<CommandModel, Error>(e),
            },
    {
        let x = match coord(&args, 0) {
            Ok(v) => v,
            Err(e) => {
                return Err(e);
            },
        };
        let y = match coord(&args, 1) {
            Ok(v) => v,
            Err(e) => {
                return Err(e);
            },
        };
        Ok(Command::DrawPoint { x, y })
    }

    /// The decode of a rectangle request: a position of two coordinates, a
    /// width and a height clamped into the unsigned 32-bit range, and an
    /// optional fill flag that defaults to outline.
    pub open spec fn spec_call_rect(args: Seq<DynVal>) -> Result<CommandModel, Error> {
        match spec_coord(args, 0) {
            Err(e) => Err(e),
            Ok(x) => match spec_coord(args, 1) {
                Err(e) => Err(e),
                Ok(y) => match spec_extent(args, 2) {
                    Err(e) => Err(e),
                    Ok(width) => match spec_extent(args, 3) {
                        Err(e) => Err(e),
                        Ok(height) => match spec_opt_bool(args, 4) {
                            Err(e) => Err(e),
                            Ok(fill) => Ok(
                                CommandModel::DrawRect {
                                    x,
                                    y,
                                    width,
                                    height,
                                    fill: match fill {
                                        Some(f) => f,
                                        None => false,
                                    },
                                },
                            ),
                        },
                    },
                },
            },
        }
    }

    /// Decodes a rectangle request.
    pub fn call_rect(&mut self, args: Vec<Value>) -> (r: Result<Command, Error>)
        ensures
            *final(self) == *old(self),
            match r {
                Ok(c) => Self::spec_call_rect(models(args@)) == Ok::<CommandModel, Error>(c@),
                Err(e) => Self::spec_call_rect(models(args@)) == Err::<CommandModel, Error>(e),
            },
    {
        let x = match coord(&args, 0) {
            Ok(v) => v,
            Err(e) => {
                return Err(e);
            },
        };
        let y = match coord(&args, 1) {
            Ok(v) => v,
            Err(e) => {
                return Err(e);
            },
        };
        let width = match extent(&args, 2) {
            Ok(v) => v,
            Err(e) => {
                return Err(e);
            },
        };
        let height = match extent(&args, 3) {
            Ok(v) => v,
            Err(e) => {
                return Err(e);
            },
        };
        let fill = match opt_bool(&args, 4) {
            Ok(Some(f)) => f,
            Ok(None) => false,
            Err(e) => {
                return Err(e);
            },
        };
        Ok(Command::DrawRect { x, y, width, height, fill })
    }
}

impl EventPumpObject {
    /// The stable type tag used for diagnostics and script-side introspection.
    pub fn typ(&self) -> (r: &'static str)
        ensures
            r@ == "event-pump"@,
    {
        "event-pump"
    }

    /// The methods the event-source capability exposes.
    pub open spec fn spec_get(key: Seq<char>) -> Option<Value> {
        if key == "pull"@ {
            Some(Value::Function(Method::Pull))
        } else {
            None
        }
    }

    /// Field lookup: a method name resolves to a callable value, any other
    /// key to nothing (script-side access then yields Null, not an error).
    pub fn get(&self, key: &str) -> (r: Option<Value>)
        ensures
            r == Self::spec_get(key@),
    {
        if str_eq(key, "pull") {
            Some(Value::Function(Method::Pull))
        } else {
            None
        }
    }

    /// What a mutating call of the given key on the event source decodes to;
    /// a pull reads no arguments.
    pub open spec fn spec_call_mut(key: Seq<char>) -> Result<CommandModel, Error> {
        if key == "pull"@ {
            Ok(CommandModel::Pull)
        } else {
            Err(Error::NoSuchMethod)
        }
    }

    /// Dispatches a mutating call by key; an unmapped key fails with
    /// `NoSuchMethod`. Decoding reads the receiver but never changes it.
    pub fn call_mut(&mut self, key: &str, _args: Vec<Value>) -> (r: Result<Command, Error>)
        ensures
            *final(self) == *old(self),
            match r {
                Ok(c) => Self::spec_call_mut(key@) == Ok::<CommandModel, Error>(c@),
                Err(e) => Self::spec_call_mut(key@) == Err::<CommandModel, Error>(e),
            },
    {
        if str_eq(key, "pull") {
            Ok(Command::Pull)
        } else {
            Err(Error::NoSuchMethod)
        }
    }
}

/// What the self-dispatch of a bound method decodes to: the first positional
/// argument must be a capability object of the method's owning type — else
/// the call fails with the receiver-type error and nothing further is read —
/// and the remaining arguments are forwarded to the owner's own call.
pub open spec fn spec_self_dispatch(method: Method, args: Seq<DynVal>) -> Result<
    CommandModel,
    Error,
> {
    if args.len() == 0 {
        Err(Error::WrongReceiverType { actual: Tag::Null })
    } else {
        match args[0] {
            DynVal::UserObject(c) => if c.spec_tag() == method.spec_owner() {
                match c {
                    Capability::Sdl(_) => SdlObject::spec_call(
                        method.spec_key(),
                        args.drop_first(),
                    ),
                    Capability::Canvas(_) => CanvasObject::spec_call_mut(
                        method.spec_key(),
                        args.drop_first(),
                    ),
                    Capability::EventPump(_) => EventPumpObject::spec_call_mut(method.spec_key()),
                }
            } else {
                Err(Error::WrongReceiverType { actual: c.spec_tag() })
            },
            v => Err(Error::WrongReceiverType { actual: tag_of(v) }),
        }
    }
}

/// The generic trampoline behind every bound method: the scripting runtime
/// passes the receiver as the first positional argument; the trampoline
/// validates it, strips it, and forwards the rest to the receiving
/// capability.
pub fn self_dispatch(method: Method, args: Vec<Value>) -> (r: Result<Command, Error>)
    ensures
        match r {
            Ok(c) => spec_self_dispatch(method, models(args@)) == Ok::<CommandModel, Error>(c@),
            Err(e) => spec_self_dispatch(method, models(args@)) == Err::<CommandModel, Error>(e),
        },
{
    let ghost m0 = models(args@);
    let mut rest = args;
    if rest.len() == 0 {
        return Err(Error::WrongReceiverType { actual: Tag::Null });
    }
    let receiver = rest.remove(0);
    proof {
        assert(models(rest@) =~= m0.drop_first());
        assert(receiver@ == m0[0]);
    }
    match receiver {
        Value::UserObject(c) => {
            if c.tag() == method.owner() {
                match c {
                    Capability::Sdl(o) => o.call(method.key(), rest),
                    Capability::Canvas(mut o) => o.call_mut(method.key(), rest),
                    Capability::EventPump(mut o) => o.call_mut(method.key(), rest),
                }
            } else {
                Err(Error::WrongReceiverType { actual: c.tag() })
            }
        },
        v => Err(Error::WrongReceiverType { actual: v.tag() }),
    }
}

/// Law: a required argument of the wrong tag fails the whole call with a
/// type mismatch — whichever position it stands at — and the call decodes to
/// no command, so no native call and no partial side effect can occur.
pub proof fn lemma_mismatch_rejected(args: Seq<DynVal>, pos: usize)
    requires
        (pos as int) < args.len(),
    ensures
        pos < 3 && !(args[pos as int] is Str) && !(args[pos as int] is Int)
            ==> SdlObject::spec_call_canvas(args) is Err,
        (pos == 0 && !(args[0] is Str) || pos == 1 && args[0] is Str && !(args[1] is Int) || pos
            == 2 && args[0] is Str && spec_req_size(args, 1) is Ok && !(args[2] is Int)) ==> (
        SdlObject::spec_call_canvas(args) matches Err(e) && e matches Error::TypeMismatch {
            ..
        }),
        pos < 3 && !(args[pos as int] is Int) ==> (CanvasObject::spec_call_color(args) matches Err(
            e,
        ) && e matches Error::TypeMismatch { .. }),
        pos < 2 && !(args[pos as int] is Float) ==> (CanvasObject::spec_call_scale(
            args,
        ) matches Err(e) && e matches Error::TypeMismatch { .. }),
        pos < 4 && !(args[pos as int] is Int) && !(args[pos as int] is Float) ==> (
        CanvasObject::spec_call_line(args) matches Err(e) && e matches Error::TypeMismatch {
            ..
        }),
        pos < 2 && !(args[pos as int] is Int) && !(args[pos as int] is Float) ==> (
        CanvasObject::spec_call_point(args) matches Err(e) && e matches Error::TypeMismatch {
            ..
        }),
        pos < 4 && !(args[pos as int] is Int) && !(args[pos as int] is Float) ==> (
        CanvasObject::spec_call_rect(args) matches Err(e) && e matches Error::TypeMismatch {
            ..
        }),
{
}

/// Law: an omitted optional argument decodes to its documented default — the
/// alpha channel to 255, the fill flag to outline. Passing Null does the
/// same.
pub proof fn lemma_optional_defaults(args: Seq<DynVal>)
    ensures
        (args.len() <= 3 || args[3] is Null) ==> (CanvasObject::spec_call_color(
            args,
        ) matches Ok(c) ==> c matches CommandModel::SetColor { a, .. } && a == 255),
        (args.len() <= 4 || args[4] is Null) ==> (CanvasObject::spec_call_rect(args) matches Ok(c)
            ==> c matches CommandModel::DrawRect { fill, .. } && fill == false),
{
}

/// Law: a method invoked through a receiver of the wrong capability type —
/// or through a value that is no capability at all — fails with the
/// receiver-type error naming what was found, and decodes to no command, so
/// no native call can occur.
pub proof fn lemma_wrong_receiver_rejected(method: Method, args: Seq<DynVal>)
    requires
        args.len() > 0,
        tag_of(args[0]) != method.spec_owner(),
    ensures
        spec_self_dispatch(method, args) == Err::<CommandModel, Error>(
            Error::WrongReceiverType { actual: tag_of(args[0]) },
        ),
{
}

} // verus!
