//! The event marshaller: a total mapping from every native event variant to
//! the one generic tagged-record shape scripts inspect uniformly.
//!
//! Every mapped record carries a `kind` key naming the event category and a
//! `timestamp` key; category-specific fields come in between. Enumeration
//! values are normalised to fixed lowercase snake-case strings. A native
//! variant with no defined mapping marshals to Null — deliberately lossy,
//! never an error — and the mapping keeps one branch per variant so that
//! supporting a new kind is a one-line addition, not a re-audit of a
//! catch-all.

use vstd::prelude::*;

use crate::error::Error;
use crate::objects::EventPumpObject;
use crate::text::lower_of;
use crate::text::lowercase;
use crate::value::DynVal;
use crate::value::Float;
use crate::value::Record;
use crate::value::Value;

verus! {

/// A display orientation reported by the native subsystem.
#[derive(Clone, Copy, Debug, PartialEq, Eq, Structural)]
pub enum ScreenOrientation {
    Unknown,
    Landscape,
    LandscapeFlipped,
    Portrait,
    PortraitFlipped,
}

/// A display sub-event.
#[derive(Clone, Copy, Debug, PartialEq, Eq, Structural)]
pub enum DisplayChange {
    NoChange,
    Connected,
    Disconnected,
    Orientation(ScreenOrientation),
}

/// A window sub-event; the moved, resized and size-changed variants carry
/// the two values the native subsystem reported with them.
#[derive(Clone, Copy, Debug, PartialEq, Eq, Structural)]
pub enum WindowChange {
    NoChange,
    Shown,
    Hidden,
    Exposed,
    Moved(i32, i32),
    Resized(i32, i32),
    SizeChanged(i32, i32),
    Minimized,
    Maximized,
    Restored,
    Enter,
    Leave,
    FocusGained,
    FocusLost,
    Close,
    TakeFocus,
    HitTest,
    IccProfChanged,
    DisplayChanged(i32),
}

/// The direction convention of a mouse-wheel event.
#[derive(Clone, Copy, Debug, PartialEq, Eq, Structural)]
pub enum WheelDirection {
    Normal,
    Flipped,
    Unknown(u32),
}

/// One native event, as the embedder hands it over: every native variant has
/// a counterpart here. Variants the bridge maps carry their fields as plain
/// values — names of keys, scan codes and modifier sets arrive already
/// stringified by the native library, and the bridge lowercases them — while
/// variants with no defined mapping carry nothing, since marshalling drops
/// them. The live button-state mask of a motion event is dropped by the
/// embedder for the same reason.
#[derive(Clone, Debug, PartialEq)]
pub enum NativeEvent {
    Quit { timestamp: u32 },
    AppTerminating { timestamp: u32 },
    AppLowMemory { timestamp: u32 },
    AppWillEnterBackground { timestamp: u32 },
    AppDidEnterBackground { timestamp: u32 },
    AppWillEnterForeground { timestamp: u32 },
    AppDidEnterForeground { timestamp: u32 },
    Display { timestamp: u32, display_index: i32, display_event: DisplayChange },
    Window { timestamp: u32, window_id: u32, win_event: WindowChange },
    KeyDown {
        timestamp: u32,
        window_id: u32,
        keycode: Option<String>,
        scancode: Option<String>,
        keymod: String,
        repeat: bool,
    },
    KeyUp {
        timestamp: u32,
        window_id: u32,
        keycode: Option<String>,
        scancode: Option<String>,
        keymod: String,
        repeat: bool,
    },
    TextEditing { timestamp: u32, window_id: u32, text: String, start: i32, length: i32 },
    TextInput { timestamp: u32, window_id: u32, text: String },
    MouseMotion {
        timestamp: u32,
        window_id: u32,
        which: u32,
        x: i32,
        y: i32,
        xrel: i32,
        yrel: i32,
    },
    MouseButtonDown {
        timestamp: u32,
        window_id: u32,
        which: u32,
        mouse_btn: u8,
        clicks: u8,
        x: i32,
        y: i32,
    },
    MouseButtonUp {
        timestamp: u32,
        window_id: u32,
        which: u32,
        mouse_btn: u8,
        clicks: u8,
        x: i32,
        y: i32,
    },
    MouseWheel {
        timestamp: u32,
        window_id: u32,
        which: u32,
        x: i32,
        y: i32,
        direction: WheelDirection,
        precise_x: Float,
        precise_y: Float,
    },
    JoyAxisMotion,
    JoyBallMotion,
    JoyHatMotion,
    JoyButtonDown,
    JoyButtonUp,
    JoyDeviceAdded,
    JoyDeviceRemoved,
    ControllerAxisMotion,
    ControllerButtonDown,
    ControllerButtonUp,
    ControllerDeviceAdded,
    ControllerDeviceRemoved,
    ControllerDeviceRemapped,
    ControllerTouchpadDown,
    ControllerTouchpadMotion,
    ControllerTouchpadUp,
    ControllerSensorUpdated,
    FingerDown,
    FingerUp,
    FingerMotion,
    DollarGesture,
    DollarRecord,
    MultiGesture,
    ClipboardUpdate,
    DropFile,
    DropText,
    DropBegin,
    DropComplete,
    AudioDeviceAdded,
    AudioDeviceRemoved,
    RenderTargetsReset,
    RenderDeviceReset,
    LocaleChanged,
    User,
    Unknown { timestamp: u32, type_: u32 },
}

/// The fixed name of a display sub-event.
pub open spec fn spec_display_change_name(d: DisplayChange) -> Seq<char> {
    match d {
        DisplayChange::NoChange => "none"@,
        DisplayChange::Connected => "connected"@,
        DisplayChange::Disconnected => "disconnected"@,
        DisplayChange::Orientation(o) => match o {
            ScreenOrientation::Unknown => "unknown"@,
            ScreenOrientation::Landscape => "landscape"@,
            ScreenOrientation::LandscapeFlipped => "landscape_flipped"@,
            ScreenOrientation::Portrait => "portrait"@,
            ScreenOrientation::PortraitFlipped => "portrait_flipped"@,
        },
    }
}

/// The fixed name of a display sub-event.
pub fn display_change_name(d: &DisplayChange) -> (r: &'static str)
    ensures
        r@ == spec_display_change_name(*d),
{
    match d {
        DisplayChange::NoChange => "none",
        DisplayChange::Connected => "connected",
        DisplayChange::Disconnected => "disconnected",
        DisplayChange::Orientation(o) => match o {
            ScreenOrientation::Unknown => "unknown",
            ScreenOrientation::Landscape => "landscape",
            ScreenOrientation::LandscapeFlipped => "landscape_flipped",
            ScreenOrientation::Portrait => "portrait",
            ScreenOrientation::PortraitFlipped => "portrait_flipped",
        },
    }
}

/// The fixed name of a window sub-event.
pub open spec fn spec_window_change_name(w: WindowChange) -> Seq<char> {
    match w {
        WindowChange::NoChange => "none"@,
        WindowChange::Shown => "shown"@,
        WindowChange::Hidden => "hidden"@,
        WindowChange::Exposed => "exposed"@,
        WindowChange::Moved(_, _) => "moved"@,
        WindowChange::Resized(_, _) => "resized"@,
        WindowChange::SizeChanged(_, _) => "size_changed"@,
        WindowChange::Minimized => "minimized"@,
        WindowChange::Maximized => "maximized"@,
        WindowChange::Restored => "restored"@,
        WindowChange::Enter => "enter"@,
        WindowChange::Leave => "leave"@,
        WindowChange::FocusGained => "focus_gained"@,
        WindowChange::FocusLost => "focus_lost"@,
        WindowChange::Close => "close"@,
        WindowChange::TakeFocus => "take_focus"@,
        WindowChange::HitTest => "hit_test"@,
        WindowChange::IccProfChanged => "icc_prof_changed"@,
        WindowChange::DisplayChanged(_) => "display_changed"@,
    }
}

/// The fixed name of a window sub-event.
pub fn window_change_name(w: &WindowChange) -> (r: &'static str)
    ensures
        r@ == spec_window_change_name(*w),
{
    match w {
        WindowChange::NoChange => "none",
        WindowChange::Shown => "shown",
        WindowChange::Hidden => "hidden",
        WindowChange::Exposed => "exposed",
        WindowChange::Moved(_, _) => "moved",
        WindowChange::Resized(_, _) => "resized",
        WindowChange::SizeChanged(_, _) => "size_changed",
        WindowChange::Minimized => "minimized",
        WindowChange::Maximized => "maximized",
        WindowChange::Restored => "restored",
        WindowChange::Enter => "enter",
        WindowChange::Leave => "leave",
        WindowChange::FocusGained => "focus_gained",
        WindowChange::FocusLost => "focus_lost",
        WindowChange::Close => "close",
        WindowChange::TakeFocus => "take_focus",
        WindowChange::HitTest => "hit_test",
        WindowChange::IccProfChanged => "icc_prof_changed",
        WindowChange::DisplayChanged(_) => "display_changed",
    }
}

/// The derived width field of a window record: the first reported value for
/// a moved, resized or size-changed sub-event, Null for every other.
pub open spec fn spec_window_width(w: WindowChange) -> DynVal {
    match w {
        WindowChange::Moved(width, _) => DynVal::Int(width as i64),
        WindowChange::Resized(width, _) => DynVal::Int(width as i64),
        WindowChange::SizeChanged(width, _) => DynVal::Int(width as i64),
        _ => DynVal::Null,
    }
}

/// The derived height field of a window record: the second reported value
/// for a moved, resized or size-changed sub-event, Null for every other.
pub open spec fn spec_window_height(w: WindowChange) -> DynVal {
    match w {
        WindowChange::Moved(_, height) => DynVal::Int(height as i64),
        WindowChange::Resized(_, height) => DynVal::Int(height as i64),
        WindowChange::SizeChanged(_, height) => DynVal::Int(height as i64),
        _ => DynVal::Null,
    }
}

/// The numeric code of a wheel direction: 0 for normal, 1 for flipped, the
/// raw code for an unknown convention.
pub open spec fn spec_wheel_direction_code(d: WheelDirection) -> i64 {
    match d {
        WheelDirection::Normal => 0,
        WheelDirection::Flipped => 1,
        WheelDirection::Unknown(v) => v as i64,
    }
}

/// The key-name field of a key record: the lowercased native name, or Null
/// where the native library reported none.
pub open spec fn spec_key_name(k: Option<String>) -> DynVal {
    match k {
        Some(s) => DynVal::Str(lower_of(s@)),
        None => DynVal::Null,
    }
}

/// The record of an event category with no extra fields.
pub open spec fn spec_plain_record(kind: Seq<char>, timestamp: u32) -> DynVal {
    DynVal::Object(
        seq![("kind"@, DynVal::Str(kind)), ("timestamp"@, DynVal::Int(timestamp as i64))],
    )
}

/// The record of a key-down or key-up event.
pub open spec fn spec_key_record(
    kind: Seq<char>,
    timestamp: u32,
    window_id: u32,
    keycode: Option<String>,
    scancode: Option<String>,
    keymod: String,
    repeat: bool,
) -> DynVal {
    DynVal::Object(
        seq![
            ("kind"@, DynVal::Str(kind)),
            ("window_id"@, DynVal::Int(window_id as i64)),
            ("keycode"@, spec_key_name(keycode)),
            ("scancode"@, spec_key_name(scancode)),
            ("keymod"@, DynVal::Str(lower_of(keymod@))),
            ("repeat"@, DynVal::Bool(repeat)),
            ("timestamp"@, DynVal::Int(timestamp as i64)),
        ],
    )
}

/// The record of a mouse-button event.
pub open spec fn spec_mouse_button_record(
    kind: Seq<char>,
    timestamp: u32,
    window_id: u32,
    which: u32,
    mouse_btn: u8,
    clicks: u8,
    x: i32,
    y: i32,
) -> DynVal {
    DynVal::Object(
        seq![
            ("kind"@, DynVal::Str(kind)),
            ("window_id"@, DynVal::Int(window_id as i64)),
            ("which"@, DynVal::Int(which as i64)),
            ("mouse_btn"@, DynVal::Int(mouse_btn as i64)),
            ("clicks"@, DynVal::Int(clicks as i64)),
            ("x"@, DynVal::Int(x as i64)),
            ("y"@, DynVal::Int(y as i64)),
            ("timestamp"@, DynVal::Int(timestamp as i64)),
        ],
    )
}

/// Whether the bridge defines a record shape for this native variant.
pub open spec fn is_mapped(e: NativeEvent) -> bool {
    match e {
        NativeEvent::Quit { .. } => true,
        NativeEvent::AppTerminating { .. } => true,
        NativeEvent::AppLowMemory { .. } => true,
        NativeEvent::AppWillEnterBackground { .. } => true,
        NativeEvent::AppDidEnterBackground { .. } => true,
        NativeEvent::AppWillEnterForeground { .. } => true,
        NativeEvent::AppDidEnterForeground { .. } => true,
        NativeEvent::Display { .. } => true,
        NativeEvent::Window { .. } => true,
        NativeEvent::KeyDown { .. } => true,
        NativeEvent::KeyUp { .. } => true,
        NativeEvent::TextEditing { .. } => true,
        NativeEvent::TextInput { .. } => true,
        NativeEvent::MouseMotion { .. } => true,
        NativeEvent::MouseButtonDown { .. } => true,
        NativeEvent::MouseButtonUp { .. } => true,
        NativeEvent::MouseWheel { .. } => true,
        NativeEvent::Unknown { .. } => true,
        _ => false,
    }
}

/// The generic record an event marshals to, or Null for a variant with no
/// defined mapping.
pub open spec fn spec_marshal(e: NativeEvent) -> DynVal {
    match e {
        NativeEvent::Quit { timestamp } => spec_plain_record("quit"@, timestamp),
        NativeEvent::AppTerminating { timestamp } => spec_plain_record(
            "app_terminated"@,
            timestamp,
        ),
        NativeEvent::AppLowMemory { timestamp } => spec_plain_record("app_low_memory"@, timestamp),
        NativeEvent::AppWillEnterBackground { timestamp } => spec_plain_record(
            "app_will_enter_background"@,
            timestamp,
        ),
        NativeEvent::AppDidEnterBackground { timestamp } => spec_plain_record(
            "app_did_enter_background"@,
            timestamp,
        ),
        NativeEvent::AppWillEnterForeground { timestamp } => spec_plain_record(
            "app_will_enter_foreground"@,
            timestamp,
        ),
        NativeEvent::AppDidEnterForeground { timestamp } => spec_plain_record(
            "app_did_enter_foreground"@,
            timestamp,
        ),
        NativeEvent::Display { timestamp, display_index, display_event } => DynVal::Object(
            seq![
                ("kind"@, DynVal::Str("display"@)),
                ("display_index"@, DynVal::Int(display_index as i64)),
                ("display_event"@, DynVal::Str(spec_display_change_name(display_event))),
                ("timestamp"@, DynVal::Int(timestamp as i64)),
            ],
        ),
        NativeEvent::Window { timestamp, window_id, win_event } => DynVal::Object(
            seq![
                ("kind"@, DynVal::Str("window"@)),
                ("window_id"@, DynVal::Int(window_id as i64)),
                ("win_event"@, DynVal::Str(spec_window_change_name(win_event))),
                ("width"@, spec_window_width(win_event)),
                ("height"@, spec_window_height(win_event)),
                ("timestamp"@, DynVal::Int(timestamp as i64)),
            ],
        ),
        NativeEvent::KeyDown { timestamp, window_id, keycode, scancode, keymod, repeat } =>
            spec_key_record(
            "key_down"@,
            timestamp,
            window_id,
            keycode,
            scancode,
            keymod,
            repeat,
        ),
        NativeEvent::KeyUp { timestamp, window_id, keycode, scancode, keymod, repeat } =>
            spec_key_record(
            "key_up"@,
            timestamp,
            window_id,
            keycode,
            scancode,
            keymod,
            repeat,
        ),
        NativeEvent::TextEditing { timestamp, window_id, text, start, length } => DynVal::Object(
            seq![
                ("kind"@, DynVal::Str("text_editing"@)),
                ("window_id"@, DynVal::Int(window_id as i64)),
                ("text"@, DynVal::Str(text@)),
                ("start"@, DynVal::Int(start as i64)),
                ("length"@, DynVal::Int(length as i64)),
                ("timestamp"@, DynVal::Int(timestamp as i64)),
            ],
        ),
        NativeEvent::TextInput { timestamp, window_id, text } => DynVal::Object(
            seq![
                ("kind"@, DynVal::Str("text_input"@)),
                ("window_id"@, DynVal::Int(window_id as i64)),
                ("text"@, DynVal::Str(text@)),
                ("timestamp"@, DynVal::Int(timestamp as i64)),
            ],
        ),
        NativeEvent::MouseMotion { timestamp, window_id, which, x, y, xrel, yrel } =>
            DynVal::Object(
            seq![
                ("kind"@, DynVal::Str("mouse_motion"@)),
                ("window_id"@, DynVal::Int(window_id as i64)),
                ("which"@, DynVal::Int(which as i64)),
                ("x"@, DynVal::Int(x as i64)),
                ("y"@, DynVal::Int(y as i64)),
                ("xrel"@, DynVal::Int(xrel as i64)),
                ("yrel"@, DynVal::Int(yrel as i64)),
                ("timestamp"@, DynVal::Int(timestamp as i64)),
            ],
        ),
        NativeEvent::MouseButtonDown { timestamp, window_id, which, mouse_btn, clicks, x, y } =>
            spec_mouse_button_record(
            "mouse_button_down"@,
            timestamp,
            window_id,
            which,
            mouse_btn,
            clicks,
            x,
            y,
        ),
        NativeEvent::MouseButtonUp { timestamp, window_id, which, mouse_btn, clicks, x, y } =>
            spec_mouse_button_record(
            "mouse_button_up"@,
            timestamp,
            window_id,
            which,
            mouse_btn,
            clicks,
            x,
            y,
        ),
        NativeEvent::MouseWheel {
            timestamp,
            window_id,
            which,
            x,
            y,
            direction,
            precise_x,
            precise_y,
        } => DynVal::Object(
            seq![
                ("kind"@, DynVal::Str("mouse_wheel"@)),
                ("window_id"@, DynVal::Int(window_id as i64)),
                ("which"@, DynVal::Int(which as i64)),
                ("x"@, DynVal::Int(x as i64)),
                ("y"@, DynVal::Int(y as i64)),
                ("direction"@, DynVal::Int(spec_wheel_direction_code(direction))),
                ("precise_x"@, DynVal::Float(precise_x)),
                ("precise_y"@, DynVal::Float(precise_y)),
                ("timestamp"@, DynVal::Int(timestamp as i64)),
            ],
        ),
        NativeEvent::Unknown { timestamp, type_ } => DynVal::Object(
            seq![
                ("timestamp"@, DynVal::Int(timestamp as i64)),
                ("type"@, DynVal::Int(type_ as i64)),
            ],
        ),
        _ => DynVal::Null,
    }
}

/// Builds the record of an event category with no extra fields.
fn marshal_plain(kind: &str, timestamp: u32) -> (v: Value)
    ensures
        v@ == spec_plain_record(kind@, timestamp),
{
    let mut rec = Record::new();
    rec.push(kind_key(), Value::Str(kind.to_owned()));
    rec.push(timestamp_key(), Value::Int(timestamp as i64));
    proof {
        assert(rec@ =~= seq![
            ("kind"@, DynVal::Str(kind@)),
            ("timestamp"@, DynVal::Int(timestamp as i64)),
        ]);
    }
    Value::Object(rec)
}

/// The `kind` key.
fn kind_key() -> (r: String)
    ensures
        r@ == "kind"@,
{
    "kind".to_owned()
}

/// The `timestamp` key.
fn timestamp_key() -> (r: String)
    ensures
        r@ == "timestamp"@,
{
    "timestamp".to_owned()
}

/// The `window_id` key.
fn window_id_key() -> (r: String)
    ensures
        r@ == "window_id"@,
{
    "window_id".to_owned()
}

/// The key-name field of a key record.
fn key_name(k: &Option<String>) -> (v: Value)
    ensures
        v@ == spec_key_name(*k),
{
    match k {
        Some(s) => Value::Str(lowercase(s.as_str())),
        None => Value::Null,
    }
}

/// Marshals one native event to its generic record, or to Null for a
/// variant with no defined mapping. Total: no event is an error.
pub fn marshal(e: &NativeEvent) -> (v: Value)
    ensures
        v@ == spec_marshal(*e),
{
    match e {
        NativeEvent::Quit { timestamp } => marshal_plain("quit", *timestamp),
        NativeEvent::AppTerminating { timestamp } => marshal_plain("app_terminated", *timestamp),
        NativeEvent::AppLowMemory { timestamp } => marshal_plain("app_low_memory", *timestamp),
        NativeEvent::AppWillEnterBackground { timestamp } => marshal_plain(
            "app_will_enter_background",
            *timestamp,
        ),
        NativeEvent::AppDidEnterBackground { timestamp } => marshal_plain(
            "app_did_enter_background",
            *timestamp,
        ),
        NativeEvent::AppWillEnterForeground { timestamp } => marshal_plain(
            "app_will_enter_foreground",
            *timestamp,
        ),
        NativeEvent::AppDidEnterForeground { timestamp } => marshal_plain(
            "app_did_enter_foreground",
            *timestamp,
        ),
        NativeEvent::Display { timestamp, display_index, display_event } => {
            let mut rec = Record::new();
            rec.push(kind_key(), Value::Str("display".to_owned()));
            rec.push("display_index".to_owned(), Value::Int(*display_index as i64));
            rec.push(
                "display_event".to_owned(),
                Value::Str(display_change_name(display_event).to_owned()),
            );
            rec.push(timestamp_key(), Value::Int(*timestamp as i64));
            proof {
                assert(rec@ =~= seq![
                    ("kind"@, DynVal::Str("display"@)),
                    ("display_index"@, DynVal::Int(*display_index as i64)),
                    ("display_event"@, DynVal::Str(spec_display_change_name(*display_event))),
                    ("timestamp"@, DynVal::Int(*timestamp as i64)),
                ]);
            }
            Value::Object(rec)
        },
        NativeEvent::Window { timestamp, window_id, win_event } => {
            let width = match win_event {
                WindowChange::Moved(w, _) => Value::Int(*w as i64),
                WindowChange::Resized(w, _) => Value::Int(*w as i64),
                WindowChange::SizeChanged(w, _) => Value::Int(*w as i64),
                _ => Value::Null,
            };
            let height = match win_event {
                WindowChange::Moved(_, h) => Value::Int(*h as i64),
                WindowChange::Resized(_, h) => Value::Int(*h as i64),
                WindowChange::SizeChanged(_, h) => Value::Int(*h as i64),
                _ => Value::Null,
            };
            let mut rec = Record::new();
            rec.push(kind_key(), Value::Str("window".to_owned()));
            rec.push(window_id_key(), Value::Int(*window_id as i64));
            rec.push(
                "win_event".to_owned(),
                Value::Str(window_change_name(win_event).to_owned()),
            );
            rec.push("width".to_owned(), width);
            rec.push("height".to_owned(), height);
            rec.push(timestamp_key(), Value::Int(*timestamp as i64));
            proof {
                assert(rec@ =~= seq![
                    ("kind"@, DynVal::Str("window"@)),
                    ("window_id"@, DynVal::Int(*window_id as i64)),
                    ("win_event"@, DynVal::Str(spec_window_change_name(*win_event))),
                    ("width"@, spec_window_width(*win_event)),
                    ("height"@, spec_window_height(*win_event)),
                    ("timestamp"@, DynVal::Int(*timestamp as i64)),
                ]);
            }
            Value::Object(rec)
        },
        NativeEvent::KeyDown { timestamp, window_id, keycode, scancode, keymod, repeat } =>
            marshal_key(
            "key_down",
            *timestamp,
            *window_id,
            keycode,
            scancode,
            keymod,
            *repeat,
        ),
        NativeEvent::KeyUp { timestamp, window_id, keycode, scancode, keymod, repeat } =>
            marshal_key(
            "key_up",
            *timestamp,
            *window_id,
            keycode,
            scancode,
            keymod,
            *repeat,
        ),
        NativeEvent::TextEditing { timestamp, window_id, text, start, length } => {
            let mut rec = Record::new();
            rec.push(kind_key(), Value::Str("text_editing".to_owned()));
            rec.push(window_id_key(), Value::Int(*window_id as i64));
            rec.push("text".to_owned(), Value::Str(text.clone()));
            rec.push("start".to_owned(), Value::Int(*start as i64));
            rec.push("length".to_owned(), Value::Int(*length as i64));
            rec.push(timestamp_key(), Value::Int(*timestamp as i64));
            proof {
                assert(rec@ =~= seq![
                    ("kind"@, DynVal::Str("text_editing"@)),
                    ("window_id"@, DynVal::Int(*window_id as i64)),
                    ("text"@, DynVal::Str(text@)),
                    ("start"@, DynVal::Int(*start as i64)),
                    ("length"@, DynVal::Int(*length as i64)),
                    ("timestamp"@, DynVal::Int(*timestamp as i64)),
                ]);
            }
            Value::Object(rec)
        },
        NativeEvent::TextInput { timestamp, window_id, text } => {
            let mut rec = Record::new();
            rec.push(kind_key(), Value::Str("text_input".to_owned()));
            rec.push(window_id_key(), Value::Int(*window_id as i64));
            rec.push("text".to_owned(), Value::Str(text.clone()));
            rec.push(timestamp_key(), Value::Int(*timestamp as i64));
            proof {
                assert(rec@ =~= seq![
                    ("kind"@, DynVal::Str("text_input"@)),
                    ("window_id"@, DynVal::Int(*window_id as i64)),
                    ("text"@, DynVal::Str(text@)),
                    ("timestamp"@, DynVal::Int(*timestamp as i64)),
                ]);
            }
            Value::Object(rec)
        },
        NativeEvent::MouseMotion { timestamp, window_id, which, x, y, xrel, yrel } => {
            let mut rec = Record::new();
            rec.push(kind_key(), Value::Str("mouse_motion".to_owned()));
            rec.push(window_id_key(), Value::Int(*window_id as i64));
            rec.push("which".to_owned(), Value::Int(*which as i64));
            rec.push("x".to_owned(), Value::Int(*x as i64));
            rec.push("y".to_owned(), Value::Int(*y as i64));
            rec.push("xrel".to_owned(), Value::Int(*xrel as i64));
            rec.push("yrel".to_owned(), Value::Int(*yrel as i64));
            rec.push(timestamp_key(), Value::Int(*timestamp as i64));
            proof {
                assert(rec@ =~= seq![
                    ("kind"@, DynVal::Str("mouse_motion"@)),
                    ("window_id"@, DynVal::Int(*window_id as i64)),
                    ("which"@, DynVal::Int(*which as i64)),
                    ("x"@, DynVal::Int(*x as i64)),
                    ("y"@, DynVal::Int(*y as i64)),
                    ("xrel"@, DynVal::Int(*xrel as i64)),
                    ("yrel"@, DynVal::Int(*yrel as i64)),
                    ("timestamp"@, DynVal::Int(*timestamp as i64)),
                ]);
            }
            Value::Object(rec)
        },
        NativeEvent::MouseButtonDown { timestamp, window_id, which, mouse_btn, clicks, x, y } =>
            marshal_mouse_button(
            "mouse_button_down",
            *timestamp,
            *window_id,
            *which,
            *mouse_btn,
            *clicks,
            *x,
            *y,
        ),
        NativeEvent::MouseButtonUp { timestamp, window_id, which, mouse_btn, clicks, x, y } =>
            marshal_mouse_button(
            "mouse_button_up",
            *timestamp,
            *window_id,
            *which,
            *mouse_btn,
            *clicks,
            *x,
            *y,
        ),
        NativeEvent::MouseWheel {
            timestamp,
            window_id,
            which,
            x,
            y,
            direction,
            precise_x,
            precise_y,
        } => {
            let code: i64 = match direction {
                WheelDirection::Normal => 0,
                WheelDirection::Flipped => 1,
                WheelDirection::Unknown(v) => *v as i64,
            };
            let mut rec = Record::new();
            rec.push(kind_key(), Value::Str("mouse_wheel".to_owned()));
            rec.push(window_id_key(), Value::Int(*window_id as i64));
            rec.push("which".to_owned(), Value::Int(*which as i64));
            rec.push("x".to_owned(), Value::Int(*x as i64));
            rec.push("y".to_owned(), Value::Int(*y as i64));
            rec.push("direction".to_owned(), Value::Int(code));
            rec.push("precise_x".to_owned(), Value::Float(*precise_x));
            rec.push("precise_y".to_owned(), Value::Float(*precise_y));
            rec.push(timestamp_key(), Value::Int(*timestamp as i64));
            proof {
                assert(rec@ =~= seq![
                    ("kind"@, DynVal::Str("mouse_wheel"@)),
                    ("window_id"@, DynVal::Int(*window_id as i64)),
                    ("which"@, DynVal::Int(*which as i64)),
                    ("x"@, DynVal::Int(*x as i64)),
                    ("y"@, DynVal::Int(*y as i64)),
                    ("direction"@, DynVal::Int(spec_wheel_direction_code(*direction))),
                    ("precise_x"@, DynVal::Float(*precise_x)),
                    ("precise_y"@, DynVal::Float(*precise_y)),
                    ("timestamp"@, DynVal::Int(*timestamp as i64)),
                ]);
            }
            Value::Object(rec)
        },
        NativeEvent::Unknown { timestamp, type_ } => {
            let mut rec = Record::new();
            rec.push(timestamp_key(), Value::Int(*timestamp as i64));
            rec.push("type".to_owned(), Value::Int(*type_ as i64));
            proof {
                assert(rec@ =~= seq![
                    ("timestamp"@, DynVal::Int(*timestamp as i64)),
                    ("type"@, DynVal::Int(*type_ as i64)),
                ]);
            }
            Value::Object(rec)
        },
        _ => Value::Null,
    }
}

/// Builds the record of a key-down or key-up event.
fn marshal_key(
    kind: &str,
    timestamp: u32,
    window_id: u32,
    keycode: &Option<String>,
    scancode: &Option<String>,
    keymod: &String,
    repeat: bool,
) -> (v: Value)
    ensures
        v@ == spec_key_record(kind@, timestamp, window_id, *keycode, *scancode, *keymod, repeat),
{
    let mut rec = Record::new();
    rec.push(kind_key(), Value::Str(kind.to_owned()));
    rec.push(window_id_key(), Value::Int(window_id as i64));
    rec.push("keycode".to_owned(), key_name(keycode));
    rec.push("scancode".to_owned(), key_name(scancode));
    rec.push("keymod".to_owned(), Value::Str(lowercase(keymod.as_str())));
    rec.push("repeat".to_owned(), Value::Bool(repeat));
    rec.push(timestamp_key(), Value::Int(timestamp as i64));
    proof {
        assert(rec@ =~= seq![
            ("kind"@, DynVal::Str(kind@)),
            ("window_id"@, DynVal::Int(window_id as i64)),
            ("keycode"@, spec_key_name(*keycode)),
            ("scancode"@, spec_key_name(*scancode)),
            ("keymod"@, DynVal::Str(lower_of(keymod@))),
            ("repeat"@, DynVal::Bool(repeat)),
            ("timestamp"@, DynVal::Int(timestamp as i64)),
        ]);
    }
    Value::Object(rec)
}

/// Builds the record of a mouse-button event.
fn marshal_mouse_button(
    kind: &str,
    timestamp: u32,
    window_id: u32,
    which: u32,
    mouse_btn: u8,
    clicks: u8,
    x: i32,
    y: i32,
) -> (v: Value)
    ensures
        v@ == spec_mouse_button_record(kind@, timestamp, window_id, which, mouse_btn, clicks, x, y),
{
    let mut rec = Record::new();
    rec.push(kind_key(), Value::Str(kind.to_owned()));
    rec.push(window_id_key(), Value::Int(window_id as i64));
    rec.push("which".to_owned(), Value::Int(which as i64));
    rec.push("mouse_btn".to_owned(), Value::Int(mouse_btn as i64));
    rec.push("clicks".to_owned(), Value::Int(clicks as i64));
    rec.push("x".to_owned(), Value::Int(x as i64));
    rec.push("y".to_owned(), Value::Int(y as i64));
    rec.push(timestamp_key(), Value::Int(timestamp as i64));
    proof {
        assert(rec@ =~= seq![
            ("kind"@, DynVal::Str(kind@)),
            ("window_id"@, DynVal::Int(window_id as i64)),
            ("which"@, DynVal::Int(which as i64)),
            ("mouse_btn"@, DynVal::Int(mouse_btn as i64)),
            ("clicks"@, DynVal::Int(clicks as i64)),
            ("x"@, DynVal::Int(x as i64)),
            ("y"@, DynVal::Int(y as i64)),
            ("timestamp"@, DynVal::Int(timestamp as i64)),
        ]);
    }
    Value::Object(rec)
}

/// What one pull yields: the pending event's record, or Null when none was
/// pending.
pub open spec fn spec_pull(polled: Option<NativeEvent>) -> DynVal {
    match polled {
        Some(e) => spec_marshal(e),
        None => DynVal::Null,
    }
}

impl EventPumpObject {
    /// Marshals the outcome of one native poll: the embedder polls for at
    /// most one pending event — never blocking — and hands the outcome here;
    /// the pending event decodes to its generic record, no pending event to
    /// Null. Never fails, and reads nothing but its argument, so repeated
    /// pulls are safe.
    pub fn call_pull(&mut self, polled: Option<NativeEvent>) -> (r: Result<Value, Error>)
        ensures
            *final(self) == *old(self),
            r matches Ok(v) && v@ == spec_pull(polled),
    {
        match polled {
            Some(e) => Ok(marshal(&e)),
            None => Ok(Value::Null),
        }
    }
}

/// Law: a pull with no pending native event yields Null.
pub proof fn lemma_pull_without_event_is_null()
    ensures
        spec_pull(None) == DynVal::Null,
{
}

/// Law: a native variant with no defined mapping marshals to Null — never to
/// an error and never to a record.
pub proof fn lemma_unmapped_marshals_to_null(e: NativeEvent)
    requires
        !is_mapped(e),
    ensures
        spec_marshal(e) == DynVal::Null,
{
}

/// Law: a window-resize event marshals to a record whose `kind` is
/// "window", whose `win_event` is "resized", and whose `width` and `height`
/// are the dimensions the native event reported; a window `shown` event
/// marshals with `width` and `height` both Null.
pub proof fn lemma_window_resize_record(timestamp: u32, window_id: u32, w: i32, h: i32)
    ensures
        spec_marshal(
            NativeEvent::Window { timestamp, window_id, win_event: WindowChange::Resized(w, h) },
        ) == DynVal::Object(
            seq![
                ("kind"@, DynVal::Str("window"@)),
                ("window_id"@, DynVal::Int(window_id as i64)),
                ("win_event"@, DynVal::Str("resized"@)),
                ("width"@, DynVal::Int(w as i64)),
                ("height"@, DynVal::Int(h as i64)),
                ("timestamp"@, DynVal::Int(timestamp as i64)),
            ],
        ),
        spec_marshal(
            NativeEvent::Window { timestamp, window_id, win_event: WindowChange::Shown },
        ) == DynVal::Object(
            seq![
                ("kind"@, DynVal::Str("window"@)),
                ("window_id"@, DynVal::Int(window_id as i64)),
                ("win_event"@, DynVal::Str("shown"@)),
                ("width"@, DynVal::Null),
                ("height"@, DynVal::Null),
                ("timestamp"@, DynVal::Int(timestamp as i64)),
            ],
        ),
{
}

} // verus!
