use deimos::error::Error;
use deimos::error::Expected;
use deimos::objects::Capability;
use deimos::objects::CanvasObject;
use deimos::objects::Command;
use deimos::objects::EventPumpObject;
use deimos::objects::Method;
use deimos::objects::SdlObject;
use deimos::objects::self_dispatch;
use deimos::options::Brightness;
use deimos::value::Float;
use deimos::value::Record;
use deimos::value::Tag;
use deimos::value::Value;

fn sdl() -> Value {
    Value::UserObject(Capability::Sdl(SdlObject(1)))
}

fn canvas() -> Value {
    Value::UserObject(Capability::Canvas(CanvasObject(2)))
}

fn pump() -> Value {
    Value::UserObject(Capability::EventPump(EventPumpObject(3)))
}

fn record(entries: Vec<(&str, Value)>) -> Record {
    Record { entries: entries.into_iter().map(|(k, v)| (k.to_string(), v)).collect() }
}

#[test]
fn color_defaults_alpha_to_255() {
    let mut c = CanvasObject(2);
    let r = c.call_mut("color", vec![Value::Int(10), Value::Int(20), Value::Int(30)]);
    assert_eq!(r, Ok(Command::SetColor { r: 10, g: 20, b: 30, a: 255 }));
}

#[test]
fn color_clamps_channels() {
    let mut c = CanvasObject(2);
    let r = c.call_mut(
        "color",
        vec![Value::Int(-10), Value::Int(300), Value::Int(255), Value::Int(-1)],
    );
    assert_eq!(r, Ok(Command::SetColor { r: 0, g: 255, b: 255, a: 0 }));
}

#[test]
fn color_mismatch_yields_no_command() {
    let mut c = CanvasObject(2);
    let r = c.call_mut(
        "color",
        vec![Value::Str("red".to_string()), Value::Int(0), Value::Int(0)],
    );
    assert_eq!(
        r,
        Err(Error::TypeMismatch { expected: Expected::Exact(Tag::Int), actual: Tag::Str, position: 0 })
    );
}

#[test]
fn rect_defaults_fill_to_outline() {
    let mut c = CanvasObject(2);
    let r = c.call_mut(
        "rect",
        vec![Value::Int(1), Value::Int(2), Value::Int(3), Value::Int(4)],
    );
    assert_eq!(r, Ok(Command::DrawRect { x: 1, y: 2, width: 3, height: 4, fill: false }));
}

#[test]
fn rect_with_fill_flag() {
    let mut c = CanvasObject(2);
    let r = c.call_mut(
        "rect",
        vec![Value::Int(1), Value::Int(2), Value::Int(3), Value::Int(4), Value::Bool(true)],
    );
    assert_eq!(r, Ok(Command::DrawRect { x: 1, y: 2, width: 3, height: 4, fill: true }));
}

#[test]
fn line_mixes_ints_and_floats() {
    let mut c = CanvasObject(2);
    let f = Value::Float(Float { trunc: 7, bits: (7.9f64).to_bits() });
    let r = c.call_mut("line", vec![Value::Int(0), f, Value::Int(20), Value::Int(30)]);
    assert_eq!(r, Ok(Command::DrawLine { x1: 0, y1: 7, x2: 20, y2: 30 }));
}

#[test]
fn scale_rejects_int() {
    let mut c = CanvasObject(2);
    let r = c.call_mut("scale", vec![Value::Int(2), Value::Int(2)]);
    assert_eq!(
        r,
        Err(Error::TypeMismatch { expected: Expected::Exact(Tag::Float), actual: Tag::Int, position: 0 })
    );
}

#[test]
fn scale_passes_floats_through() {
    let mut c = CanvasObject(2);
    let x = Float { trunc: 2, bits: (2.5f64).to_bits() };
    let y = Float { trunc: 1, bits: (1.5f64).to_bits() };
    let r = c.call_mut("scale", vec![Value::Float(x), Value::Float(y)]);
    assert_eq!(r, Ok(Command::SetScale { x, y }));
}

#[test]
fn unmapped_key_is_no_such_method() {
    let mut c = CanvasObject(2);
    assert_eq!(c.call_mut("blit", vec![]), Err(Error::NoSuchMethod));
    let s = SdlObject(1);
    assert_eq!(s.call("blit", vec![]), Err(Error::NoSuchMethod));
    let mut p = EventPumpObject(3);
    assert_eq!(p.call_mut("blit", vec![]), Err(Error::NoSuchMethod));
}

#[test]
fn get_resolves_methods_and_nothing_else() {
    assert_eq!(SdlObject(1).get("canvas"), Some(Value::Function(Method::Canvas)));
    assert_eq!(SdlObject(1).get("events"), Some(Value::Function(Method::Events)));
    assert_eq!(SdlObject(1).get("present"), None);
    assert_eq!(CanvasObject(2).get("rect"), Some(Value::Function(Method::Rect)));
    assert_eq!(CanvasObject(2).get("pull"), None);
    assert_eq!(EventPumpObject(3).get("pull"), Some(Value::Function(Method::Pull)));
    assert_eq!(EventPumpObject(3).get("bogus"), None);
}

#[test]
fn type_tags() {
    assert_eq!(SdlObject(1).typ(), "sdl");
    assert_eq!(CanvasObject(2).typ(), "canvas");
    assert_eq!(EventPumpObject(3).typ(), "event-pump");
    assert_eq!(Capability::Sdl(SdlObject(1)).typ(), "sdl");
    assert_eq!(Capability::Canvas(CanvasObject(2)).tag(), Tag::Canvas);
    assert_eq!(Tag::EventPump.name(), "event-pump");
}

#[test]
fn capability_get_routes_by_resource_type() {
    assert_eq!(
        Capability::Canvas(CanvasObject(2)).get("line"),
        Some(Value::Function(Method::Line))
    );
    assert_eq!(Capability::Sdl(SdlObject(1)).get("line"), None);
    assert_eq!(
        Capability::EventPump(EventPumpObject(3)).get("pull"),
        Some(Value::Function(Method::Pull))
    );
}

#[test]
fn dispatch_routes_to_owner() {
    let r = self_dispatch(Method::Clear, vec![canvas()]);
    assert_eq!(r, Ok(Command::Clear));
    let r = self_dispatch(Method::Pull, vec![pump()]);
    assert_eq!(r, Ok(Command::Pull));
    let r = self_dispatch(Method::Events, vec![sdl()]);
    assert_eq!(r, Ok(Command::OpenEvents));
}

#[test]
fn dispatch_strips_receiver_before_decoding() {
    let r = self_dispatch(
        Method::Color,
        vec![canvas(), Value::Int(1), Value::Int(2), Value::Int(3)],
    );
    assert_eq!(r, Ok(Command::SetColor { r: 1, g: 2, b: 3, a: 255 }));
}

#[test]
fn dispatch_rejects_wrong_capability() {
    let r = self_dispatch(Method::Present, vec![sdl()]);
    assert_eq!(r, Err(Error::WrongReceiverType { actual: Tag::Sdl }));
    let r = self_dispatch(Method::Canvas, vec![pump()]);
    assert_eq!(r, Err(Error::WrongReceiverType { actual: Tag::EventPump }));
}

#[test]
fn dispatch_rejects_non_capability_receiver() {
    let r = self_dispatch(Method::Present, vec![Value::Int(5)]);
    assert_eq!(r, Err(Error::WrongReceiverType { actual: Tag::Int }));
}

#[test]
fn dispatch_rejects_missing_receiver() {
    let r = self_dispatch(Method::Present, vec![]);
    assert_eq!(r, Err(Error::WrongReceiverType { actual: Tag::Null }));
}

#[test]
fn canvas_request_decodes_with_options() {
    let opts = record(vec![
        ("fullscreen", Value::Bool(true)),
        ("brightness", Value::Int(1)),
    ]);
    let s = SdlObject(1);
    let r = s.call(
        "canvas",
        vec![
            Value::Str("win".to_string()),
            Value::Int(640),
            Value::Int(480),
            Value::Object(opts),
        ],
    );
    match r {
        Ok(Command::OpenCanvas { title, width, height, options }) => {
            assert_eq!(title, "win".to_string());
            assert_eq!(width, 640);
            assert_eq!(height, 480);
            assert_eq!(options.fullscreen, Some(true));
            assert_eq!(options.brightness, Some(Brightness::Int(1)));
            assert_eq!(options.always_on_top, None);
            assert_eq!(options.bordered, None);
        }
        other => panic!("unexpected decode: {:?}", other),
    }
}

#[test]
fn canvas_request_without_options() {
    let s = SdlObject(1);
    let r = s.call(
        "canvas",
        vec![Value::Str("win".to_string()), Value::Int(1), Value::Int(1)],
    );
    match r {
        Ok(Command::OpenCanvas { options, .. }) => {
            assert_eq!(options.always_on_top, None);
            assert_eq!(options.bordered, None);
            assert_eq!(options.brightness, None);
            assert_eq!(options.fullscreen, None);
        }
        other => panic!("unexpected decode: {:?}", other),
    }
}

#[test]
fn canvas_title_mismatch() {
    let s = SdlObject(1);
    let r = s.call("canvas", vec![Value::Int(0), Value::Int(1), Value::Int(1)]);
    assert_eq!(
        r,
        Err(Error::TypeMismatch { expected: Expected::Exact(Tag::Str), actual: Tag::Int, position: 0 })
    );
}

#[test]
fn unrecognized_option_keys_are_ignored() {
    let with_noise = record(vec![
        ("resizable", Value::Bool(true)),
        ("bordered", Value::Bool(false)),
        ("vsync", Value::Int(1)),
    ]);
    let plain = record(vec![("bordered", Value::Bool(false))]);
    let s = SdlObject(1);
    let a1 = vec![
        Value::Str("w".to_string()),
        Value::Int(10),
        Value::Int(10),
        Value::Object(with_noise),
    ];
    let a2 = vec![
        Value::Str("w".to_string()),
        Value::Int(10),
        Value::Int(10),
        Value::Object(plain),
    ];
    assert_eq!(s.call("canvas", a1), s.call("canvas", a2));
}

#[test]
fn brightness_ignores_other_types() {
    let opts = record(vec![
        ("brightness", Value::Float(Float { trunc: 0, bits: (0.5f64).to_bits() })),
        ("brightness", Value::Str("bright".to_string())),
    ]);
    let s = SdlObject(1);
    let r = s.call(
        "canvas",
        vec![
            Value::Str("w".to_string()),
            Value::Int(10),
            Value::Int(10),
            Value::Object(opts),
        ],
    );
    match r {
        Ok(Command::OpenCanvas { options, .. }) => {
            assert_eq!(
                options.brightness,
                Some(Brightness::Float(Float { trunc: 0, bits: (0.5f64).to_bits() }))
            );
        }
        other => panic!("unexpected decode: {:?}", other),
    }
}

#[test]
fn repeated_option_key_last_wins() {
    let opts = record(vec![
        ("bordered", Value::Bool(true)),
        ("bordered", Value::Bool(false)),
    ]);
    let s = SdlObject(1);
    let r = s.call(
        "canvas",
        vec![
            Value::Str("w".to_string()),
            Value::Int(10),
            Value::Int(10),
            Value::Object(opts),
        ],
    );
    match r {
        Ok(Command::OpenCanvas { options, .. }) => {
            assert_eq!(options.bordered, Some(false));
        }
        other => panic!("unexpected decode: {:?}", other),
    }
}

#[test]
fn boolean_options_use_truthiness() {
    let opts = record(vec![
        ("always_on_top", Value::Int(0)),
        ("bordered", Value::Null),
    ]);
    let s = SdlObject(1);
    let r = s.call(
        "canvas",
        vec![
            Value::Str("w".to_string()),
            Value::Int(10),
            Value::Int(10),
            Value::Object(opts),
        ],
    );
    match r {
        Ok(Command::OpenCanvas { options, .. }) => {
            assert_eq!(options.always_on_top, Some(true));
            assert_eq!(options.bordered, Some(false));
        }
        other => panic!("unexpected decode: {:?}", other),
    }
}
