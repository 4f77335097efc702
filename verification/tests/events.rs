use deimos::event::marshal;
use deimos::event::DisplayChange;
use deimos::event::NativeEvent;
use deimos::event::ScreenOrientation;
use deimos::event::WheelDirection;
use deimos::event::WindowChange;
use deimos::objects::EventPumpObject;
use deimos::value::Float;
use deimos::value::Record;
use deimos::value::Value;

fn rec(entries: Vec<(&str, Value)>) -> Value {
    Value::Object(Record {
        entries: entries.into_iter().map(|(k, v)| (k.to_string(), v)).collect(),
    })
}

#[test]
fn pull_without_pending_event_is_null() {
    let mut pump = EventPumpObject(3);
    assert_eq!(pump.call_pull(None), Ok(Value::Null));
    assert_eq!(pump.call_pull(None), Ok(Value::Null));
    assert_eq!(pump, EventPumpObject(3));
}

#[test]
fn quit_marshals_to_plain_record() {
    let v = marshal(&NativeEvent::Quit { timestamp: 7 });
    assert_eq!(
        v,
        rec(vec![("kind", Value::Str("quit".to_string())), ("timestamp", Value::Int(7))])
    );
}

#[test]
fn app_lifecycle_kinds() {
    let v = marshal(&NativeEvent::AppTerminating { timestamp: 1 });
    assert_eq!(
        v,
        rec(vec![
            ("kind", Value::Str("app_terminated".to_string())),
            ("timestamp", Value::Int(1)),
        ])
    );
    let v = marshal(&NativeEvent::AppWillEnterForeground { timestamp: 2 });
    assert_eq!(
        v,
        rec(vec![
            ("kind", Value::Str("app_will_enter_foreground".to_string())),
            ("timestamp", Value::Int(2)),
        ])
    );
}

#[test]
fn display_orientation_is_normalised() {
    let v = marshal(&NativeEvent::Display {
        timestamp: 5,
        display_index: 2,
        display_event: DisplayChange::Orientation(ScreenOrientation::LandscapeFlipped),
    });
    assert_eq!(
        v,
        rec(vec![
            ("kind", Value::Str("display".to_string())),
            ("display_index", Value::Int(2)),
            ("display_event", Value::Str("landscape_flipped".to_string())),
            ("timestamp", Value::Int(5)),
        ])
    );
}

#[test]
fn window_resize_carries_dimensions() {
    let v = marshal(&NativeEvent::Window {
        timestamp: 9,
        window_id: 4,
        win_event: WindowChange::Resized(640, 480),
    });
    assert_eq!(
        v,
        rec(vec![
            ("kind", Value::Str("window".to_string())),
            ("window_id", Value::Int(4)),
            ("win_event", Value::Str("resized".to_string())),
            ("width", Value::Int(640)),
            ("height", Value::Int(480)),
            ("timestamp", Value::Int(9)),
        ])
    );
}

#[test]
fn window_shown_has_null_dimensions() {
    let v = marshal(&NativeEvent::Window {
        timestamp: 9,
        window_id: 4,
        win_event: WindowChange::Shown,
    });
    assert_eq!(
        v,
        rec(vec![
            ("kind", Value::Str("window".to_string())),
            ("window_id", Value::Int(4)),
            ("win_event", Value::Str("shown".to_string())),
            ("width", Value::Null),
            ("height", Value::Null),
            ("timestamp", Value::Int(9)),
        ])
    );
}

#[test]
fn key_down_lowercases_names() {
    let v = marshal(&NativeEvent::KeyDown {
        timestamp: 3,
        window_id: 1,
        keycode: Some("Return".to_string()),
        scancode: Some("Return".to_string()),
        keymod: "LSHIFTMOD".to_string(),
        repeat: false,
    });
    assert_eq!(
        v,
        rec(vec![
            ("kind", Value::Str("key_down".to_string())),
            ("window_id", Value::Int(1)),
            ("keycode", Value::Str("return".to_string())),
            ("scancode", Value::Str("return".to_string())),
            ("keymod", Value::Str("lshiftmod".to_string())),
            ("repeat", Value::Bool(false)),
            ("timestamp", Value::Int(3)),
        ])
    );
}

#[test]
fn key_up_without_codes_yields_nulls() {
    let v = marshal(&NativeEvent::KeyUp {
        timestamp: 3,
        window_id: 1,
        keycode: None,
        scancode: None,
        keymod: "NOMOD".to_string(),
        repeat: true,
    });
    assert_eq!(
        v,
        rec(vec![
            ("kind", Value::Str("key_up".to_string())),
            ("window_id", Value::Int(1)),
            ("keycode", Value::Null),
            ("scancode", Value::Null),
            ("keymod", Value::Str("nomod".to_string())),
            ("repeat", Value::Bool(true)),
            ("timestamp", Value::Int(3)),
        ])
    );
}

#[test]
fn text_input_carries_text() {
    let v = marshal(&NativeEvent::TextInput {
        timestamp: 8,
        window_id: 2,
        text: "héllo".to_string(),
    });
    assert_eq!(
        v,
        rec(vec![
            ("kind", Value::Str("text_input".to_string())),
            ("window_id", Value::Int(2)),
            ("text", Value::Str("héllo".to_string())),
            ("timestamp", Value::Int(8)),
        ])
    );
}

#[test]
fn mouse_motion_drops_button_state() {
    let v = marshal(&NativeEvent::MouseMotion {
        timestamp: 1,
        window_id: 2,
        which: 0,
        x: 10,
        y: -20,
        xrel: 1,
        yrel: -1,
    });
    assert_eq!(
        v,
        rec(vec![
            ("kind", Value::Str("mouse_motion".to_string())),
            ("window_id", Value::Int(2)),
            ("which", Value::Int(0)),
            ("x", Value::Int(10)),
            ("y", Value::Int(-20)),
            ("xrel", Value::Int(1)),
            ("yrel", Value::Int(-1)),
            ("timestamp", Value::Int(1)),
        ])
    );
}

#[test]
fn mouse_button_up_carries_numeric_button() {
    let v = marshal(&NativeEvent::MouseButtonUp {
        timestamp: 2,
        window_id: 1,
        which: 0,
        mouse_btn: 3,
        clicks: 2,
        x: 5,
        y: 6,
    });
    assert_eq!(
        v,
        rec(vec![
            ("kind", Value::Str("mouse_button_up".to_string())),
            ("window_id", Value::Int(1)),
            ("which", Value::Int(0)),
            ("mouse_btn", Value::Int(3)),
            ("clicks", Value::Int(2)),
            ("x", Value::Int(5)),
            ("y", Value::Int(6)),
            ("timestamp", Value::Int(2)),
        ])
    );
}

#[test]
fn mouse_wheel_direction_codes() {
    let px = Float { trunc: 0, bits: (0.5f64).to_bits() };
    let py = Float { trunc: -1, bits: (-1.5f64).to_bits() };
    let v = marshal(&NativeEvent::MouseWheel {
        timestamp: 2,
        window_id: 1,
        which: 0,
        x: 0,
        y: -1,
        direction: WheelDirection::Flipped,
        precise_x: px,
        precise_y: py,
    });
    assert_eq!(
        v,
        rec(vec![
            ("kind", Value::Str("mouse_wheel".to_string())),
            ("window_id", Value::Int(1)),
            ("which", Value::Int(0)),
            ("x", Value::Int(0)),
            ("y", Value::Int(-1)),
            ("direction", Value::Int(1)),
            ("precise_x", Value::Float(px)),
            ("precise_y", Value::Float(py)),
            ("timestamp", Value::Int(2)),
        ])
    );
    let v = marshal(&NativeEvent::MouseWheel {
        timestamp: 2,
        window_id: 1,
        which: 0,
        x: 0,
        y: 1,
        direction: WheelDirection::Unknown(9),
        precise_x: px,
        precise_y: py,
    });
    match v {
        Value::Object(r) => assert_eq!(r.entries[5], ("direction".to_string(), Value::Int(9))),
        other => panic!("expected a record, got {:?}", other),
    }
}

#[test]
fn unknown_event_keeps_raw_type() {
    let v = marshal(&NativeEvent::Unknown { timestamp: 4, type_: 77777 });
    assert_eq!(
        v,
        rec(vec![("timestamp", Value::Int(4)), ("type", Value::Int(77777))])
    );
}

#[test]
fn unmapped_variants_marshal_to_null() {
    assert_eq!(marshal(&NativeEvent::JoyAxisMotion), Value::Null);
    assert_eq!(marshal(&NativeEvent::ControllerButtonDown), Value::Null);
    assert_eq!(marshal(&NativeEvent::FingerMotion), Value::Null);
    assert_eq!(marshal(&NativeEvent::ClipboardUpdate), Value::Null);
    assert_eq!(marshal(&NativeEvent::DropFile), Value::Null);
    assert_eq!(marshal(&NativeEvent::AudioDeviceAdded), Value::Null);
    assert_eq!(marshal(&NativeEvent::RenderTargetsReset), Value::Null);
    assert_eq!(marshal(&NativeEvent::LocaleChanged), Value::Null);
    assert_eq!(marshal(&NativeEvent::User), Value::Null);
}

#[test]
fn pull_marshals_pending_event() {
    let mut pump = EventPumpObject(3);
    let r = pump.call_pull(Some(NativeEvent::Quit { timestamp: 1 }));
    assert_eq!(
        r,
        Ok(rec(vec![("kind", Value::Str("quit".to_string())), ("timestamp", Value::Int(1))]))
    );
    let r = pump.call_pull(Some(NativeEvent::JoyAxisMotion));
    assert_eq!(r, Ok(Value::Null));
}
