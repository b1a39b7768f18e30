use remote_relay::action::{Action, Response};
use remote_relay::dispatch::{
    application_names, plan, resolve_key, resolve_target, settle, Application, Axis, Button,
    DispatchError, Effect, EffectResult, KeySymbol, LaunchTarget, Outcome,
};

fn text(s: &str) -> String {
    s.to_string()
}

fn app(name: &str, locator: &str) -> Application {
    Application { name: text(name), locator: text(locator) }
}

#[test]
fn named_keys_map_to_their_symbols() {
    assert_eq!(resolve_key("Backspace"), Some(KeySymbol::Backspace));
    assert_eq!(resolve_key("Return"), Some(KeySymbol::Return));
    assert_eq!(resolve_key("Escape"), Some(KeySymbol::Escape));
    assert_eq!(resolve_key("escape"), None);
    assert_eq!(resolve_key("F13"), None);
    assert_eq!(resolve_key(""), None);
}

#[test]
fn key_press_in_the_table_is_one_operation() {
    assert_eq!(
        plan(&Action::KeyCode { value: text("Backspace") }),
        Ok(vec![Effect::PressKey(KeySymbol::Backspace)])
    );
    assert_eq!(
        plan(&Action::KeyCode { value: text("Return") }),
        Ok(vec![Effect::PressKey(KeySymbol::Return)])
    );
    assert_eq!(
        plan(&Action::KeyCode { value: text("Escape") }),
        Ok(vec![Effect::PressKey(KeySymbol::Escape)])
    );
}

#[test]
fn key_press_outside_the_table_is_unsupported() {
    assert_eq!(
        plan(&Action::KeyCode { value: text("F13") }),
        Err(DispatchError::UnsupportedKey(text("F13")))
    );
}

#[test]
fn scroll_is_horizontal_then_vertical() {
    assert_eq!(
        plan(&Action::Scroll { x: 5, y: -3 }),
        Ok(vec![
            Effect::Scroll { axis: Axis::Horizontal, amount: 5 },
            Effect::Scroll { axis: Axis::Vertical, amount: -3 },
        ])
    );
}

#[test]
fn drag_is_two_wheel_operations() {
    assert_eq!(
        plan(&Action::Drag { x: -1, y: 2 }),
        Ok(vec![
            Effect::Scroll { axis: Axis::Horizontal, amount: -1 },
            Effect::Scroll { axis: Axis::Vertical, amount: 2 },
        ])
    );
}

#[test]
fn open_firefox_launches_it_once() {
    assert_eq!(resolve_target("firefox"), Some(LaunchTarget::Firefox));
    assert_eq!(
        plan(&Action::Open { value: text("firefox") }),
        Ok(vec![Effect::Launch(LaunchTarget::Firefox)])
    );
}

#[test]
fn open_unknown_app_is_unrecognized() {
    assert_eq!(resolve_target("unknown-app"), None);
    assert_eq!(resolve_target("Firefox"), None);
    assert_eq!(
        plan(&Action::Open { value: text("unknown-app") }),
        Err(DispatchError::UnrecognizedTarget(text("unknown-app")))
    );
}

#[test]
fn other_actions_are_one_operation_each() {
    assert_eq!(plan(&Action::Unicode { value: 'x' }), Ok(vec![Effect::TypeChar('x')]));
    assert_eq!(
        plan(&Action::MouseMove { x: -4, y: 9 }),
        Ok(vec![Effect::MoveRelative { dx: -4, dy: 9 }])
    );
    assert_eq!(plan(&Action::LeftClick), Ok(vec![Effect::Click(Button::Left)]));
    assert_eq!(plan(&Action::MiddleClick), Ok(vec![Effect::Click(Button::Middle)]));
    assert_eq!(plan(&Action::RightClick), Ok(vec![Effect::Click(Button::Right)]));
    assert_eq!(
        plan(&Action::Compositor { value: text("dispatch  exec [x] ") }),
        Ok(vec![Effect::Invoke(text("dispatch  exec [x] "))])
    );
    assert_eq!(plan(&Action::IncreaseVolume), Ok(vec![Effect::IncreaseVolume]));
    assert_eq!(plan(&Action::DecreaseVolume), Ok(vec![Effect::DecreaseVolume]));
    assert_eq!(plan(&Action::ToggleMuteVolume), Ok(vec![Effect::ToggleMute]));
    assert_eq!(plan(&Action::GetCapabilities), Ok(vec![Effect::ListApplications]));
}

#[test]
fn offsets_are_passed_on_unclamped() {
    assert_eq!(
        plan(&Action::MouseMove { x: i32::MIN, y: i32::MAX }),
        Ok(vec![Effect::MoveRelative { dx: i32::MIN, dy: i32::MAX }])
    );
    assert_eq!(
        plan(&Action::Scroll { x: i32::MAX, y: i32::MIN }),
        Ok(vec![
            Effect::Scroll { axis: Axis::Horizontal, amount: i32::MAX },
            Effect::Scroll { axis: Axis::Vertical, amount: i32::MIN },
        ])
    );
}

#[test]
fn application_names_keep_order_and_repeats() {
    let apps = vec![app("Firefox", "/a"), app("Files", "/b"), app("Firefox", "/c"), app("", "")];
    assert_eq!(application_names(&apps), vec![text("Firefox"), text("Files"), text("Firefox"), text("")]);
    assert_eq!(application_names(&Vec::new()), Vec::<String>::new());
}

#[test]
fn settle_turns_reports_into_outcomes() {
    assert_eq!(settle(&EffectResult::Done), Outcome::Ack);
    assert_eq!(
        settle(&EffectResult::Failed(text("no display"))),
        Outcome::Failure(DispatchError::Backend(text("no display")))
    );
    assert_eq!(
        settle(&EffectResult::Applications(vec![app("Firefox", "/a"), app("Files", "/b")])),
        Outcome::Response(Response::Capabilities { apps: vec![text("Firefox"), text("Files")] })
    );
    assert_eq!(
        settle(&EffectResult::Applications(Vec::new())),
        Outcome::Response(Response::Capabilities { apps: Vec::new() })
    );
}

#[test]
fn dispatch_errors_have_their_words() {
    assert_eq!(
        DispatchError::UnsupportedKey(text("F13")).message(),
        "Unrecognized key code: F13"
    );
    assert_eq!(
        DispatchError::UnrecognizedTarget(text("unknown-app")).message(),
        "Unrecognized target: unknown-app"
    );
    assert_eq!(DispatchError::Backend(text("no display")).message(), "Backend failure: no display");
}
