use napali::action::mode::Mode;
use napali::action::overlay::Overlay;
use napali::action::scene::Scene;
use napali::action::view::View;
use napali::action::{Action, ActionParseError};
use napali::text::NumberError;

#[test]
fn actions_without_argument_are_read_by_name() {
    assert_eq!(Action::parse("Tick"), Ok(Action::Tick));
    assert_eq!(Action::parse("Render"), Ok(Action::Render));
    assert_eq!(Action::parse("Suspend"), Ok(Action::Suspend));
    assert_eq!(Action::parse("Resume"), Ok(Action::Resume));
    assert_eq!(Action::parse("Quit"), Ok(Action::Quit));
    assert_eq!(Action::parse("Refresh"), Ok(Action::Refresh));
    assert_eq!(Action::parse("Help"), Ok(Action::Help));
}

#[test]
fn changes_are_read_with_their_variant() {
    assert_eq!(Action::parse("ChangeScene(About)"), Ok(Action::ChangeScene(Scene::About)));
    assert_eq!(
        Action::parse("ChangeScene(Internals)"),
        Ok(Action::ChangeScene(Scene::Internals))
    );
    assert_eq!(Action::parse("ChangeScene(Session)"), Ok(Action::ChangeScene(Scene::Session)));
    assert_eq!(Action::parse("ChangeScene(Home)"), Ok(Action::ChangeScene(Scene::Home)));
    assert_eq!(Action::parse("ChangeScene(Data)"), Ok(Action::ChangeScene(Scene::Data)));
    assert_eq!(Action::parse("ChangeView(A)"), Ok(Action::ChangeView(View::A)));
    assert_eq!(Action::parse("ChangeView(R)"), Ok(Action::ChangeView(View::R)));
    assert_eq!(Action::parse("ChangeView(L)"), Ok(Action::ChangeView(View::L)));
    assert_eq!(Action::parse("ChangeView(Prompt)"), Ok(Action::ChangeView(View::Prompt)));
    assert_eq!(
        Action::parse("ToggleOverlay(UsageInfo)"),
        Ok(Action::ToggleOverlay(Overlay::UsageInfo))
    );
}

#[test]
fn errors_keep_their_message() {
    assert_eq!(Action::parse("Error(boom)"), Ok(Action::Error("boom".to_string())));
    assert_eq!(Action::parse("Error("), Ok(Action::Error(String::new())));
    assert_eq!(Action::parse("Error(a(b))"), Ok(Action::Error("a(b".to_string())));
    assert_eq!(Action::parse("Error(Error(x"), Ok(Action::Error("x".to_string())));
}

#[test]
fn resizes_are_read_as_two_numbers() {
    assert_eq!(Action::parse("Resize(80,24)"), Ok(Action::Resize(80, 24)));
    assert_eq!(Action::parse("Resize( 80 , 24 )"), Ok(Action::Resize(80, 24)));
    assert_eq!(Action::parse("Resize(+1,65535)"), Ok(Action::Resize(1, 65535)));
    assert_eq!(Action::parse("Resize(0,007"), Ok(Action::Resize(0, 7)));
}

#[test]
fn bad_resizes_are_refused() {
    assert_eq!(Action::parse("Resize(80)"), Err(ActionParseError::InvalidResize));
    assert_eq!(Action::parse("Resize(1,2,3)"), Err(ActionParseError::InvalidResize));
    assert_eq!(
        Action::parse("Resize(,2)"),
        Err(ActionParseError::InvalidNumber(NumberError::Empty))
    );
    assert_eq!(
        Action::parse("Resize(1,x)"),
        Err(ActionParseError::InvalidNumber(NumberError::InvalidDigit))
    );
    assert_eq!(
        Action::parse("Resize(-1,2)"),
        Err(ActionParseError::InvalidNumber(NumberError::InvalidDigit))
    );
    assert_eq!(
        Action::parse("Resize(65536,2)"),
        Err(ActionParseError::InvalidNumber(NumberError::Overflow))
    );
    assert_eq!(
        Action::parse("Resize(99999x,2)"),
        Err(ActionParseError::InvalidNumber(NumberError::Overflow))
    );
    assert_eq!(
        Action::parse("Resize(9x9999,2)"),
        Err(ActionParseError::InvalidNumber(NumberError::InvalidDigit))
    );
    assert_eq!(
        Action::parse("Resize(+,2)"),
        Err(ActionParseError::InvalidNumber(NumberError::InvalidDigit))
    );
}

#[test]
fn unknown_actions_are_refused() {
    assert_eq!(Action::parse(""), Err(ActionParseError::UnknownVariant));
    assert_eq!(Action::parse("tick"), Err(ActionParseError::UnknownVariant));
    assert_eq!(Action::parse("ChangeScene(Nowhere)"), Err(ActionParseError::UnknownVariant));
    assert_eq!(Action::parse("ChangeMode(TextInput)"), Err(ActionParseError::UnknownVariant));
    assert_eq!(Action::parse(" Quit"), Err(ActionParseError::UnknownVariant));
}

#[test]
fn defaults_of_the_enumerations() {
    assert_eq!(Action::default(), Action::Tick);
    assert_eq!(Mode::default(), Mode::Navigation);
    assert_eq!(Scene::default(), Scene::Data);
    assert_eq!(View::default(), View::A);
    assert_eq!(Overlay::default(), Overlay::UsageInfo);
}

#[test]
fn duplicate_copies_an_action() {
    let action = Action::Error("x".to_string());
    assert_eq!(action.duplicate(), action);
    assert_eq!(Action::Resize(3, 4).duplicate(), Action::Resize(3, 4));
}
