use aleph_naught::engine::choice::{choice_error_message, choice_report, Button, ChoiceSession};
use aleph_naught::engine::session::UserInfo;
use aleph_naught::engine::sources::SourceUserInfo;
use aleph_naught::engine::state::State;
use aleph_naught::engine::surface::{TextElement, Widget, WidgetContainer};
use std::cell::RefCell;

fn options(labels: &[&str]) -> Vec<Button<String>> {
    let mut out = Vec::new();
    for label in labels {
        out.push(Button::new(label.to_string(), format!("payload of {}", label)));
    }
    out
}

fn fresh_state() -> State {
    State::new(UserInfo {
        title_element: TextElement::new(String::new()),
        text_element: TextElement::new(String::new()),
        sources: SourceUserInfo::new(),
    })
}

fn button(text: &str, index: usize) -> Widget {
    Widget::Button { text: text.to_string(), index }
}

#[test]
fn button_new_keeps_text_and_data() {
    let b = Button::new("Left".to_string(), 3u8);
    assert_eq!(b.text, "Left");
    assert_eq!(b.on_activate_data, 3);
}

#[test]
fn ask_choice_shows_one_button_per_option_in_order() {
    let mut container = WidgetContainer::new();
    let session = fresh_state().ask_choice(&mut container, options(&["Left", "Right", "Back"]));
    assert_eq!(session.len(), 3);
    assert_eq!(container.len(), 3);
    assert_eq!(container.get(0), Some(&button("Left", 0)));
    assert_eq!(container.get(1), Some(&button("Right", 1)));
    assert_eq!(container.get(2), Some(&button("Back", 2)));
    assert_eq!(session.label(0), Some("Left"));
    assert_eq!(session.label(2), Some("Back"));
    assert_eq!(session.label(3), None);
}

#[test]
fn ask_choice_adds_behind_what_is_on_show() {
    let mut container = WidgetContainer::new();
    container.add(Widget::LineInput { default_text: "name".to_string() });
    let _session = fresh_state().ask_choice(&mut container, options(&["Go"]));
    assert_eq!(container.len(), 2);
    assert_eq!(container.get(0), Some(&Widget::LineInput { default_text: "name".to_string() }));
    assert_eq!(container.get(1), Some(&button("Go", 0)));
}

#[test]
fn ask_choice_without_options_shows_nothing() {
    let mut container = WidgetContainer::new();
    container.add(button("earlier", 0));
    let mut session = fresh_state().ask_choice(&mut container, Vec::<Button<String>>::new());
    assert_eq!(session.len(), 0);
    assert_eq!(container.len(), 1);
    assert_eq!(container.get(0), Some(&button("earlier", 0)));
    assert_eq!(session.fire(&mut container, 0), None);
    assert_eq!(container.len(), 1);
}

#[test]
fn fire_hands_out_the_payload_of_the_activated_option() {
    let mut container = WidgetContainer::new();
    let mut session = fresh_state().ask_choice(&mut container, options(&["Left", "Right", "Back"]));
    assert_eq!(session.fire(&mut container, 1), Some("payload of Right".to_string()));
    assert_eq!(session.len(), 0);
    assert!(container.is_empty());
}

#[test]
fn fire_of_first_and_last_option() {
    let mut container = WidgetContainer::new();
    let mut session = ChoiceSession::new(options(&["a", "b", "c"]));
    assert_eq!(session.fire(&mut container, 0), Some("payload of a".to_string()));
    let mut session = ChoiceSession::new(options(&["a", "b", "c"]));
    assert_eq!(session.fire(&mut container, 2), Some("payload of c".to_string()));
}

#[test]
fn second_activation_is_a_no_op() {
    let mut container = WidgetContainer::new();
    let mut session = fresh_state().ask_choice(&mut container, options(&["Left", "Right"]));
    assert_eq!(session.fire(&mut container, 0), Some("payload of Left".to_string()));
    container.add(button("shown later", 0));
    assert_eq!(session.fire(&mut container, 0), None);
    assert_eq!(session.fire(&mut container, 1), None);
    assert_eq!(container.len(), 1);
    assert_eq!(session.label(0), None);
}

#[test]
fn activation_out_of_range_changes_nothing() {
    let mut container = WidgetContainer::new();
    let mut session = fresh_state().ask_choice(&mut container, options(&["Left", "Right"]));
    assert_eq!(session.fire(&mut container, 2), None);
    assert_eq!(session.fire(&mut container, usize::MAX), None);
    assert_eq!(session.len(), 2);
    assert_eq!(container.len(), 2);
    assert_eq!(session.fire(&mut container, 1), Some("payload of Right".to_string()));
}

#[test]
fn exactly_one_callback_invocation_across_many_activations() {
    let mut container = WidgetContainer::new();
    let mut session = fresh_state().ask_choice(&mut container, options(&["a", "b", "c"]));
    let received: RefCell<Vec<String>> = RefCell::new(Vec::new());
    let attempts = [2usize, 2, 0, 1, 2, 7];
    let mut ran = Vec::new();
    for index in attempts {
        ran.push(session.activate(&mut container, index, |payload, _shown: &WidgetContainer| {
            received.borrow_mut().push(payload);
            Ok(())
        }));
    }
    assert_eq!(*received.borrow(), vec!["payload of c".to_string()]);
    assert_eq!(ran, vec![Ok(true), Ok(false), Ok(false), Ok(false), Ok(false), Ok(false)]);
}

#[test]
fn widgets_are_gone_when_the_callback_runs() {
    let mut container = WidgetContainer::new();
    let mut session = fresh_state().ask_choice(&mut container, options(&["a", "b"]));
    let ran = session.activate(&mut container, 0, |_payload, shown: &WidgetContainer| {
        assert!(shown.is_empty());
        Ok(())
    });
    assert_eq!(ran, Ok(true));
    assert!(container.is_empty());
    assert_eq!(session.len(), 0);
}

#[test]
fn failing_callback_is_reported_under_the_operation() {
    let mut container = WidgetContainer::new();
    let mut session = fresh_state().ask_choice(&mut container, options(&["a"]));
    let ran = session.activate(&mut container, 0, |_payload, _shown: &WidgetContainer| {
        Err("no such scene".to_string())
    });
    assert_eq!(ran, Err("[VMError:State::ask_choice]: no such scene".to_string()));
    assert!(container.is_empty());
    assert_eq!(
        session.activate(&mut container, 0, |_payload, _shown: &WidgetContainer| Ok(())),
        Ok(false)
    );
}

#[test]
fn choice_error_message_has_its_tag() {
    assert_eq!(choice_error_message("boom"), "[VMError:State::ask_choice]: boom");
}

#[test]
fn firing_clears_widgets_of_other_sessions_too() {
    let mut container = WidgetContainer::new();
    let state = fresh_state();
    let mut first = state.ask_choice(&mut container, options(&["a", "b"]));
    let _second = state.ask_choice(&mut container, options(&["c"]));
    assert_eq!(container.len(), 3);
    assert_eq!(first.fire(&mut container, 1), Some("payload of b".to_string()));
    assert!(container.is_empty());
}

#[test]
fn choice_report_follows_the_callback() {
    assert_eq!(choice_report(Ok(())), Ok(true));
    assert_eq!(
        choice_report(Err("boom".to_string())),
        Err("[VMError:State::ask_choice]: boom".to_string())
    );
}

#[test]
fn fire_then_callback_then_report() {
    let mut container = WidgetContainer::new();
    let mut session = fresh_state().ask_choice(&mut container, options(&["a", "b"]));
    let fired = session.fire(&mut container, 1);
    assert!(container.is_empty());
    let answer: Result<(), String> = match fired {
        Some(payload) => {
            assert_eq!(payload, "payload of b");
            Err("scene failed".to_string())
        }
        None => panic!("a live option did not fire"),
    };
    assert_eq!(
        choice_report(answer),
        Err("[VMError:State::ask_choice]: scene failed".to_string())
    );
}
