use aleph_naught::engine::session::UserInfo;
use aleph_naught::engine::sources::{Source, SourceUserInfo};
use aleph_naught::engine::state::{State, MODULE_NAME};
use aleph_naught::engine::surface::TextElement;

fn fresh_state() -> State {
    let mut sources = SourceUserInfo::new();
    sources.insert(Source::new("main.rn".to_string(), "pub fn entry(state) {}".to_string()));
    State::new(UserInfo {
        title_element: TextElement::new("Title".to_string()),
        text_element: TextElement::new("Body".to_string()),
        sources,
    })
}

#[test]
fn module_name_is_engine() {
    assert_eq!(MODULE_NAME, "Engine");
}

#[test]
fn new_state_stands_in_no_scene() {
    let state = fresh_state();
    assert_eq!(state.current_scene, None);
    assert_eq!(state.uinfo.title_element.text(), "Title");
    assert_eq!(state.uinfo.text_element.text(), "Body");
    assert_eq!(state.uinfo.sources.len(), 1);
}

#[test]
fn body_operations_leave_the_title_alone() {
    let mut state = fresh_state();
    state.set_text("You wake up.");
    assert_eq!(state.uinfo.text_element.text(), "You wake up.");
    state.append_text(" It is dark.");
    assert_eq!(state.uinfo.text_element.text(), "You wake up. It is dark.");
    assert_eq!(state.uinfo.title_element.text(), "Title");
    state.clear_text();
    assert_eq!(state.uinfo.text_element.text(), "");
    assert_eq!(state.uinfo.title_element.text(), "Title");
}

#[test]
fn title_operations_leave_the_body_alone() {
    let mut state = fresh_state();
    state.set_title("Chapter");
    state.append_title(" One");
    assert_eq!(state.uinfo.title_element.text(), "Chapter One");
    assert_eq!(state.uinfo.text_element.text(), "Body");
    state.clear_title();
    assert_eq!(state.uinfo.title_element.text(), "");
    assert_eq!(state.uinfo.text_element.text(), "Body");
}

#[test]
fn append_text_twice_equals_appending_the_concatenation() {
    let mut twice = fresh_state();
    twice.clear_text();
    twice.append_text("The door ");
    twice.append_text("creaks.");
    let mut once = fresh_state();
    once.clear_text();
    once.append_text("The door creaks.");
    assert_eq!(twice.uinfo.text_element.text(), once.uinfo.text_element.text());
    assert_eq!(twice.uinfo.text_element.text(), "The door creaks.");
}

#[test]
fn text_operations_keep_scene_and_sources() {
    let mut state = fresh_state();
    state.current_scene = Some("cave".to_string());
    state.set_text("a");
    state.append_title("b");
    state.clear_text();
    assert_eq!(state.current_scene, Some("cave".to_string()));
    assert_eq!(state.uinfo.sources.len(), 1);
}
