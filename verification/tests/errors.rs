use aleph_naught::engine::session::{SessionProbe, UserInfo, UserInfoError};
use aleph_naught::engine::sources::{SourceInfoError, SourceUserInfo};
use aleph_naught::engine::surface::TextElement;
use aleph_naught::wasm::util::{get_object_property, GetObjectPropertyError, PropertyProbe};

#[test]
fn source_error_messages() {
    assert_eq!(
        SourceInfoError::IterFailure { key: "files" }.message(),
        "Expected property 'files' to be iterable"
    );
    assert_eq!(
        SourceInfoError::ActiveIterFailure { key: "files" }.message(),
        "While iterating over 'files', experienced error in getting value"
    );
    assert_eq!(
        SourceInfoError::ExpectedString.message(),
        "Expected string, but got non-string value. (Good luck)."
    );
    assert_eq!(
        SourceInfoError::RequestCreationFailure.message(),
        "Failed to create network request before even sending it."
    );
    assert_eq!(SourceInfoError::RequestFailure.message(), "Failure in network request.");
    assert_eq!(SourceInfoError::BadRequestBody.message(), "Failed to get request body");
}

#[test]
fn source_error_message_names_the_key() {
    assert_eq!(
        SourceInfoError::IterFailure { key: "sources" }.message(),
        "Expected property 'sources' to be iterable"
    );
    assert_eq!(
        SourceInfoError::ActiveIterFailure { key: "" }.message(),
        "While iterating over '', experienced error in getting value"
    );
}

#[test]
fn property_error_messages() {
    assert_eq!(
        GetObjectPropertyError::AccessFailed { key: "title_element" }.message(),
        "Failed to get property: 'title_element'"
    );
    assert_eq!(
        GetObjectPropertyError::IncorrectType { key: "text_element", expected_type: "HtmlElement" }
            .message(),
        "Expected property 'text_element' to be of type 'HtmlElement'"
    );
}

#[test]
fn property_outcome_per_probe() {
    assert_eq!(
        get_object_property(PropertyProbe::Inaccessible, "k", "T"),
        Err(GetObjectPropertyError::AccessFailed { key: "k" })
    );
    assert_eq!(
        get_object_property(PropertyProbe::WrongType, "k", "T"),
        Err(GetObjectPropertyError::IncorrectType { key: "k", expected_type: "T" })
    );
    assert_eq!(get_object_property(PropertyProbe::Present, "k", "T"), Ok(()));
}

fn probe(
    is_object: bool,
    title: PropertyProbe,
    text: PropertyProbe,
    input: PropertyProbe,
) -> SessionProbe {
    SessionProbe {
        is_object,
        title_element: title,
        text_element: text,
        input_element: input,
        text_type: "HtmlElement",
        container_type: "Element",
    }
}

#[test]
fn shape_check_accepts_a_complete_session() {
    let p = probe(true, PropertyProbe::Present, PropertyProbe::Present, PropertyProbe::Present);
    assert_eq!(UserInfo::check_shape(&p), Ok(()));
}

#[test]
fn shape_check_rejects_a_non_object_first() {
    let p = probe(
        false,
        PropertyProbe::Inaccessible,
        PropertyProbe::WrongType,
        PropertyProbe::Inaccessible,
    );
    assert_eq!(UserInfo::check_shape(&p), Err(UserInfoError::NotAnObject));
    assert_eq!(
        UserInfoError::NotAnObject.message(),
        "Failure to create startup information. Info was not an object"
    );
}

#[test]
fn shape_check_reports_the_first_faulty_element() {
    let p = probe(true, PropertyProbe::WrongType, PropertyProbe::Inaccessible, PropertyProbe::Present);
    assert_eq!(
        UserInfo::check_shape(&p),
        Err(UserInfoError::Property(GetObjectPropertyError::IncorrectType {
            key: "title_element",
            expected_type: "HtmlElement",
        }))
    );
    let p = probe(true, PropertyProbe::Present, PropertyProbe::Inaccessible, PropertyProbe::WrongType);
    assert_eq!(
        UserInfo::check_shape(&p),
        Err(UserInfoError::Property(GetObjectPropertyError::AccessFailed { key: "text_element" }))
    );
    let p = probe(true, PropertyProbe::Present, PropertyProbe::Present, PropertyProbe::WrongType);
    assert_eq!(
        UserInfo::check_shape(&p),
        Err(UserInfoError::Property(GetObjectPropertyError::IncorrectType {
            key: "input_element",
            expected_type: "Element",
        }))
    );
}

#[test]
fn user_info_error_messages_delegate() {
    assert_eq!(
        UserInfoError::Property(GetObjectPropertyError::AccessFailed { key: "input_element" })
            .message(),
        "Failed to get property: 'input_element'"
    );
    assert_eq!(
        UserInfoError::Sources(SourceInfoError::RequestFailure).message(),
        "Failure in network request."
    );
}

#[test]
fn session_info_is_made_from_a_sound_session() {
    let p = probe(true, PropertyProbe::Present, PropertyProbe::Present, PropertyProbe::Present);
    let made = UserInfo::from_js_object(
        &p,
        TextElement::new("Title".to_string()),
        TextElement::new("Body".to_string()),
        Ok(SourceUserInfo::new()),
    );
    let info = match made {
        Ok(info) => info,
        Err(error) => panic!("unexpected failure: {:?}", error),
    };
    assert_eq!(info.title_element.text(), "Title");
    assert_eq!(info.text_element.text(), "Body");
    assert_eq!(info.sources.len(), 0);
}

#[test]
fn session_info_fails_on_shape_before_sources() {
    let p = probe(true, PropertyProbe::Present, PropertyProbe::WrongType, PropertyProbe::Present);
    let made = UserInfo::from_js_object(
        &p,
        TextElement::new(String::new()),
        TextElement::new(String::new()),
        Err(SourceInfoError::BadRequestBody),
    );
    match made {
        Err(error) => assert_eq!(
            error,
            UserInfoError::Property(GetObjectPropertyError::IncorrectType {
                key: "text_element",
                expected_type: "HtmlElement",
            })
        ),
        Ok(_) => panic!("a faulty session was accepted"),
    }
}

#[test]
fn session_info_fails_when_sources_fail() {
    let p = probe(true, PropertyProbe::Present, PropertyProbe::Present, PropertyProbe::Present);
    let made = UserInfo::from_js_object(
        &p,
        TextElement::new(String::new()),
        TextElement::new(String::new()),
        Err(SourceInfoError::ExpectedString),
    );
    match made {
        Err(error) => assert_eq!(error, UserInfoError::Sources(SourceInfoError::ExpectedString)),
        Ok(_) => panic!("a session without sources was accepted"),
    }
}
