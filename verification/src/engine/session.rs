//! What the page hands over when it starts a session, and the checks that
//! it must pass before a story can run on it.

use vstd::prelude::*;
use vstd::string::*;
use crate::engine::sources::{SourceInfoError, SourceUserInfo};
use crate::engine::surface::TextElement;
use crate::wasm::util::{GetObjectPropertyError, PropertyProbe, property_outcome};

verus! {

/// Name of the session property that holds the title's text element.
pub const TITLE_ELEMENT_KEY: &'static str = "title_element";

/// Name of the session property that holds the body's text element.
pub const TEXT_ELEMENT_KEY: &'static str = "text_element";

/// Name of the session property that holds the container of the widgets.
pub const INPUT_ELEMENT_KEY: &'static str = "input_element";

/// What a first look at the session object found: whether it is an object
/// at all, and what reading each of its three elements came to. The two
/// names say which types the elements were read as.
#[derive(Debug, Clone, Copy)]
pub struct SessionProbe {
    /// Whether the session info is an object.
    pub is_object: bool,
    /// Reading the title's text element.
    pub title_element: PropertyProbe,
    /// Reading the body's text element.
    pub text_element: PropertyProbe,
    /// Reading the container of the widgets.
    pub input_element: PropertyProbe,
    /// Name of the type that a text element must have.
    pub text_type: &'static str,
    /// Name of the type that the container must have.
    pub container_type: &'static str,
}

/// Why a session could not be set up.
#[derive(Debug, PartialEq)]
pub enum UserInfoError {
    /// The session info is no object.
    NotAnObject,
    /// One of the elements could not be had.
    Property(GetObjectPropertyError),
    /// The sources could not be loaded.
    Sources(SourceInfoError),
}

impl UserInfoError {
    /// The text shown to whoever started the session.
    pub open spec fn message_spec(self) -> Seq<char> {
        match self {
            UserInfoError::NotAnObject => {
                "Failure to create startup information. Info was not an object"@
            },
            UserInfoError::Property(error) => error.message_spec(),
            UserInfoError::Sources(error) => error.message_spec(),
        }
    }

    /// Renders the error as the text shown to whoever started the session.
    pub fn message(&self) -> (text: String)
        ensures
            text@ == self.message_spec(),
    {
        match self {
            UserInfoError::NotAnObject => String::from_str(
                "Failure to create startup information. Info was not an object",
            ),
            UserInfoError::Property(error) => error.message(),
            UserInfoError::Sources(error) => error.message(),
        }
    }
}

/// The first fault in the shape of the session object, if it has one: it
/// must be an object, and its title, its body and its container must each
/// be there and have their type, looked at in this order.
pub open spec fn shape_error(probe: SessionProbe) -> Option<UserInfoError> {
    if !probe.is_object {
        Some(UserInfoError::NotAnObject)
    } else if property_outcome(probe.title_element, "title_element", probe.text_type) is Err {
        Some(
            UserInfoError::Property(
                property_outcome(probe.title_element, "title_element", probe.text_type)->Err_0,
            ),
        )
    } else if property_outcome(probe.text_element, "text_element", probe.text_type) is Err {
        Some(
            UserInfoError::Property(
                property_outcome(probe.text_element, "text_element", probe.text_type)->Err_0,
            ),
        )
    } else if property_outcome(probe.input_element, "input_element", probe.container_type)
        is Err {
        Some(
            UserInfoError::Property(
                property_outcome(
                    probe.input_element,
                    "input_element",
                    probe.container_type,
                )->Err_0,
            ),
        )
    } else {
        None
    }
}

/// Information passed in by the page when it creates a session: the two
/// text regions of the surface, and the sources of the story.
pub struct UserInfo {
    /// Title text.
    pub title_element: TextElement,
    /// Display text.
    pub text_element: TextElement,
    /// The sources and information about them.
    pub sources: SourceUserInfo,
}

impl UserInfo {
    /// Checks the shape of the session object. No source is to be fetched
    /// for a session that fails this check.
    pub fn check_shape(probe: &SessionProbe) -> (checked: Result<(), UserInfoError>)
        ensures
            checked is Ok <==> shape_error(*probe) is None,
            checked is Err ==> checked->Err_0 == shape_error(*probe)->0,
    {
        if !probe.is_object {
            return Err(UserInfoError::NotAnObject);
        }
        match crate::wasm::util::get_object_property(
            probe.title_element,
            "title_element",
            probe.text_type,
        ) {
            Err(error) => {
                return Err(UserInfoError::Property(error));
            },
            Ok(()) => {},
        }
        match crate::wasm::util::get_object_property(
            probe.text_element,
            "text_element",
            probe.text_type,
        ) {
            Err(error) => {
                return Err(UserInfoError::Property(error));
            },
            Ok(()) => {},
        }
        match crate::wasm::util::get_object_property(
            probe.input_element,
            "input_element",
            probe.container_type,
        ) {
            Err(error) => {
                return Err(UserInfoError::Property(error));
            },
            Ok(()) => {},
        }
        Ok(())
    }

    /// Sets up the session info from what the page handed over. A fault in
    /// the shape of the session object comes first; then a failure to load
    /// the sources; a session that has neither gets its two text regions
    /// and its sources as they were given.
    pub fn from_js_object(
        probe: &SessionProbe,
        title_element: TextElement,
        text_element: TextElement,
        sources: Result<SourceUserInfo, SourceInfoError>,
    ) -> (made: Result<UserInfo, UserInfoError>)
        ensures
            shape_error(*probe) is Some ==> made is Err && made->Err_0 == shape_error(*probe)->0,
            shape_error(*probe) is None && sources is Err ==> made is Err && made->Err_0
                == UserInfoError::Sources(sources->Err_0),
            shape_error(*probe) is None && sources is Ok ==> made is Ok && made->Ok_0 == (UserInfo {
                title_element,
                text_element,
                sources: sources->Ok_0,
            }),
    {
        match UserInfo::check_shape(probe) {
            Err(error) => Err(error),
            Ok(()) => match sources {
                Err(error) => Err(UserInfoError::Sources(error)),
                Ok(sources) => Ok(UserInfo { title_element, text_element, sources }),
            },
        }
    }
}

} // verus!
