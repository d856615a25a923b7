//! Reading the properties of the session object that the page hands over.

use vstd::prelude::*;
use vstd::string::*;

verus! {

/// An error in accessing an object's property.
#[derive(Debug, Clone, PartialEq)]
pub enum GetObjectPropertyError {
    /// Failed to access the value.
    AccessFailed {
        /// Name of the property.
        key: &'static str,
    },
    /// The value is there but is not of the requested type.
    IncorrectType {
        /// Name of the property.
        key: &'static str,
        /// Name of the type that was asked for.
        expected_type: &'static str,
    },
}

/// What one attempt to read a property of a given type came to.
#[derive(Debug, Clone, Copy, PartialEq, Eq)]
pub enum PropertyProbe {
    /// The property could not be read at all.
    Inaccessible,
    /// The property was read, but its value is of another type.
    WrongType,
    /// The property was read and has the requested type.
    Present,
}

impl GetObjectPropertyError {
    /// The text shown to whoever started the session.
    pub open spec fn message_spec(self) -> Seq<char> {
        match self {
            GetObjectPropertyError::AccessFailed { key } => "Failed to get property: '"@ + key@
                + "'"@,
            GetObjectPropertyError::IncorrectType { key, expected_type } => "Expected property '"@
                + key@ + "' to be of type '"@ + expected_type@ + "'"@,
        }
    }

    /// Renders the error as the text shown to whoever started the session.
    pub fn message(&self) -> (text: String)
        ensures
            text@ == self.message_spec(),
    {
        match self {
            GetObjectPropertyError::AccessFailed { key } => {
                let mut text = String::from_str("Failed to get property: '");
                text.append(key);
                text.append("'");
                text
            },
            GetObjectPropertyError::IncorrectType { key, expected_type } => {
                let mut text = String::from_str("Expected property '");
                text.append(key);
                text.append("' to be of type '");
                text.append(expected_type);
                text.append("'");
                text
            },
        }
    }
}

/// The outcome of reading property `key` as a value of type `expected_type`.
pub open spec fn property_outcome(
    probe: PropertyProbe,
    key: &'static str,
    expected_type: &'static str,
) -> Result<(), GetObjectPropertyError> {
    match probe {
        PropertyProbe::Inaccessible => Err(GetObjectPropertyError::AccessFailed { key }),
        PropertyProbe::WrongType => Err(
            GetObjectPropertyError::IncorrectType { key, expected_type },
        ),
        PropertyProbe::Present => Ok(()),
    }
}

/// Judges one attempt to get a property of an object as a specific type:
/// an error if the property could not be read, another if it could not be
/// cast to the requested type, success otherwise.
pub fn get_object_property(
    probe: PropertyProbe,
    key: &'static str,
    expected_type: &'static str,
) -> (outcome: Result<(), GetObjectPropertyError>)
    ensures
        outcome == property_outcome(probe, key, expected_type),
{
    match probe {
        PropertyProbe::Inaccessible => Err(GetObjectPropertyError::AccessFailed { key }),
        PropertyProbe::WrongType => Err(GetObjectPropertyError::IncorrectType { key, expected_type }),
        PropertyProbe::Present => Ok(()),
    }
}

} // verus!
