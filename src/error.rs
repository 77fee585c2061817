use vstd::prelude::*;

verus! {

/// Failures of the core operations.
#[derive(Clone, Copy, Debug, PartialEq, Eq, Structural)]
pub enum CoreError {
    /// A user acted on themselves, or the target identifier is malformed.
    InvalidTarget,
    /// A user named in the request is unknown.
    NotFound,
    /// The viewer has no preferences document yet.
    PreferencesNotSet,
    /// The store cannot take the write; the caller may retry.
    StorageError,
}

impl CoreError {
    /// Message shown to the caller for this failure.
    pub fn message(&self) -> (r: String)
        ensures
            r@ == error_message(*self),
    {
        match self {
            CoreError::InvalidTarget => String::from_str("Invalid target user ID"),
            CoreError::NotFound => String::from_str("User not found"),
            CoreError::PreferencesNotSet => String::from_str("User has no preferences set"),
            CoreError::StorageError => String::from_str("Failed to record interaction"),
        }
    }
}

pub open spec fn error_message(e: CoreError) -> Seq<char> {
    match e {
        CoreError::InvalidTarget => "Invalid target user ID"@,
        CoreError::NotFound => "User not found"@,
        CoreError::PreferencesNotSet => "User has no preferences set"@,
        CoreError::StorageError => "Failed to record interaction"@,
    }
}

} // verus!
