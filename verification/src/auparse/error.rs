use vstd::prelude::*;
use vstd::string::*;
use std::time::SystemTimeError;

verus! {

/// std's error for a time that lies after the time it was measured from; Verus sees nothing
/// inside it.
#[verifier::external_type_specification]
#[verifier::external_body]
pub struct ExSystemTimeError(SystemTimeError);

/// An error that can occur
#[derive(Debug)]
pub enum Error {
    /// Failed to init auparse
    NativeInitFail,
    /// A time computation went backwards
    DurationError(SystemTimeError),
    /// Any other failure, with its description
    GeneralFail(String),
}

impl From<SystemTimeError> for Error {
    fn from(e: SystemTimeError) -> (r: Self) {
        Error::DurationError(e)
    }
}

impl vstd::std_specs::convert::FromSpecImpl<SystemTimeError> for Error {
    open spec fn obeys_from_spec() -> bool {
        true
    }

    open spec fn from_spec(e: SystemTimeError) -> Self {
        Error::DurationError(e)
    }
}

/// Text of the native initialisation failure.
pub open spec fn native_init_fail_text() -> Seq<char> {
    "Failed to init auparse"@
}

/// Prefix of the text of a general failure.
pub open spec fn general_fail_prefix() -> Seq<char> {
    "General failure: "@
}

impl Error {
    /// The message that this error displays: a fixed text, the `Display` text of the
    /// underlying time error, or the general prefix followed by the description.
    pub fn message(&self) -> (s: String)
        ensures
            self is NativeInitFail ==> s@ == native_init_fail_text(),
            self matches Error::GeneralFail(m) ==> s@ == general_fail_prefix() + m@,
            match self {
                Error::DurationError(e) => to_string_from_display_ensures::<SystemTimeError>(e, s),
                _ => true,
            },
    {
        match self {
            Error::NativeInitFail => String::from_str("Failed to init auparse"),
            Error::DurationError(e) => e.to_string(),
            Error::GeneralFail(m) => {
                let s = String::from_str("General failure: ");
                s.concat(m.as_str())
            },
        }
    }
}

/// The outcome of initialising a native parser: the handle when there is one, else
/// `NativeInitFail`.
pub fn init_result<T>(handle: Option<T>) -> (r: Result<T, Error>)
    ensures
        match handle {
            Some(h) => r == Ok::<T, Error>(h),
            None => r matches Err(Error::NativeInitFail),
        },
{
    match handle {
        Some(h) => Ok(h),
        None => Err(Error::NativeInitFail),
    }
}

} // verus!
