//! The protocol's error type.

use vstd::prelude::*;

verus! {

/// The result of an operation of the protocol.
pub type Result<T, U> = std::result::Result<T, Error<U>>;

/// Holds an error value defined by the user of the library.
#[derive(Debug)]
pub struct UserErrorHolder<T> {
    inner: T,
}

impl<T> UserErrorHolder<T> {
    /// The user's error value held here.
    pub closed spec fn value(&self) -> T {
        self.inner
    }

    /// Wraps a user's error value.
    pub fn new(inner: T) -> (r: Self)
        ensures
            r.value() == inner,
    {
        UserErrorHolder { inner }
    }

    /// Gives back the user's error value.
    pub fn into_inner(self) -> (r: T)
        ensures
            r == self.value(),
    {
        self.inner
    }
}

/// Every failure the protocol reports.
#[derive(Debug)]
pub enum Error<T> {
    /// The service already serves an object with that uuid.
    UuidAlreadyInUse,
    /// The byte stream failed.
    IoError(std::io::Error),
    /// A message could not be encoded or decoded as JSON.
    JsonError(serde_json::Error),
    /// An error that is known only by its text.
    Stringized(String),
    /// An error value of the library's user.
    UserErrorEnum(UserErrorHolder<T>),
    /// A call named an object that the service does not serve.
    UnknownObject(u128),
}

/// The user's error value that `e` carries, if it carries one.
pub open spec fn user_error<T>(e: Error<T>) -> Option<T> {
    match e {
        Error::UserErrorEnum(holder) => Some(holder.value()),
        _ => None,
    }
}

impl<T> Error<T> {
    /// The user's error value, if this is a user error.
    pub fn to_user(&self) -> (r: Option<&T>)
        ensures
            match user_error(*self) {
                Some(v) => r matches Some(x) && *x == v,
                None => r is None,
            },
    {
        match self {
            Error::UserErrorEnum(user) => Some(&user.inner),
            _ => None,
        }
    }
}

/// Wraps a user's error value as an error of the protocol.
pub fn as_error<T>(val: T) -> (r: Error<T>)
    ensures
        r matches Error::UserErrorEnum(holder) && holder.value() == val,
{
    Error::UserErrorEnum(UserErrorHolder { inner: val })
}

/// What to decode in place of a variant that cannot be decoded (a stream or
/// JSON error, which travels only as its text): no value at all.
pub fn never_invoke<T, U>(_input: U) -> (r: Option<T>)
    ensures
        r is None,
{
    None
}

/// The text shown for `UuidAlreadyInUse`.
pub const UUID_IN_USE_TEXT: &'static str =
    "the service already serves an object with the same uuid as the object you tried to add";

/// The text shown for `UnknownObject`.
pub const UNKNOWN_OBJECT_TEXT: &'static str = "the service serves no object with the uuid that the call names";

impl<T> Error<T> {
    /// The text that displays this error, for every variant whose text the
    /// library decides; `None` for a user error, which displays as the
    /// user's value does.
    pub fn describe(&self) -> (r: Option<String>)
        ensures
            match self {
                Error::UuidAlreadyInUse => r matches Some(s) && s@ == UUID_IN_USE_TEXT@,
                Error::IoError(e) => r matches Some(s)
                    && vstd::string::to_string_from_display_ensures::<std::io::Error>(e, s),
                Error::JsonError(e) => r matches Some(s)
                    && vstd::string::to_string_from_display_ensures::<serde_json::Error>(e, s),
                Error::Stringized(text) => r matches Some(s) && s@ == text@,
                Error::UserErrorEnum(_) => r is None,
                Error::UnknownObject(_) => r matches Some(s) && s@ == UNKNOWN_OBJECT_TEXT@,
            },
    {
        match self {
            Error::UuidAlreadyInUse => Some(UUID_IN_USE_TEXT.to_string()),
            Error::IoError(e) => Some(e.to_string()),
            Error::JsonError(e) => Some(e.to_string()),
            Error::Stringized(text) => Some(text.clone()),
            Error::UserErrorEnum(_) => None,
            Error::UnknownObject(_) => Some(UNKNOWN_OBJECT_TEXT.to_string()),
        }
    }
}

impl<T> From<std::io::Error> for Error<T> {
    fn from(err: std::io::Error) -> (r: Self) {
        Error::IoError(err)
    }
}

impl<T> vstd::std_specs::convert::FromSpecImpl<std::io::Error> for Error<T> {
    open spec fn obeys_from_spec() -> bool {
        true
    }

    open spec fn from_spec(err: std::io::Error) -> Self {
        Error::IoError(err)
    }
}

impl<T> From<serde_json::Error> for Error<T> {
    fn from(err: serde_json::Error) -> (r: Self) {
        Error::JsonError(err)
    }
}

impl<T> vstd::std_specs::convert::FromSpecImpl<serde_json::Error> for Error<T> {
    open spec fn obeys_from_spec() -> bool {
        true
    }

    open spec fn from_spec(err: serde_json::Error) -> Self {
        Error::JsonError(err)
    }
}

/// A user error read back from the error that wraps it is the value wrapped.
pub proof fn lemma_user_error_round_trip<T>(val: T, e: Error<T>)
    requires
        e matches Error::UserErrorEnum(holder) && holder.value() == val,
    ensures
        user_error(e) == Some(val),
{
}

} // verus!
