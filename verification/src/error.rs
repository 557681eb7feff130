//! The error that device access and report handling end in.
use vstd::prelude::*;

verus! {

/// The texts of a [`DeviceError`].
pub struct ErrorText {
    /// What failed.
    pub message: Seq<char>,
    /// What the layer below said, where there is one.
    pub cause: Option<Seq<char>>,
}

/// An error in words: what failed, and what the layer below said of it.
#[derive(Clone, Debug, PartialEq, Eq)]
pub struct DeviceError {
    pub message: String,
    pub cause: Option<String>,
}

impl View for DeviceError {
    type V = ErrorText;

    open spec fn view(&self) -> ErrorText {
        ErrorText {
            message: self.message@,
            cause: match self.cause {
                Some(cause) => Some(cause@),
                None => None,
            },
        }
    }
}

/// The error of which nothing is known but `message`.
pub open spec fn plain_error(message: Seq<char>) -> ErrorText {
    ErrorText { message, cause: None }
}

impl ErrorText {
    /// The message, followed by the cause where there is one.
    pub open spec fn full(self) -> Seq<char> {
        match self.cause {
            Some(cause) => self.message + ": "@ + cause,
            None => self.message,
        }
    }
}

impl DeviceError {
    /// An error without a cause.
    pub fn new(message: String) -> (e: DeviceError)
        ensures
            e@ == plain_error(message@),
    {
        DeviceError { message, cause: None }
    }

    /// An error without a cause, in fixed words.
    pub fn from_words(message: &str) -> (e: DeviceError)
        ensures
            e@ == plain_error(message@),
    {
        DeviceError { message: message.to_owned(), cause: None }
    }

    /// An error that a layer below gave the reason for.
    pub fn with_cause(message: String, cause: String) -> (e: DeviceError)
        ensures
            e@ == (ErrorText { message: message@, cause: Some(cause@) }),
    {
        DeviceError { message, cause: Some(cause) }
    }

    /// What failed, in words.
    pub fn text(&self) -> (s: String)
        ensures
            s@ == self@.message,
    {
        self.message.clone()
    }

    /// What failed, followed by what the layer below said of it.
    pub fn full_text(&self) -> (s: String)
        ensures
            s@ == self@.full(),
    {
        let mut s = self.message.clone();
        if let Some(cause) = &self.cause {
            s.append(": ");
            s.append(cause.as_str());
        }
        s
    }
}

} // verus!
