//! What can go wrong in a call.

use crate::text::{decimal, decimal_text, joined};
use vstd::prelude::*;

verus! {

broadcast use vstd::string::group_string_axioms;

/// Why a call failed.
#[derive(Debug)]
pub enum GatewayError {
    /// The control plane could not be reached, or answered with a failure.
    ControlPlane(String),
    /// The caller asked for something that makes no sense.
    Invalid(String),
    /// The task had not finished when its time was up.
    TaskTimeout { seconds: u64 },
    /// The task finished without success.
    TaskFailed(String),
    /// The call is not offered.
    Unsupported(&'static str),
    /// Reading or writing failed; the text is that of the system's error.
    Io(String),
}

/// The outcome of a call.
pub type GatewayResult<T> = Result<T, GatewayError>;

/// What an error says.
pub enum ErrorView {
    ControlPlane(Seq<char>),
    Invalid(Seq<char>),
    TaskTimeout { seconds: u64 },
    TaskFailed(Seq<char>),
    Unsupported(Seq<char>),
    Io(Seq<char>),
}

impl View for GatewayError {
    type V = ErrorView;

    open spec fn view(&self) -> ErrorView {
        match self {
            GatewayError::ControlPlane(message) => ErrorView::ControlPlane(message@),
            GatewayError::Invalid(message) => ErrorView::Invalid(message@),
            GatewayError::TaskTimeout { seconds } => ErrorView::TaskTimeout { seconds: *seconds },
            GatewayError::TaskFailed(message) => ErrorView::TaskFailed(message@),
            GatewayError::Unsupported(feature) => ErrorView::Unsupported(feature@),
            GatewayError::Io(message) => ErrorView::Io(message@),
        }
    }
}

/// What the outcome of a call holds.
pub open spec fn outcome<T: View>(result: GatewayResult<T>) -> Result<T::V, ErrorView> {
    match result {
        Ok(value) => Ok(value@),
        Err(error) => Err(error@),
    }
}

/// What the outcome of a call holds, where there is one.
pub open spec fn outcome_if_any<T: View>(result: Option<GatewayResult<T>>) -> Option<
    Result<T::V, ErrorView>,
> {
    match result {
        Some(result) => Some(outcome(result)),
        None => None,
    }
}

impl ErrorView {
    /// The error in words.
    pub open spec fn message(self) -> Seq<char> {
        match self {
            ErrorView::ControlPlane(message) => "control-plane HTTP error: "@ + message,
            ErrorView::Invalid(message) => "invalid input: "@ + message,
            ErrorView::TaskTimeout { seconds } => "task timeout after "@ + decimal(seconds as nat)
                + "s"@,
            ErrorView::TaskFailed(message) => "task failed: "@ + message,
            ErrorView::Unsupported(feature) => "unsupported feature: "@ + feature,
            ErrorView::Io(message) => "io error: "@ + message,
        }
    }
}

impl GatewayError {
    /// The error of a caller who asked for something that makes no sense.
    pub fn invalid(message: &str) -> (error: GatewayError)
        ensures
            error@ == ErrorView::Invalid(message@),
    {
        GatewayError::Invalid(message.to_owned())
    }

    /// The error in words.
    pub fn message(&self) -> (text: String)
        ensures
            text@ == self@.message(),
    {
        match self {
            GatewayError::ControlPlane(message) => joined("control-plane HTTP error: ", message),
            GatewayError::Invalid(message) => joined("invalid input: ", message),
            GatewayError::TaskTimeout { seconds } => {
                joined(&joined("task timeout after ", &decimal_text(*seconds)), "s")
            },
            GatewayError::TaskFailed(message) => joined("task failed: ", message),
            GatewayError::Unsupported(feature) => joined("unsupported feature: ", feature),
            GatewayError::Io(message) => joined("io error: ", message),
        }
    }
}

/// An error says what it was made with, and stays the error it is.
pub proof fn law_errors_say_what_they_hold(text: String, seconds: u64, feature: &'static str)
    ensures
        GatewayError::ControlPlane(text)@ == ErrorView::ControlPlane(text@),
        GatewayError::Invalid(text)@ == ErrorView::Invalid(text@),
        (GatewayError::TaskTimeout { seconds })@ == (ErrorView::TaskTimeout { seconds }),
        GatewayError::TaskFailed(text)@ == ErrorView::TaskFailed(text@),
        GatewayError::Unsupported(feature)@ == ErrorView::Unsupported(feature@),
        GatewayError::Io(text)@ == ErrorView::Io(text@),
{
}

/// The outcome of a call holds its value or its error.
pub proof fn law_outcomes_hold_value_or_error<T: View>(value: T, error: GatewayError)
    ensures
        outcome(Ok::<T, GatewayError>(value)) == Ok::<T::V, ErrorView>(value@),
        outcome(Err::<T, GatewayError>(error)) == Err::<T::V, ErrorView>(error@),
        outcome_if_any(Some(Ok::<T, GatewayError>(value))) == Some(Ok::<T::V, ErrorView>(value@)),
        outcome_if_any(Some(Err::<T, GatewayError>(error))) == Some(
            Err::<T::V, ErrorView>(error@),
        ),
        outcome_if_any(None::<GatewayResult<T>>) is None,
{
}

/// An error in words is the kind of failure and what it holds.
pub proof fn law_errors_in_words(text: Seq<char>, seconds: u64)
    ensures
        ErrorView::ControlPlane(text).message() == "control-plane HTTP error: "@ + text,
        ErrorView::Invalid(text).message() == "invalid input: "@ + text,
        (ErrorView::TaskTimeout { seconds }).message() == "task timeout after "@ + decimal(
            seconds as nat,
        ) + seq!['s'],
        ErrorView::TaskFailed(text).message() == "task failed: "@ + text,
        ErrorView::Unsupported(text).message() == "unsupported feature: "@ + text,
        ErrorView::Io(text).message() == "io error: "@ + text,
{
    reveal_strlit("s");
    assert("s"@ =~= seq!['s']);
}

} // verus!
