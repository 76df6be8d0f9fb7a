use vstd::prelude::*;
use vstd::string::StringExecFns;
use crate::outside::{curl_error_debug, curl_error_debug_shape, io_error_debug};

verus! {

/// Joins a label and a detail as `label: detail`.
pub(crate) fn labelled(label: &str, detail: &str) -> (text: String)
    ensures
        text@ == label@ + ": "@ + detail@,
{
    let mut text = label.to_owned();
    text.append(": ");
    text.append(detail);
    text
}

/// Errors during starting download manager or processing request.
#[derive(Debug)]
#[allow(inconsistent_fields)]
pub enum TaskError<E> {
    /// IO Error
    IOError { error: std::io::Error },
    /// Curl error - configuring or processing request.
    Curl { error: curl::Error },
    /// User defined error while Initializing
    Initialize { error: E },
}

/// The error that lies under another one.
pub enum Cause<'a> {
    Io(&'a std::io::Error),
    Curl(&'a curl::Error),
    Multi(&'a curl::MultiError),
}

impl<E> TaskError<E> {
    /// The name of the kind of error.
    pub open spec fn label(&self) -> Seq<char> {
        match self {
            TaskError::IOError { .. } => "IOError"@,
            TaskError::Curl { .. } => "Curl error"@,
            TaskError::Initialize { .. } => "Initialize error"@,
        }
    }

    /// Short name of the kind of error.
    pub fn description(&self) -> (r: &'static str)
        ensures
            r@ == self.label(),
    {
        match self {
            TaskError::IOError { .. } => "IOError",
            TaskError::Curl { .. } => "Curl error",
            TaskError::Initialize { .. } => "Initialize error",
        }
    }

    /// The text that the `Debug` form of this error shows, given the `Debug`
    /// text of the error it holds.
    pub open spec fn debug_text(&self, detail: Seq<char>) -> Seq<char> {
        match self {
            TaskError::Initialize { .. } => self.label(),
            _ => self.label() + ": "@ + detail,
        }
    }

    /// The `Debug` form of this error, with `detail` in place of the `Debug`
    /// text of the error it holds.
    pub fn debug_message_with(&self, detail: &str) -> (text: String)
        ensures
            text@ == self.debug_text(detail@),
    {
        let label = self.description();
        match self {
            TaskError::Initialize { .. } => label.to_owned(),
            _ => labelled(label, detail),
        }
    }

    /// The `Debug` form of this error: its kind, then, for an I/O or curl
    /// error, a colon and the `Debug` text of that error.
    pub fn debug_message(&self) -> (text: String)
        ensures
            exists|detail: Seq<char>|
                #![trigger self.debug_text(detail)]
                text@ == self.debug_text(detail) && (self is Curl ==> curl_error_debug_shape(
                    detail,
                )),
            self is Initialize ==> text@ == self.label(),
    {
        let detail = match self {
            TaskError::IOError { error } => io_error_debug(error),
            TaskError::Curl { error } => curl_error_debug(error),
            TaskError::Initialize { .. } => String::new(),
        };
        let text = self.debug_message_with(detail.as_str());
        assert(text@ == self.debug_text(detail@));
        text
    }

    /// The error that caused this one: the I/O or curl error it holds, none
    /// for an error of the user's configurator.
    pub fn cause(&self) -> (r: Option<Cause<'_>>)
        ensures
            r == match self {
                TaskError::IOError { error } => Some(Cause::Io(error)),
                TaskError::Curl { error } => Some(Cause::Curl(error)),
                TaskError::Initialize { .. } => None::<Cause<'_>>,
            },
    {
        match self {
            TaskError::IOError { error } => Some(Cause::Io(error)),
            TaskError::Curl { error } => Some(Cause::Curl(error)),
            TaskError::Initialize { .. } => None,
        }
    }
}


impl<E> From<std::io::Error> for TaskError<E> {
    fn from(error: std::io::Error) -> (r: Self) {
        TaskError::IOError { error }
    }
}

impl<E> vstd::std_specs::convert::FromSpecImpl<std::io::Error> for TaskError<E> {
    open spec fn obeys_from_spec() -> bool {
        true
    }

    open spec fn from_spec(error: std::io::Error) -> Self {
        TaskError::IOError { error }
    }
}

impl<E> From<curl::Error> for TaskError<E> {
    fn from(error: curl::Error) -> (r: Self) {
        TaskError::Curl { error }
    }
}

impl<E> vstd::std_specs::convert::FromSpecImpl<curl::Error> for TaskError<E> {
    open spec fn obeys_from_spec() -> bool {
        true
    }

    open spec fn from_spec(error: curl::Error) -> Self {
        TaskError::Curl { error }
    }
}

/// The `Debug` text of an error starts with its description.
pub proof fn law_debug_text_starts_with_description<E>(error: TaskError<E>, detail: Seq<char>)
    ensures
        error.debug_text(detail).take(error.label().len() as int) == error.label(),
{
    assert((error.label() + ": "@ + detail).take(error.label().len() as int) =~= error.label());
    assert(error.label().take(error.label().len() as int) =~= error.label());
}

/// Each error is named after its kind; the `Debug` text of an I/O or curl
/// error is its name, a colon and a space, and the detail; of a
/// configurator's error, its name alone.
pub proof fn law_task_error_text<E>(error: TaskError<E>, detail: Seq<char>)
    ensures
        match error {
            TaskError::IOError { .. } => error.label() == "IOError"@ && error.debug_text(detail)
                == "IOError"@ + ": "@ + detail,
            TaskError::Curl { .. } => error.label() == "Curl error"@ && error.debug_text(detail)
                == "Curl error"@ + ": "@ + detail,
            TaskError::Initialize { .. } => error.label() == "Initialize error"@
                && error.debug_text(detail) == "Initialize error"@,
        },
{
}

} // verus!
