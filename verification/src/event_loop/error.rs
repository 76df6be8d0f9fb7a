use vstd::prelude::*;
use vstd::string::StringExecFns;
use crate::error::{labelled, Cause};
use crate::outside::{
    curl_error_debug, curl_error_debug_shape, io_error_debug, multi_error_debug,
    multi_error_debug_shape,
};

verus! {

/// Errors that stop an event loop.
#[derive(Debug)]
#[allow(inconsistent_fields)]
pub enum EventLoopError {
    PollInit { error: std::io::Error },
    PollRegister { error: std::io::Error },
    PollReRegister { error: std::io::Error },
    PollPooling { error: std::io::Error },
    UnableAddToken,
    UnableRemoveToken,
    CurlMultiInitSocket { error: curl::MultiError },
    CurlMultiInitTimeout { error: curl::MultiError },
    CurlMultiAssign { error: curl::MultiError },
    CurlMultiAction { error: curl::MultiError },
    CurlMultiAdd { error: curl::MultiError },
    CurlMultiRemove { error: curl::MultiError },
    CurlSetToken { error: curl::Error },
    CurlMultiPeroform { error: curl::MultiError },
    SendResultError,
}

impl EventLoopError {
    /// The name of the kind of error.
    pub open spec fn label(&self) -> Seq<char> {
        match self {
            EventLoopError::PollInit { .. } => "PollInit"@,
            EventLoopError::PollRegister { .. } => "PollRegister"@,
            EventLoopError::PollReRegister { .. } => "PollReRegister"@,
            EventLoopError::PollPooling { .. } => "PollPooling"@,
            EventLoopError::UnableAddToken => "UnableAddToken"@,
            EventLoopError::UnableRemoveToken => "UnableRemoveToken"@,
            EventLoopError::CurlMultiInitSocket { .. } => "CurlMultiInitSocket"@,
            EventLoopError::CurlMultiInitTimeout { .. } => "CurlMultiInitTimeout"@,
            EventLoopError::CurlMultiAssign { .. } => "CurlMultiAssign"@,
            EventLoopError::CurlMultiAction { .. } => "CurlMultiAction"@,
            EventLoopError::CurlMultiAdd { .. } => "CurlMultiAdd"@,
            EventLoopError::CurlMultiRemove { .. } => "CurlMultiRemove"@,
            EventLoopError::CurlSetToken { .. } => "CurlSetToken"@,
            EventLoopError::CurlMultiPeroform { .. } => "CurlMultiPeroform"@,
            EventLoopError::SendResultError => "SendResultError"@,
        }
    }

    /// Whether the error holds the error of an outside call.
    pub open spec fn holds_error(&self) -> bool {
        match self {
            EventLoopError::PollInit { .. } => true,
            EventLoopError::PollRegister { .. } => true,
            EventLoopError::PollReRegister { .. } => true,
            EventLoopError::PollPooling { .. } => true,
            EventLoopError::UnableAddToken => false,
            EventLoopError::UnableRemoveToken => false,
            EventLoopError::CurlMultiInitSocket { .. } => true,
            EventLoopError::CurlMultiInitTimeout { .. } => true,
            EventLoopError::CurlMultiAssign { .. } => true,
            EventLoopError::CurlMultiAction { .. } => true,
            EventLoopError::CurlMultiAdd { .. } => true,
            EventLoopError::CurlMultiRemove { .. } => true,
            EventLoopError::CurlSetToken { .. } => true,
            EventLoopError::CurlMultiPeroform { .. } => true,
            EventLoopError::SendResultError => false,
        }
    }

    /// Whether the error holds an error of curl's multi interface.
    pub open spec fn holds_multi_error(&self) -> bool {
        match self {
            EventLoopError::CurlMultiInitSocket { .. } => true,
            EventLoopError::CurlMultiInitTimeout { .. } => true,
            EventLoopError::CurlMultiAssign { .. } => true,
            EventLoopError::CurlMultiAction { .. } => true,
            EventLoopError::CurlMultiAdd { .. } => true,
            EventLoopError::CurlMultiRemove { .. } => true,
            EventLoopError::CurlMultiPeroform { .. } => true,
            _ => false,
        }
    }

    /// The text that the `Debug` form of this error shows, given the `Debug`
    /// text of the error it holds.
    pub open spec fn debug_text(&self, detail: Seq<char>) -> Seq<char> {
        if self.holds_error() {
            self.label() + ": "@ + detail
        } else {
            self.label()
        }
    }

    /// The name of the kind of error.
    pub fn description(&self) -> (r: &'static str)
        ensures
            r@ == self.label(),
    {
        match self {
            EventLoopError::PollInit { .. } => "PollInit",
            EventLoopError::PollRegister { .. } => "PollRegister",
            EventLoopError::PollReRegister { .. } => "PollReRegister",
            EventLoopError::PollPooling { .. } => "PollPooling",
            EventLoopError::UnableAddToken => "UnableAddToken",
            EventLoopError::UnableRemoveToken => "UnableRemoveToken",
            EventLoopError::CurlMultiInitSocket { .. } => "CurlMultiInitSocket",
            EventLoopError::CurlMultiInitTimeout { .. } => "CurlMultiInitTimeout",
            EventLoopError::CurlMultiAssign { .. } => "CurlMultiAssign",
            EventLoopError::CurlMultiAction { .. } => "CurlMultiAction",
            EventLoopError::CurlMultiAdd { .. } => "CurlMultiAdd",
            EventLoopError::CurlMultiRemove { .. } => "CurlMultiRemove",
            EventLoopError::CurlSetToken { .. } => "CurlSetToken",
            EventLoopError::CurlMultiPeroform { .. } => "CurlMultiPeroform",
            EventLoopError::SendResultError => "SendResultError",
        }
    }

    /// The `Debug` form of this error, with `detail` in place of the `Debug`
    /// text of the error it holds.
    pub fn debug_message_with(&self, detail: &str) -> (text: String)
        ensures
            text@ == self.debug_text(detail@),
    {
        let label = self.description();
        match self {
            EventLoopError::PollInit { .. } => labelled(label, detail),
            EventLoopError::PollRegister { .. } => labelled(label, detail),
            EventLoopError::PollReRegister { .. } => labelled(label, detail),
            EventLoopError::PollPooling { .. } => labelled(label, detail),
            EventLoopError::CurlMultiInitSocket { .. } => labelled(label, detail),
            EventLoopError::CurlMultiInitTimeout { .. } => labelled(label, detail),
            EventLoopError::CurlMultiAssign { .. } => labelled(label, detail),
            EventLoopError::CurlMultiAction { .. } => labelled(label, detail),
            EventLoopError::CurlMultiAdd { .. } => labelled(label, detail),
            EventLoopError::CurlMultiRemove { .. } => labelled(label, detail),
            EventLoopError::CurlSetToken { .. } => labelled(label, detail),
            EventLoopError::CurlMultiPeroform { .. } => labelled(label, detail),
            _ => label.to_owned(),
        }
    }

    /// The `Debug` form of this error: its name, then, where it holds the
    /// error of an outside call, a colon and the `Debug` text of that error.
    pub fn debug_message(&self) -> (text: String)
        ensures
            exists|detail: Seq<char>|
                #![trigger self.debug_text(detail)]
                text@ == self.debug_text(detail) && (self is CurlSetToken ==> curl_error_debug_shape(
                    detail,
                )) && (self.holds_multi_error() ==> multi_error_debug_shape(detail)),
            !self.holds_error() ==> text@ == self.label(),
    {
        let detail = match self {
            EventLoopError::PollInit { error } => io_error_debug(error),
            EventLoopError::PollRegister { error } => io_error_debug(error),
            EventLoopError::PollReRegister { error } => io_error_debug(error),
            EventLoopError::PollPooling { error } => io_error_debug(error),
            EventLoopError::CurlMultiInitSocket { error } => multi_error_debug(error),
            EventLoopError::CurlMultiInitTimeout { error } => multi_error_debug(error),
            EventLoopError::CurlMultiAssign { error } => multi_error_debug(error),
            EventLoopError::CurlMultiAction { error } => multi_error_debug(error),
            EventLoopError::CurlMultiAdd { error } => multi_error_debug(error),
            EventLoopError::CurlMultiRemove { error } => multi_error_debug(error),
            EventLoopError::CurlSetToken { error } => curl_error_debug(error),
            EventLoopError::CurlMultiPeroform { error } => multi_error_debug(error),
            _ => String::new(),
        };
        let text = self.debug_message_with(detail.as_str());
        assert(text@ == self.debug_text(detail@));
        text
    }

    /// The error of the outside call that caused this one, if any.
    pub fn cause(&self) -> (r: Option<Cause<'_>>)
        ensures
            r == match self {
                EventLoopError::PollInit { error } => Some(Cause::Io(error)),
                EventLoopError::PollRegister { error } => Some(Cause::Io(error)),
                EventLoopError::PollReRegister { error } => Some(Cause::Io(error)),
                EventLoopError::PollPooling { error } => Some(Cause::Io(error)),
                EventLoopError::CurlMultiInitSocket { error } => Some(Cause::Multi(error)),
                EventLoopError::CurlMultiInitTimeout { error } => Some(Cause::Multi(error)),
                EventLoopError::CurlMultiAssign { error } => Some(Cause::Multi(error)),
                EventLoopError::CurlMultiAction { error } => Some(Cause::Multi(error)),
                EventLoopError::CurlMultiAdd { error } => Some(Cause::Multi(error)),
                EventLoopError::CurlMultiRemove { error } => Some(Cause::Multi(error)),
                EventLoopError::CurlSetToken { error } => Some(Cause::Curl(error)),
                EventLoopError::CurlMultiPeroform { error } => Some(Cause::Multi(error)),
                _ => None::<Cause<'_>>,
            },
    {
        match self {
            EventLoopError::PollInit { error } => Some(Cause::Io(error)),
            EventLoopError::PollRegister { error } => Some(Cause::Io(error)),
            EventLoopError::PollReRegister { error } => Some(Cause::Io(error)),
            EventLoopError::PollPooling { error } => Some(Cause::Io(error)),
            EventLoopError::CurlMultiInitSocket { error } => Some(Cause::Multi(error)),
            EventLoopError::CurlMultiInitTimeout { error } => Some(Cause::Multi(error)),
            EventLoopError::CurlMultiAssign { error } => Some(Cause::Multi(error)),
            EventLoopError::CurlMultiAction { error } => Some(Cause::Multi(error)),
            EventLoopError::CurlMultiAdd { error } => Some(Cause::Multi(error)),
            EventLoopError::CurlMultiRemove { error } => Some(Cause::Multi(error)),
            EventLoopError::CurlSetToken { error } => Some(Cause::Curl(error)),
            EventLoopError::CurlMultiPeroform { error } => Some(Cause::Multi(error)),
            _ => None,
        }
    }
}

/// The `Debug` text of an error starts with its description.
pub proof fn law_debug_text_starts_with_description(error: EventLoopError, detail: Seq<char>)
    ensures
        error.debug_text(detail).take(error.label().len() as int) == error.label(),
{
    assert((error.label() + ": "@ + detail).take(error.label().len() as int) =~= error.label());
    assert(error.label().take(error.label().len() as int) =~= error.label());
}

/// Each error is named after its variant; the `Debug` text of an error that
/// holds the error of an outside call is its name, a colon and a space, and
/// the detail; of any other error, its name alone.
pub proof fn law_event_loop_error_text(error: EventLoopError, detail: Seq<char>)
    ensures
        match error {
            EventLoopError::PollInit { .. } => error.label() == "PollInit"@ && error.holds_error() == true && error.holds_multi_error() == false,
            EventLoopError::PollRegister { .. } => error.label() == "PollRegister"@ && error.holds_error() == true && error.holds_multi_error() == false,
            EventLoopError::PollReRegister { .. } => error.label() == "PollReRegister"@ && error.holds_error() == true && error.holds_multi_error() == false,
            EventLoopError::PollPooling { .. } => error.label() == "PollPooling"@ && error.holds_error() == true && error.holds_multi_error() == false,
            EventLoopError::UnableAddToken => error.label() == "UnableAddToken"@ && error.holds_error() == false && error.holds_multi_error() == false,
            EventLoopError::UnableRemoveToken => error.label() == "UnableRemoveToken"@ && error.holds_error() == false && error.holds_multi_error() == false,
            EventLoopError::CurlMultiInitSocket { .. } => error.label() == "CurlMultiInitSocket"@ && error.holds_error() == true && error.holds_multi_error() == true,
            EventLoopError::CurlMultiInitTimeout { .. } => error.label() == "CurlMultiInitTimeout"@ && error.holds_error() == true && error.holds_multi_error() == true,
            EventLoopError::CurlMultiAssign { .. } => error.label() == "CurlMultiAssign"@ && error.holds_error() == true && error.holds_multi_error() == true,
            EventLoopError::CurlMultiAction { .. } => error.label() == "CurlMultiAction"@ && error.holds_error() == true && error.holds_multi_error() == true,
            EventLoopError::CurlMultiAdd { .. } => error.label() == "CurlMultiAdd"@ && error.holds_error() == true && error.holds_multi_error() == true,
            EventLoopError::CurlMultiRemove { .. } => error.label() == "CurlMultiRemove"@ && error.holds_error() == true && error.holds_multi_error() == true,
            EventLoopError::CurlSetToken { .. } => error.label() == "CurlSetToken"@ && error.holds_error() == true && error.holds_multi_error() == false,
            EventLoopError::CurlMultiPeroform { .. } => error.label() == "CurlMultiPeroform"@ && error.holds_error() == true && error.holds_multi_error() == true,
            EventLoopError::SendResultError => error.label() == "SendResultError"@ && error.holds_error() == false && error.holds_multi_error() == false,
        },
        error.holds_error() ==> error.debug_text(detail) == error.label() + ": "@ + detail,
        !error.holds_error() ==> error.debug_text(detail) == error.label(),
{
}

} // verus!
