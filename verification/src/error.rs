//! The ways in which an invocation ends without an answer.

use vstd::prelude::*;

verus! {

/// Why an invocation was aborted. Every error ends the invocation at once:
/// nothing is retried and nothing is printed in place of the answer.
#[derive(Debug, Clone, Copy, PartialEq, Eq, Structural)]
pub enum AskError {
    /// The API key was given neither on the command line nor in the environment.
    Configuration,
    /// The request could not be delivered, or no response came back in time.
    Transport,
    /// The response body is not JSON, or lacks `choices[0].message.content` as a string.
    ResponseFormat,
}

impl AskError {
    /// The process exit status that stands for this error.
    pub open spec fn exit_status(self) -> int {
        match self {
            AskError::Configuration => 2,
            AskError::Transport => 3,
            AskError::ResponseFormat => 4,
        }
    }

    /// One line that tells a user what went wrong.
    pub open spec fn description(self) -> Seq<char> {
        match self {
            AskError::Configuration => "configuration error: no API key was given"@,
            AskError::Transport => "transport error: the request could not be completed"@,
            AskError::ResponseFormat => "response format error: no reply text in the response"@,
        }
    }

    /// The exit status of a process that ends with this error: never zero, and
    /// a different one for each kind.
    pub fn exit_code(self) -> (code: u8)
        ensures
            code as int == self.exit_status(),
            code != 0,
    {
        match self {
            AskError::Configuration => 2,
            AskError::Transport => 3,
            AskError::ResponseFormat => 4,
        }
    }

    /// The text of [`AskError::description`], for printing.
    pub fn message(self) -> (text: String)
        ensures
            text@ == self.description(),
    {
        match self {
            AskError::Configuration => "configuration error: no API key was given".to_string(),
            AskError::Transport => "transport error: the request could not be completed".to_string(),
            AskError::ResponseFormat => "response format error: no reply text in the response".to_string(),
        }
    }
}

} // verus!
