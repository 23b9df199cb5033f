//! The conversation with the host.
//!
//! The host shows texts to the operator and collects a line of input through
//! its conversation callback. This module names the four ways a text can be
//! shown and decides what one call of the callback amounts to.

use vstd::prelude::*;
use vstd::string::*;
use crate::text::{decimal, decimal_digits, join};

verus! {

/// How a text is put to the operator.
#[derive(Clone, Copy, Debug, PartialEq, Eq, Structural)]
pub enum PromptMode {
    /// Ask for a line of input and do not echo it.
    HiddenInput,
    /// Ask for a line of input and echo it.
    VisibleInput,
    /// Show a piece of information.
    InfoDisplay,
    /// Show an error message.
    ErrorDisplay,
}

impl PromptMode {
    /// Whether a prompt in this mode collects input from the operator.
    pub open spec fn takes_input(self) -> bool {
        self == PromptMode::HiddenInput || self == PromptMode::VisibleInput
    }

    /// Whether a prompt in this mode collects input from the operator.
    pub fn collects_input(&self) -> (r: bool)
        ensures
            r == self.takes_input(),
    {
        match self {
            PromptMode::HiddenInput => true,
            PromptMode::VisibleInput => true,
            PromptMode::InfoDisplay => false,
            PromptMode::ErrorDisplay => false,
        }
    }
}

/// What one call of the host's conversation callback came to.
#[derive(Clone, Debug, PartialEq, Eq)]
pub enum Conversation {
    /// The host has no callback to call.
    Unavailable,
    /// The callback reported the failure `status`.
    Failed { status: i32 },
    /// The callback reported success. `reply` is `None` where it handed
    /// back no response at all, else the text of the response (empty where
    /// the mode collects no input).
    Returned { reply: Option<String> },
}

/// The mathematical content of a `Conversation`.
pub ghost enum ConversationView {
    Unavailable,
    Failed { status: i32 },
    Returned { reply: Option<Seq<char>> },
}

impl View for Conversation {
    type V = ConversationView;

    open spec fn view(&self) -> ConversationView {
        match self {
            Conversation::Unavailable => ConversationView::Unavailable,
            Conversation::Failed { status } => ConversationView::Failed { status: *status },
            Conversation::Returned { reply } => ConversationView::Returned {
                reply: reply.deep_view(),
            },
        }
    }
}

/// Why a prompt gave no answer.
#[derive(Clone, Copy, Debug, PartialEq, Eq, Structural)]
pub enum PromptError {
    /// The host has no conversation callback.
    Unavailable,
    /// The callback failed with `status`.
    Failed { status: i32 },
    /// The callback reported success and handed back no response.
    NoResponse,
}

/// What a prompt in `mode` yields, given what the callback came to: the
/// operator's input where the mode collects input, the empty text where it
/// does not. A callback that reports success without a response has failed
/// all the same.
pub open spec fn prompt_result(mode: PromptMode, conversation: ConversationView) -> Result<
    Seq<char>,
    PromptError,
> {
    match conversation {
        ConversationView::Unavailable => Err(PromptError::Unavailable),
        ConversationView::Failed { status } => Err(PromptError::Failed { status }),
        ConversationView::Returned { reply } => match reply {
            None => Err(PromptError::NoResponse),
            Some(text) => Ok(
                if mode.takes_input() {
                    text
                } else {
                    Seq::empty()
                },
            ),
        },
    }
}

/// The mathematical content of a prompt's result.
pub open spec fn answer_view(r: Result<String, PromptError>) -> Result<Seq<char>, PromptError> {
    match r {
        Ok(text) => Ok(text@),
        Err(e) => Err(e),
    }
}

/// Decides what a prompt in `mode` yields, given what the host's callback
/// came to.
pub fn prompt_user(mode: PromptMode, conversation: &Conversation) -> (r: Result<
    String,
    PromptError,
>)
    ensures
        answer_view(r) == prompt_result(mode, conversation@),
{
    match conversation {
        Conversation::Unavailable => Err(PromptError::Unavailable),
        Conversation::Failed { status } => Err(PromptError::Failed { status: *status }),
        Conversation::Returned { reply } => match reply {
            None => Err(PromptError::NoResponse),
            Some(text) => {
                if mode.collects_input() {
                    Ok(text.clone())
                } else {
                    Ok(String::new())
                }
            },
        },
    }
}

/// A status in decimal, with a minus sign where it is negative.
pub open spec fn status_digits(status: i32) -> Seq<char> {
    if status < 0 {
        "-"@ + decimal_digits((-(status as int)) as nat)
    } else {
        decimal_digits(status as nat)
    }
}

/// A prompt error in words.
pub open spec fn prompt_error_text(e: PromptError) -> Seq<char> {
    match e {
        PromptError::Unavailable => "no conversation function"@,
        PromptError::Failed { status } => "conversation failed with status "@ + status_digits(
            status,
        ),
        PromptError::NoResponse => "conversation gave no response"@,
    }
}

/// Writes a prompt error in words.
pub fn describe_prompt_error(e: PromptError) -> (r: String)
    ensures
        r@ == prompt_error_text(e),
{
    match e {
        PromptError::Unavailable => String::from_str("no conversation function"),
        PromptError::Failed { status } => {
            let digits = if status < 0 {
                let magnitude: u64 = (-(status as i64)) as u64;
                join("-", decimal(magnitude).as_str())
            } else {
                decimal(status as u64)
            };
            join("conversation failed with status ", digits.as_str())
        },
        PromptError::NoResponse => String::from_str("conversation gave no response"),
    }
}

} // verus!
