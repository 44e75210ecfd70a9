//! The failure handler of a thread and the rules on what it may be.

use crate::outcome;
use crate::text;
use crate::text::byte_len;
use crate::trim;
use vstd::prelude::*;
use vstd::string::*;

verus! {

/// How often a handler may continue a turn where the user does not say.
pub const DEFAULT_MAX_CONTINUATIONS: u32 = 1;

/// The most often that a handler may be set to continue a turn.
pub const MAX_CONTINUATIONS: u32 = 8;

/// The most bytes that the instructions of a handler take.
pub const MAX_INSTRUCTIONS_BYTES: usize = 6 * 1024;

/// A thread's persisted user-authored turn failure policy.
#[derive(Debug, PartialEq, Eq)]
pub struct TurnFailureHandler {
    /// Prose to supply to the continuation after a failed model request.
    pub instructions: String,
    /// Maximum continuation attempts in one logical turn.
    pub max_continuations: u32,
}

/// What a [`TurnFailureHandler`] says.
pub struct TurnFailureHandlerView {
    /// The user's prose.
    pub instructions: Seq<char>,
    /// The most continuation attempts in one logical turn.
    pub max_continuations: u32,
}

impl View for TurnFailureHandler {
    type V = TurnFailureHandlerView;

    open spec fn view(&self) -> TurnFailureHandlerView {
        TurnFailureHandlerView {
            instructions: self.instructions@,
            max_continuations: self.max_continuations,
        }
    }
}

impl Clone for TurnFailureHandler {
    fn clone(&self) -> (copy: Self)
        ensures
            copy == *self,
    {
        TurnFailureHandler {
            instructions: self.instructions.clone(),
            max_continuations: self.max_continuations,
        }
    }
}

/// An error of a tool call.
#[derive(Debug, PartialEq, Eq)]
pub enum FunctionCallError {
    /// The text is handed to the model as the call's outcome.
    RespondToModel(String),
}

impl View for FunctionCallError {
    type V = Seq<char>;

    /// The text that the model gets.
    open spec fn view(&self) -> Seq<char> {
        match self {
            FunctionCallError::RespondToModel(text) => text@,
        }
    }
}

/// What the user asks a handler to be.
#[derive(Debug, PartialEq, Eq)]
pub struct SetHandlerArgs {
    /// The user's prose.
    pub instructions: String,
    /// How often the handler may continue a turn, where the user says so.
    pub max_continuations: Option<u32>,
}

/// Whether a handler keeps to the rules on handlers.
pub open spec fn valid_handler(handler: TurnFailureHandlerView) -> bool {
    &&& handler.instructions.len() > 0
    &&& handler.instructions == trim::trimmed(handler.instructions)
    &&& text::utf8_len(handler.instructions) <= MAX_INSTRUCTIONS_BYTES
    &&& 1 <= handler.max_continuations <= MAX_CONTINUATIONS
}

/// The handler that the user asks for, or what is wrong with it: the first that applies of empty
/// instructions, instructions that are too long and a number of continuations out of range.
pub open spec fn requested_handler(
    instructions: Seq<char>,
    max_continuations: Option<u32>,
) -> Result<TurnFailureHandlerView, Seq<char>> {
    let kept = trim::trimmed(instructions);
    let continuations = match max_continuations {
        Some(continuations) => continuations,
        None => DEFAULT_MAX_CONTINUATIONS,
    };
    if kept.len() == 0 {
        Err("instructions must not be empty"@)
    } else if text::utf8_len(kept) > MAX_INSTRUCTIONS_BYTES {
        Err("instructions must be at most 6144 bytes"@)
    } else if !(1 <= continuations <= MAX_CONTINUATIONS) {
        Err("max_continuations must be between 1 and 8"@)
    } else {
        Ok(TurnFailureHandlerView { instructions: kept, max_continuations: continuations })
    }
}

impl SetHandlerArgs {
    /// Makes the handler that the user asks for, where the rules allow it.
    pub fn into_handler(self) -> (handler: Result<TurnFailureHandler, FunctionCallError>)
        ensures
            outcome::viewed(handler) == requested_handler(
                self.instructions@,
                self.max_continuations,
            ),
            handler matches Ok(handler) ==> {
                &&& handler.instructions@ == trim::trimmed(self.instructions@)
                &&& self.max_continuations is None ==> handler.max_continuations == 1
                &&& self.max_continuations matches Some(most) ==> handler.max_continuations == most
                &&& 1 <= handler.max_continuations <= 8
                &&& vstd::utf8::encode_utf8(handler.instructions@).len() <= 6144
            },
    {
        let instructions = trim::trim(self.instructions.as_str());
        if instructions.as_str().is_empty() {
            return Err(
                FunctionCallError::RespondToModel("instructions must not be empty".to_owned()),
            );
        }
        if byte_len(instructions.as_str()) > MAX_INSTRUCTIONS_BYTES {
            return Err(
                FunctionCallError::RespondToModel(
                    "instructions must be at most 6144 bytes".to_owned(),
                ),
            );
        }
        let max_continuations: u32 = match self.max_continuations {
            Some(max_continuations) => max_continuations,
            None => DEFAULT_MAX_CONTINUATIONS,
        };
        if max_continuations < 1 || max_continuations > MAX_CONTINUATIONS {
            return Err(
                FunctionCallError::RespondToModel(
                    "max_continuations must be between 1 and 8".to_owned(),
                ),
            );
        }
        Ok(TurnFailureHandler { instructions, max_continuations })
    }
}

/// A handler as a tool reports it.
#[derive(Debug, PartialEq, Eq)]
pub struct TurnFailureHandlerResponse {
    /// The user's prose.
    pub instructions: String,
    /// The most continuation attempts in one logical turn.
    pub max_continuations: u32,
}

impl View for TurnFailureHandlerResponse {
    type V = TurnFailureHandlerView;

    open spec fn view(&self) -> TurnFailureHandlerView {
        TurnFailureHandlerView {
            instructions: self.instructions@,
            max_continuations: self.max_continuations,
        }
    }
}

impl From<TurnFailureHandler> for TurnFailureHandlerResponse {
    fn from(handler: TurnFailureHandler) -> (response: Self) {
        TurnFailureHandlerResponse {
            instructions: handler.instructions,
            max_continuations: handler.max_continuations,
        }
    }
}

impl vstd::std_specs::convert::FromSpecImpl<TurnFailureHandler> for TurnFailureHandlerResponse {
    open spec fn obeys_from_spec() -> bool {
        true
    }

    open spec fn from_spec(handler: TurnFailureHandler) -> Self {
        TurnFailureHandlerResponse {
            instructions: handler.instructions,
            max_continuations: handler.max_continuations,
        }
    }
}

/// What a tool reports.
#[derive(Debug, PartialEq, Eq)]
pub struct HandlerResponse {
    /// The handler, where there is one to report.
    pub handler: Option<TurnFailureHandlerResponse>,
    /// Whether a handler was cleared, where the tool clears.
    pub cleared: Option<bool>,
}

/// What a [`HandlerResponse`] says.
pub struct HandlerResponseView {
    /// The handler, where there is one to report.
    pub handler: Option<TurnFailureHandlerView>,
    /// Whether a handler was cleared, where the tool clears.
    pub cleared: Option<bool>,
}

impl View for HandlerResponse {
    type V = HandlerResponseView;

    open spec fn view(&self) -> HandlerResponseView {
        HandlerResponseView {
            handler: outcome::viewed_option(self.handler),
            cleared: self.cleared,
        }
    }
}

/// Every handler that the rules allow keeps to them: its instructions are trimmed, not empty and
/// not too long, and it may continue a turn from once to the most allowed.
pub proof fn lemma_requested_handler_is_valid(
    instructions: Seq<char>,
    max_continuations: Option<u32>,
)
    ensures
        requested_handler(instructions, max_continuations) matches Ok(handler) ==> valid_handler(
            handler,
        ),
{
    trim::lemma_trimmed(instructions);
}

/// Asking for a handler that keeps to the rules gives that handler, unchanged.
pub proof fn lemma_valid_handler_is_kept(handler: TurnFailureHandlerView)
    requires
        valid_handler(handler),
    ensures
        requested_handler(handler.instructions, Some(handler.max_continuations)) == Ok::<
            TurnFailureHandlerView,
            Seq<char>,
        >(handler),
{
}

/// Not saying how often a turn may be continued is asking for once.
pub proof fn lemma_default_is_once(instructions: Seq<char>)
    ensures
        requested_handler(instructions, None) == requested_handler(instructions, Some(1)),
        requested_handler(instructions, None) matches Ok(handler) ==> handler.max_continuations
            == 1,
{
}

/// A request is judged by what stands between the white space at the two ends of its
/// instructions, from `from` to `to`. It fails as empty where nothing does, as too long where that
/// takes more than 6144 bytes, and then for a number that is not from one to eight. Otherwise it
/// gives a handler with exactly that prose and exactly that number.
pub proof fn lemma_request_is_judged(instructions: Seq<char>, most: u32, from: int, to: int)
    requires
        0 <= from <= to <= instructions.len(),
        forall|i: int|
            0 <= i < instructions.len() && !(from <= i < to) ==> trim::is_white_space(
                #[trigger] instructions[i],
            ),
        from < to ==> !trim::is_white_space(instructions[from]) && !trim::is_white_space(
            instructions[to - 1],
        ),
    ensures
        ({
            let prose = instructions.subrange(from, to);
            let bytes = vstd::utf8::encode_utf8(prose).len();
            let request = requested_handler(instructions, Some(most));
            &&& request is Ok <==> from < to && bytes <= 6144 && 1 <= most <= 8
            &&& request matches Ok(handler) ==> handler.instructions == prose
                && handler.max_continuations == most
            &&& from == to ==> request == Err::<TurnFailureHandlerView, Seq<char>>(
                "instructions must not be empty"@,
            )
            &&& from < to && bytes > 6144 ==> request == Err::<TurnFailureHandlerView, Seq<char>>(
                "instructions must be at most 6144 bytes"@,
            )
            &&& from < to && bytes <= 6144 && !(1 <= most <= 8) ==> request == Err::<
                TurnFailureHandlerView,
                Seq<char>,
            >("max_continuations must be between 1 and 8"@)
        }),
{
    trim::lemma_trimmed_is_what_stands_between(instructions, from, to);
}

/// White space before and after the instructions makes no difference to a request.
pub proof fn lemma_outer_white_space_makes_no_difference(
    before: Seq<char>,
    instructions: Seq<char>,
    after: Seq<char>,
    max_continuations: Option<u32>,
)
    requires
        forall|i: int| 0 <= i < before.len() ==> trim::is_white_space(#[trigger] before[i]),
        forall|i: int| 0 <= i < after.len() ==> trim::is_white_space(#[trigger] after[i]),
    ensures
        requested_handler(before + instructions + after, max_continuations) == requested_handler(
            instructions,
            max_continuations,
        ),
{
    let whole = before + instructions + after;
    trim::lemma_trimmed(instructions);
    let (first, last) = choose|first: int, last: int|
        0 <= first <= last <= instructions.len() && trim::trimmed(instructions)
            == #[trigger] instructions.subrange(first, last) && (forall|i: int|
            0 <= i < instructions.len() && !(first <= i < last) ==> trim::is_white_space(
                #[trigger] instructions[i],
            ));
    let kept = trim::trimmed(instructions);
    let from = before.len() + first;
    let to = before.len() + last;
    assert(whole.subrange(from, to) =~= kept);
    if from < to {
        assert(whole[from] == kept.first());
        assert(whole[to - 1] == kept.last());
    }
    assert forall|i: int| 0 <= i < whole.len() && !(from <= i < to) implies trim::is_white_space(
        #[trigger] whole[i],
    ) by {
        if i < before.len() {
            assert(whole[i] == before[i]);
        } else if i < before.len() + instructions.len() {
            assert(whole[i] == instructions[i - before.len()]);
        } else {
            assert(whole[i] == after[i - before.len() - instructions.len()]);
        }
    }
    trim::lemma_trimmed_is_what_stands_between(whole, from, to);
}

/// A tool reports a handler as it is.
pub proof fn lemma_response_is_the_handler(handler: TurnFailureHandler)
    ensures
        ({
            let response = <TurnFailureHandlerResponse as vstd::std_specs::convert::FromSpec<
                TurnFailureHandler,
            >>::from_spec(handler);
            &&& response.instructions == handler.instructions
            &&& response.max_continuations == handler.max_continuations
        }),
{
}

} // verus!
