//! What the model is told when a turn goes on after a failed request.

use crate::history::ResponseItem;
use crate::summary;
use crate::summary::summarize_tool_activity;
use crate::text;
use crate::text::{decimal_text, truncate_utf8};
use core::slice::Iter;
use vstd::prelude::*;
use vstd::std_specs::iter::IteratorSpec;
use vstd::string::*;

verus! {

/// The most bytes of an error message that are passed on.
pub const MAX_ERROR_MESSAGE_BYTES: usize = 1024;

/// How the host classifies the error of a failed request.
#[derive(Debug, PartialEq, Eq)]
pub enum CodexErrorInfo {
    /// A policy on cyber security stopped the request.
    CyberPolicy,
    /// Any other class, by its debug form.
    Described(String),
}

/// What a [`CodexErrorInfo`] is.
pub enum CodexErrorInfoView {
    /// A policy on cyber security stopped the request.
    CyberPolicy,
    /// Any other class, by its debug form.
    Described(Seq<char>),
}

impl CodexErrorInfoView {
    /// The debug form of the class.
    pub open spec fn debug_form(self) -> Seq<char> {
        match self {
            CodexErrorInfoView::CyberPolicy => "CyberPolicy"@,
            CodexErrorInfoView::Described(text) => text,
        }
    }
}

impl View for CodexErrorInfo {
    type V = CodexErrorInfoView;

    open spec fn view(&self) -> CodexErrorInfoView {
        match self {
            CodexErrorInfo::CyberPolicy => CodexErrorInfoView::CyberPolicy,
            CodexErrorInfo::Described(text) => CodexErrorInfoView::Described(text@),
        }
    }
}

impl Clone for CodexErrorInfo {
    fn clone(&self) -> (copy: Self)
        ensures
            copy == *self,
    {
        match self {
            CodexErrorInfo::CyberPolicy => CodexErrorInfo::CyberPolicy,
            CodexErrorInfo::Described(text) => CodexErrorInfo::Described(text.clone()),
        }
    }
}

impl CodexErrorInfo {
    /// The debug form of the class.
    pub fn debug_text(&self) -> (text: String)
        ensures
            text@ == self@.debug_form(),
            match *self {
                CodexErrorInfo::CyberPolicy => text@ == "CyberPolicy"@,
                CodexErrorInfo::Described(form) => text@ == form@,
            },
    {
        match self {
            CodexErrorInfo::CyberPolicy => "CyberPolicy".to_owned(),
            CodexErrorInfo::Described(text) => text.clone(),
        }
    }
}

/// User-authored instructions selected for going on within the same turn.
#[derive(Debug, PartialEq, Eq)]
pub struct TurnFailureContinuation {
    /// Exact user-authored prose to follow when continuing the turn.
    pub instructions: String,
    /// One-based continuation attempt within this logical turn.
    pub attempt: u32,
    /// Maximum attempts configured for this handler.
    pub max_continuations: u32,
}

impl Clone for TurnFailureContinuation {
    fn clone(&self) -> (copy: Self)
        ensures
            copy == *self,
    {
        TurnFailureContinuation {
            instructions: self.instructions.clone(),
            attempt: self.attempt,
            max_continuations: self.max_continuations,
        }
    }
}

/// The kind of a content item.
#[derive(Debug, PartialEq, Eq)]
pub struct ContentItemKind(pub String);

/// A failed request, ready to be shown to the model.
#[derive(Debug, PartialEq, Eq)]
pub struct TurnFailure {
    error: CodexErrorInfo,
    message: String,
    continuation: TurnFailureContinuation,
    tool_summary: String,
}

impl Clone for TurnFailure {
    fn clone(&self) -> (copy: Self)
        ensures
            copy == *self,
    {
        TurnFailure {
            error: self.error.clone(),
            message: self.message.clone(),
            continuation: self.continuation.clone(),
            tool_summary: self.tool_summary.clone(),
        }
    }
}

/// What a [`TurnFailure`] says.
pub struct TurnFailureView {
    /// The error's class.
    pub error: CodexErrorInfoView,
    /// The error message, cut to its limit.
    pub message: Seq<char>,
    /// The continuation attempt.
    pub attempt: nat,
    /// The most attempts that the handler allows.
    pub max_continuations: nat,
    /// The user's instructions.
    pub instructions: Seq<char>,
    /// What the tools did in the turn.
    pub tool_summary: Seq<char>,
}

impl View for TurnFailure {
    type V = TurnFailureView;

    closed spec fn view(&self) -> TurnFailureView {
        TurnFailureView {
            error: self.error@,
            message: self.message@,
            attempt: self.continuation.attempt as nat,
            max_continuations: self.continuation.max_continuations as nat,
            instructions: self.continuation.instructions@,
            tool_summary: self.tool_summary@,
        }
    }
}

/// The body of the fragment that tells the model of a failure.
pub open spec fn failure_body(failure: TurnFailureView) -> Seq<char> {
    "\nThe preceding model request failed. Continue the same logical turn using the existing thread history, including every prior message and tool item.\nFailure kind: "@
        + failure.error.debug_form() + "\nFailure message: "@ + failure.message + "\nHandler attempt: "@
        + text::decimal(failure.attempt) + " of "@ + text::decimal(failure.max_continuations)
        + "\nCurrent-turn tool activity derived from that history:\n"@ + failure.tool_summary
        + "\nUser-configured failure instructions:\n"@ + failure.instructions + "\n"@
}

impl TurnFailure {
    /// Describes the failure of a request in the turn `turn_id`, from the error and from what the
    /// history holds of the turn.
    pub fn from_history(
        error: CodexErrorInfo,
        message: &str,
        continuation: TurnFailureContinuation,
        turn_id: &str,
        history: Iter<'_, ResponseItem>,
    ) -> (failure: Self)
        ensures
            failure@ == (TurnFailureView {
                error: error@,
                message: text::truncated(message@, MAX_ERROR_MESSAGE_BYTES as nat),
                attempt: continuation.attempt as nat,
                max_continuations: continuation.max_continuations as nat,
                instructions: continuation.instructions@,
                tool_summary: summary::tool_summary(turn_id@, history.remaining().unref()),
            }),
    {
        TurnFailure {
            error,
            message: truncate_utf8(message, MAX_ERROR_MESSAGE_BYTES),
            continuation,
            tool_summary: summarize_tool_activity(turn_id, history),
        }
    }

    /// The kind of content that the fragment is.
    pub fn content_kind(&self) -> (kind: ContentItemKind)
        ensures
            kind.0@ == "generic.turn_failure_handler"@,
    {
        ContentItemKind("generic.turn_failure_handler".to_owned())
    }

    /// The role that the fragment speaks in.
    pub fn role(&self) -> (role: &'static str)
        ensures
            role@ == "user"@,
    {
        "user"
    }

    /// The marks before and after the fragment.
    pub fn markers(&self) -> (markers: (&'static str, &'static str))
        ensures
            markers.0@ == "<turn_failure_handler>"@,
            markers.1@ == "</turn_failure_handler>"@,
    {
        Self::type_markers()
    }

    /// The marks before and after every fragment of this type.
    pub fn type_markers() -> (markers: (&'static str, &'static str))
        ensures
            markers.0@ == "<turn_failure_handler>"@,
            markers.1@ == "</turn_failure_handler>"@,
    {
        ("<turn_failure_handler>", "</turn_failure_handler>")
    }

    /// The text between the marks.
    pub fn body(&self) -> (body: String)
        ensures
            body@ == failure_body(self@),
    {
        let mut body =
            "\nThe preceding model request failed. Continue the same logical turn using the existing thread history, including every prior message and tool item.\nFailure kind: ".to_owned();
        body.append(self.error.debug_text().as_str());
        body.append("\nFailure message: ");
        body.append(self.message.as_str());
        body.append("\nHandler attempt: ");
        body.append(decimal_text(self.continuation.attempt as u64).as_str());
        body.append(" of ");
        body.append(decimal_text(self.continuation.max_continuations as u64).as_str());
        body.append("\nCurrent-turn tool activity derived from that history:\n");
        body.append(self.tool_summary.as_str());
        body.append("\nUser-configured failure instructions:\n");
        body.append(self.continuation.instructions.as_str());
        body.append("\n");
        body
    }
}

/// The body ends in the user's instructions, exactly as they are, and a line break.
pub proof fn lemma_body_ends_in_instructions(failure: TurnFailureView)
    ensures
        (failure.instructions + "\n"@).is_suffix_of(failure_body(failure)),
{
    let body = failure_body(failure);
    let end = failure.instructions + "\n"@;
    assert(body.subrange(body.len() - end.len(), body.len() as int) =~= end);
}

/// The body holds the error message and the account of the tools, exactly as they are.
pub proof fn lemma_body_holds_message_and_summary(failure: TurnFailureView)
    ensures
        exists|before: Seq<char>, after: Seq<char>|
            failure_body(failure) == #[trigger] (before + failure.message + after),
        exists|before: Seq<char>, after: Seq<char>|
            failure_body(failure) == #[trigger] (before + failure.tool_summary + after),
{
    let head = "\nThe preceding model request failed. Continue the same logical turn using the existing thread history, including every prior message and tool item.\nFailure kind: "@
        + failure.error.debug_form() + "\nFailure message: "@;
    let attempts = "\nHandler attempt: "@ + text::decimal(failure.attempt) + " of "@
        + text::decimal(failure.max_continuations)
        + "\nCurrent-turn tool activity derived from that history:\n"@;
    let tail = "\nUser-configured failure instructions:\n"@ + failure.instructions + "\n"@;
    assert(failure_body(failure) =~= head + failure.message + (attempts + failure.tool_summary
        + tail));
    assert(failure_body(failure) =~= (head + failure.message + attempts) + failure.tool_summary
        + tail);
}

/// What is passed on of an error message and of the tools' doings is bounded, however long the
/// message and the history are.
pub proof fn lemma_failure_is_bounded(
    message: Seq<char>,
    turn_id: Seq<char>,
    history: Seq<ResponseItem>,
)
    requires
        history.len() <= usize::MAX,
    ensures
        text::utf8_len(text::truncated(message, MAX_ERROR_MESSAGE_BYTES as nat))
            <= MAX_ERROR_MESSAGE_BYTES,
        text::utf8_len(summary::tool_summary(turn_id, history)) <= summary::MAX_TOOL_SUMMARY_BYTES,
{
    text::lemma_truncated_within_limit(message, MAX_ERROR_MESSAGE_BYTES as nat);
    summary::lemma_summary_within_bytes(turn_id, history);
}

/// The body, line by line: the failure's kind and message, which attempt it is of how many, what
/// the tools did, and the user's instructions, each under its heading and as it is.
pub proof fn lemma_body_line_by_line(failure: TurnFailureView)
    ensures
        ({
            let kind = match failure.error {
                CodexErrorInfoView::CyberPolicy => "CyberPolicy"@,
                CodexErrorInfoView::Described(form) => form,
            };
            failure_body(failure) == "\n"@
                + "The preceding model request failed. Continue the same logical turn using the existing thread history, including every prior message and tool item."@
                + "\n"@ + ("Failure kind: "@ + kind) + "\n"@ + ("Failure message: "@
                + failure.message) + "\n"@ + ("Handler attempt: "@ + text::decimal(failure.attempt)
                + " of "@ + text::decimal(failure.max_continuations)) + "\n"@
                + "Current-turn tool activity derived from that history:"@ + "\n"@
                + failure.tool_summary + "\n"@ + "User-configured failure instructions:"@ + "\n"@
                + failure.instructions + "\n"@
        }),
{
    lemma_headings();
    let kind = match failure.error {
        CodexErrorInfoView::CyberPolicy => "CyberPolicy"@,
        CodexErrorInfoView::Described(form) => form,
    };
    assert(failure_body(failure) =~= "\n"@
        + "The preceding model request failed. Continue the same logical turn using the existing thread history, including every prior message and tool item."@
        + "\n"@ + ("Failure kind: "@ + kind) + "\n"@ + ("Failure message: "@ + failure.message)
        + "\n"@ + ("Handler attempt: "@ + text::decimal(failure.attempt) + " of "@ + text::decimal(
        failure.max_continuations,
    )) + "\n"@ + "Current-turn tool activity derived from that history:"@ + "\n"@
        + failure.tool_summary + "\n"@ + "User-configured failure instructions:"@ + "\n"@
        + failure.instructions + "\n"@);
}

/// The headings of a body stand on lines of their own.
proof fn lemma_headings()
    ensures
        "\nThe preceding model request failed. Continue the same logical turn using the existing thread history, including every prior message and tool item.\nFailure kind: "@
            == "\n"@
            + "The preceding model request failed. Continue the same logical turn using the existing thread history, including every prior message and tool item."@
            + "\n"@ + "Failure kind: "@,
        "\nFailure message: "@ == "\n"@ + "Failure message: "@,
        "\nHandler attempt: "@ == "\n"@ + "Handler attempt: "@,
        "\nCurrent-turn tool activity derived from that history:\n"@ == "\n"@
            + "Current-turn tool activity derived from that history:"@ + "\n"@,
        "\nUser-configured failure instructions:\n"@ == "\n"@
            + "User-configured failure instructions:"@ + "\n"@,
{
    reveal_strlit(
        "\nThe preceding model request failed. Continue the same logical turn using the existing thread history, including every prior message and tool item.\nFailure kind: ",
    );
    reveal_strlit(
        "The preceding model request failed. Continue the same logical turn using the existing thread history, including every prior message and tool item.",
    );
    reveal_strlit("\n");
    reveal_strlit("Failure kind: ");
    reveal_strlit("\nFailure message: ");
    reveal_strlit("Failure message: ");
    reveal_strlit("\nHandler attempt: ");
    reveal_strlit("Handler attempt: ");
    reveal_strlit("\nCurrent-turn tool activity derived from that history:\n");
    reveal_strlit("Current-turn tool activity derived from that history:");
    reveal_strlit("\nUser-configured failure instructions:\n");
    reveal_strlit("User-configured failure instructions:");
}

/// The body names the error's kind, directly before the message, and directly after the message
/// says which attempt it is and how many there may be, in numbers that read back as they are.
pub proof fn lemma_body_says_kind_message_and_attempt(failure: TurnFailureView, kind: Seq<char>)
    requires
        failure.error is CyberPolicy ==> kind == "CyberPolicy"@,
        failure.error matches CodexErrorInfoView::Described(form) ==> kind == form,
    ensures
        exists|before: Seq<char>, after: Seq<char>|
            failure_body(failure) == #[trigger] (before + ("\nFailure kind: "@ + kind
                + "\nFailure message: "@ + failure.message + "\nHandler attempt: "@
                + text::decimal(failure.attempt) + " of "@ + text::decimal(
                failure.max_continuations,
            ) + "\n"@) + after),
        text::numeral_value(text::decimal(failure.attempt)) == failure.attempt,
        text::numeral_value(text::decimal(failure.max_continuations)) == failure.max_continuations,
{
    text::lemma_decimal_reads_back(failure.attempt);
    text::lemma_decimal_reads_back(failure.max_continuations);
    lemma_headings();
    reveal_strlit("\n");
    reveal_strlit("Failure kind: ");
    reveal_strlit("\nFailure kind: ");
    let before = "\n"@
        + "The preceding model request failed. Continue the same logical turn using the existing thread history, including every prior message and tool item."@;
    let piece = "\nFailure kind: "@ + kind + "\nFailure message: "@ + failure.message
        + "\nHandler attempt: "@ + text::decimal(failure.attempt) + " of "@ + text::decimal(
        failure.max_continuations,
    ) + "\n"@;
    let after = "Current-turn tool activity derived from that history:"@ + "\n"@
        + failure.tool_summary + "\nUser-configured failure instructions:\n"@
        + failure.instructions + "\n"@;
    assert("\nFailure kind: "@ =~= "\n"@ + "Failure kind: "@);
    assert(failure_body(failure) =~= before + piece + after);
}

/// Failures that differ only in the attempt or in how many there may be have different bodies.
pub proof fn lemma_bodies_tell_attempts_apart(first: TurnFailureView, second: TurnFailureView)
    requires
        first.error == second.error,
        first.message == second.message,
        first.tool_summary == second.tool_summary,
        first.instructions == second.instructions,
        first.attempt != second.attempt || first.max_continuations != second.max_continuations,
    ensures
        failure_body(first) != failure_body(second),
{
    let head = "\nThe preceding model request failed. Continue the same logical turn using the existing thread history, including every prior message and tool item.\nFailure kind: "@
        + first.error.debug_form() + "\nFailure message: "@ + first.message
        + "\nHandler attempt: "@;
    let tail = "\nCurrent-turn tool activity derived from that history:\n"@ + first.tool_summary
        + "\nUser-configured failure instructions:\n"@ + first.instructions + "\n"@;
    let one = text::decimal(first.attempt);
    let other = text::decimal(second.attempt);
    let one_numbers = one + " of "@ + text::decimal(first.max_continuations);
    let other_numbers = other + " of "@ + text::decimal(second.max_continuations);
    assert(failure_body(first) =~= head + one_numbers + tail);
    assert(failure_body(second) =~= head + other_numbers + tail);
    if failure_body(first) == failure_body(second) {
        assert(one_numbers.len() == other_numbers.len());
        assert(one_numbers =~= failure_body(first).subrange(
            head.len() as int,
            (head.len() + one_numbers.len()) as int,
        ));
        assert(other_numbers =~= failure_body(second).subrange(
            head.len() as int,
            (head.len() + one_numbers.len()) as int,
        ));
        reveal_strlit(" of ");
        text::lemma_decimal_reads_back(first.attempt);
        text::lemma_decimal_reads_back(second.attempt);
        if one.len() < other.len() {
            assert(one_numbers[one.len() as int] == ' ');
            assert(other_numbers[one.len() as int] == other[one.len() as int]);
            assert(false);
        }
        if other.len() < one.len() {
            assert(other_numbers[other.len() as int] == ' ');
            assert(one_numbers[other.len() as int] == one[other.len() as int]);
            assert(false);
        }
        assert(one =~= one_numbers.take(one.len() as int));
        assert(other =~= other_numbers.take(one.len() as int));
        text::lemma_decimal_tells_numbers_apart(first.attempt, second.attempt);
        assert(text::decimal(first.max_continuations) =~= one_numbers.skip(one.len() as int + 4));
        assert(text::decimal(second.max_continuations) =~= other_numbers.skip(one.len() as int + 4));
        text::lemma_decimal_tells_numbers_apart(
            first.max_continuations,
            second.max_continuations,
        );
    }
}

/// Of an error message, as much is passed on as fits into 1024 bytes: all of it where it fits.
pub proof fn lemma_message_is_cut_to_its_limit(message: Seq<char>)
    ensures
        text::keeps_what_fits(
            message,
            1024,
            text::truncated(message, MAX_ERROR_MESSAGE_BYTES as nat),
        ),
{
    text::lemma_truncated_keeps_what_fits(message, 1024);
}

} // verus!
