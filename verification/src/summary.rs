//! What the tools of a turn did, in a few lines of text.

use crate::history::{is_text, is_tool_call, LocalShellStatus, ResponseItem};
use crate::lines;
use crate::text;
use crate::text::{byte_len, decimal_text, join_lines, truncate_utf8};
use core::slice::Iter;
use vstd::prelude::*;
use vstd::std_specs::iter::IteratorSpec;
use vstd::string::*;

verus! {

/// The most bytes that a summary of tool calls takes.
pub const MAX_TOOL_SUMMARY_BYTES: usize = 2048;

/// The most lines that a summary of tool calls has, where no line of it comes from a line break
/// inside a name, an id or a status.
pub const MAX_TOOL_ENTRIES: usize = 32;

/// `core::slice::Iter::as_slice`: the items that the iterator has not handed out yet, in order,
/// as a slice.
pub assume_specification<'a, T>[ Iter::<'a, T>::as_slice ](items: &Iter<'a, T>) -> (rest: &'a [T])
    ensures
        rest@ == items.remaining().unref(),
;

/// Whether the turn's history holds the output of the function or custom tool call `call_id`.
pub open spec fn function_output_recorded(
    turn_id: Seq<char>,
    history: Seq<ResponseItem>,
    call_id: Seq<char>,
) -> bool {
    exists|i: int|
        0 <= i < history.len() && (#[trigger] history[i]).in_turn(turn_id)
            && history[i].function_output_id() == Some(call_id)
}

/// Whether the turn's history holds the output of the search `call_id`.
pub open spec fn search_output_recorded(
    turn_id: Seq<char>,
    history: Seq<ResponseItem>,
    call_id: Seq<char>,
) -> bool {
    exists|i: int|
        0 <= i < history.len() && (#[trigger] history[i]).in_turn(turn_id)
            && history[i].search_output_id() == Some(call_id)
}

/// A tool's name, within its namespace where it has one.
pub open spec fn qualified_name(name: Seq<char>, namespace: Option<String>) -> Seq<char> {
    match namespace {
        Some(namespace) => namespace@ + "."@ + name,
        None => name,
    }
}

/// The text of `text`, or `otherwise` where it is missing.
pub open spec fn text_or(text: Option<String>, otherwise: Seq<char>) -> Seq<char> {
    match text {
        Some(text) => text@,
        None => otherwise,
    }
}

/// How a line says whether the output of a call is there.
pub open spec fn output_state(recorded: bool) -> Seq<char> {
    if recorded {
        "output recorded"@
    } else {
        "no output recorded - execution may be incomplete or its result may be unknown"@
    }
}

/// How a line adds the status that a call reports.
pub open spec fn reported_status(status: Seq<char>) -> Seq<char> {
    " (reported status: "@ + status + ")"@
}

/// The line for one call of a tool.
pub open spec fn call_line(label: Seq<char>, call_id: Seq<char>, state: Seq<char>) -> Seq<char> {
    "- "@ + label + " ["@ + call_id + "]: "@ + state
}

/// The line that shows a tool call of the turn `turn_id`.
pub open spec fn entry(item: ResponseItem, turn_id: Seq<char>, history: Seq<ResponseItem>) -> Seq<
    char,
> {
    match item {
        ResponseItem::FunctionCall { name, namespace, call_id, .. } => call_line(
            qualified_name(name@, namespace),
            call_id@,
            output_state(function_output_recorded(turn_id, history, call_id@)),
        ),
        ResponseItem::CustomToolCall { name, namespace, call_id, .. } => call_line(
            qualified_name(name@, namespace),
            call_id@,
            output_state(function_output_recorded(turn_id, history, call_id@)),
        ),
        ResponseItem::ToolSearchCall { call_id, status, .. } => {
            let id = text_or(call_id, "unknown call id"@);
            let recorded = search_output_recorded(turn_id, history, id);
            call_line(
                "tool_search"@,
                id,
                if recorded {
                    output_state(true)
                } else {
                    output_state(false) + reported_status(text_or(status, "unknown"@))
                },
            )
        },
        ResponseItem::LocalShellCall { call_id, status, .. } => {
            let id = text_or(call_id, "unknown call id"@);
            let recorded = function_output_recorded(turn_id, history, id);
            call_line(
                "local_shell"@,
                id,
                output_state(recorded) + reported_status(status.debug_form()),
            )
        },
        ResponseItem::WebSearchCall { status, .. } => "- web_search: "@ + text_or(
            status,
            "status unknown"@,
        ),
        ResponseItem::ImageGenerationCall { status, .. } => "- image_generation: "@ + status@,
        _ => seq![],
    }
}

/// The tool calls of the turn `turn_id`, in the order of the history.
pub open spec fn turn_calls(turn_id: Seq<char>, history: Seq<ResponseItem>) -> Seq<ResponseItem> {
    history.filter(
        |item: ResponseItem| item.in_turn(turn_id) && crate::history::tool_call(item),
    )
}

/// How many of `count` tool calls a summary shows: all of them where they fit, otherwise as many
/// as leave a line for the number of those left out.
pub open spec fn shown_count(count: nat) -> nat {
    if count > MAX_TOOL_ENTRIES {
        (MAX_TOOL_ENTRIES - 1) as nat
    } else {
        count
    }
}

/// The lines that a summary shows.
pub open spec fn shown_entries(turn_id: Seq<char>, history: Seq<ResponseItem>) -> Seq<Seq<char>> {
    let calls = turn_calls(turn_id, history);
    calls.take(shown_count(calls.len()) as int).map_values(
        |item: ResponseItem| entry(item, turn_id, history),
    )
}

/// The line that says how many tool calls a summary leaves out.
pub open spec fn omission_line(omitted: nat) -> Seq<char> {
    "- "@ + text::decimal(omitted) + " additional tool calls omitted by the summary limit."@
}

/// The summary of the tool calls of the turn `turn_id`.
pub open spec fn tool_summary(turn_id: Seq<char>, history: Seq<ResponseItem>) -> Seq<char> {
    let count = turn_calls(turn_id, history).len();
    let shown = shown_entries(turn_id, history);
    if count == 0 {
        "- No tool calls were recorded in this turn before the failure."@
    } else if count > shown.len() {
        let omission = omission_line((count - shown.len()) as nat);
        let limit = (MAX_TOOL_SUMMARY_BYTES - (text::utf8_len(omission) + 1)) as nat;
        text::truncated(text::joined(shown), limit) + seq!['\n'] + omission
    } else {
        text::truncated(text::joined(shown), MAX_TOOL_SUMMARY_BYTES as nat)
    }
}

fn has_function_output(turn_id: &String, history: &[ResponseItem], call_id: &String) -> (yes: bool)
    ensures
        yes == function_output_recorded(turn_id@, history@, call_id@),
{
    let mut i: usize = 0;
    while i < history.len()
        invariant
            i <= history.len(),
            forall|k: int|
                0 <= k < i ==> !((#[trigger] history@[k]).in_turn(turn_id@)
                    && history@[k].function_output_id() == Some(call_id@)),
        decreases history.len() - i,
    {
        let item = &history[i];
        if is_text(item.turn_id(), turn_id) && item.is_function_output_of(call_id) {
            assert(history@[i as int].in_turn(turn_id@));
            return true;
        }
        i = i + 1;
    }
    false
}

fn has_search_output(turn_id: &String, history: &[ResponseItem], call_id: &String) -> (yes: bool)
    ensures
        yes == search_output_recorded(turn_id@, history@, call_id@),
{
    let mut i: usize = 0;
    while i < history.len()
        invariant
            i <= history.len(),
            forall|k: int|
                0 <= k < i ==> !((#[trigger] history@[k]).in_turn(turn_id@)
                    && history@[k].search_output_id() == Some(call_id@)),
        decreases history.len() - i,
    {
        let item = &history[i];
        if is_text(item.turn_id(), turn_id) && item.is_search_output_of(call_id) {
            assert(history@[i as int].in_turn(turn_id@));
            return true;
        }
        i = i + 1;
    }
    false
}

fn qualified(name: &String, namespace: &Option<String>) -> (label: String)
    ensures
        label@ == qualified_name(name@, *namespace),
{
    match namespace {
        Some(namespace) => {
            let mut label = namespace.clone();
            label.append(".");
            label.append(name.as_str());
            label
        },
        None => name.clone(),
    }
}

fn or_text(text: &Option<String>, otherwise: &str) -> (chosen: String)
    ensures
        chosen@ == text_or(*text, otherwise@),
{
    match text {
        Some(text) => text.clone(),
        None => otherwise.to_owned(),
    }
}

fn state_text(recorded: bool) -> (state: String)
    ensures
        state@ == output_state(recorded),
{
    if recorded {
        "output recorded".to_owned()
    } else {
        "no output recorded - execution may be incomplete or its result may be unknown".to_owned()
    }
}

fn status_text(status: &str) -> (text: String)
    ensures
        text@ == reported_status(status@),
{
    let mut text = " (reported status: ".to_owned();
    text.append(status);
    text.append(")");
    text
}

fn line_text(label: &str, call_id: &str, state: &str) -> (line: String)
    ensures
        line@ == call_line(label@, call_id@, state@),
{
    let mut line = "- ".to_owned();
    line.append(label);
    line.append(" [");
    line.append(call_id);
    line.append("]: ");
    line.append(state);
    line
}

fn tool_entry(item: &ResponseItem, turn_id: &String, history: &[ResponseItem]) -> (line: String)
    requires
        crate::history::tool_call(*item),
    ensures
        line@ == entry(*item, turn_id@, history@),
{
    match item {
        ResponseItem::FunctionCall { name, namespace, call_id, .. } => {
            let state = state_text(has_function_output(turn_id, history, call_id));
            line_text(qualified(name, namespace).as_str(), call_id.as_str(), state.as_str())
        },
        ResponseItem::CustomToolCall { name, namespace, call_id, .. } => {
            let state = state_text(has_function_output(turn_id, history, call_id));
            line_text(qualified(name, namespace).as_str(), call_id.as_str(), state.as_str())
        },
        ResponseItem::ToolSearchCall { call_id, status, .. } => {
            let id = or_text(call_id, "unknown call id");
            let recorded = has_search_output(turn_id, history, &id);
            let mut state = state_text(recorded);
            if !recorded {
                state.append(status_text(or_text(status, "unknown").as_str()).as_str());
            }
            line_text("tool_search", id.as_str(), state.as_str())
        },
        ResponseItem::LocalShellCall { call_id, status, .. } => {
            let id = or_text(call_id, "unknown call id");
            let mut state = state_text(has_function_output(turn_id, history, &id));
            state.append(status_text(status.debug_text().as_str()).as_str());
            line_text("local_shell", id.as_str(), state.as_str())
        },
        ResponseItem::WebSearchCall { status, .. } => {
            let mut line = "- web_search: ".to_owned();
            line.append(or_text(status, "status unknown").as_str());
            line
        },
        ResponseItem::ImageGenerationCall { status, .. } => {
            let mut line = "- image_generation: ".to_owned();
            line.append(status.as_str());
            line
        },
        _ => String::new(),
    }
}

/// The line about omitted calls is plain ASCII and short.
proof fn lemma_omission_line(omitted: nat)
    requires
        omitted <= u64::MAX,
    ensures
        text::utf8_len(omission_line(omitted)) == omission_line(omitted).len(),
        omission_line(omitted).len() <= 100,
{
    reveal_strlit("- ");
    reveal_strlit(" additional tool calls omitted by the summary limit.");
    assert(vstd::arithmetic::power::pow(10, 20) > u64::MAX) by {
        reveal_with_fuel(vstd::arithmetic::power::pow, 21);
    }
    text::lemma_decimal_len(omitted, 20);
    vstd::utf8::is_ascii_chars_encode_utf8(omission_line(omitted));
}

/// The tool calls of the turn, in the order of the history.
fn collect_turn_calls<'a>(turn_id: &String, history: &'a [ResponseItem]) -> (calls: Vec<
    &'a ResponseItem,
>)
    ensures
        calls@.unref() == turn_calls(turn_id@, history@),
{
    let mut calls: Vec<&'a ResponseItem> = Vec::new();
    let mut i: usize = 0;
    assert(calls@.unref() =~= turn_calls(turn_id@, history@.take(0))) by {
        reveal(Seq::filter);
    }
    while i < history.len()
        invariant
            i <= history.len(),
            calls@.unref() == turn_calls(turn_id@, history@.take(i as int)),
        decreases history.len() - i,
    {
        let item = &history[i];
        let ghost before = calls@;
        if is_text(item.turn_id(), turn_id) && is_tool_call(item) {
            calls.push(item);
            assert(calls@.unref() =~= before.unref().push(*item));
        }
        proof {
            let longer = history@.take(i + 1);
            assert(longer.drop_last() =~= history@.take(i as int));
            assert(longer.last() == *item);
            reveal(Seq::filter);
        }
        i = i + 1;
    }
    assert(history@.take(i as int) =~= history@);
    calls
}

/// Says what the tools did in the turn `turn_id`: one line for each call, within the limits on
/// lines and bytes.
pub fn summarize_tool_activity(turn_id: &str, history: Iter<'_, ResponseItem>) -> (summary: String)
    ensures
        summary@ == tool_summary(turn_id@, history.remaining().unref()),
{
    let items = history.as_slice();
    let turn_id = turn_id.to_owned();
    let calls = collect_turn_calls(&turn_id, items);
    let count: usize = calls.len();
    if count == 0 {
        return "- No tool calls were recorded in this turn before the failure.".to_owned();
    }
    let shown: usize = if count > MAX_TOOL_ENTRIES {
        MAX_TOOL_ENTRIES - 1
    } else {
        count
    };
    let ghost wanted = shown_entries(turn_id@, items@);
    let mut entries: Vec<String> = Vec::new();
    let mut i: usize = 0;
    while i < shown
        invariant
            i <= shown <= count == calls.len(),
            calls@.unref() == turn_calls(turn_id@, items@),
            wanted == shown_entries(turn_id@, items@),
            wanted.len() == shown,
            shown == shown_count(count as nat),
            text::texts(entries@) == wanted.take(i as int),
        decreases shown - i,
    {
        proof {
            let all = turn_calls(turn_id@, items@);
            assert(all[i as int] == *calls@[i as int]);
            lemma_turn_calls_are_calls(turn_id@, items@);
            assert(wanted[i as int] == entry(all[i as int], turn_id@, items@));
        }
        let line = tool_entry(calls[i], &turn_id, items);
        proof {
            assert(text::texts(entries@.push(line)) =~= text::texts(entries@).push(line@));
            assert(wanted.take(i + 1) =~= wanted.take(i as int).push(wanted[i as int]));
        }
        entries.push(line);
        i = i + 1;
    }
    assert(wanted.take(i as int) =~= wanted);
    let listing = join_lines(&entries);
    if count > shown {
        let omitted: usize = count - shown;
        let mut omission = "- ".to_owned();
        omission.append(decimal_text(omitted as u64).as_str());
        omission.append(" additional tool calls omitted by the summary limit.");
        proof {
            lemma_omission_line(omitted as nat);
            reveal_strlit("\n");
        }
        let limit: usize = MAX_TOOL_SUMMARY_BYTES - (byte_len(omission.as_str()) + 1);
        let mut summary = truncate_utf8(listing.as_str(), limit);
        summary.append("\n");
        summary.append(omission.as_str());
        summary
    } else {
        truncate_utf8(listing.as_str(), MAX_TOOL_SUMMARY_BYTES)
    }
}

/// Every item among the tool calls of a turn is a tool call of that turn.
pub proof fn lemma_turn_calls_are_calls(turn_id: Seq<char>, history: Seq<ResponseItem>)
    ensures
        forall|i: int|
            0 <= i < turn_calls(turn_id, history).len() ==> crate::history::tool_call(
                #[trigger] turn_calls(turn_id, history)[i],
            ) && turn_calls(turn_id, history)[i].in_turn(turn_id),
{
    let wanted = |item: ResponseItem| item.in_turn(turn_id) && crate::history::tool_call(item);
    assert forall|i: int| 0 <= i < turn_calls(turn_id, history).len() implies wanted(
        #[trigger] turn_calls(turn_id, history)[i],
    ) by {
        history.lemma_filter_pred(wanted, i);
    }
}

/// A summary never takes more than its limit of bytes.
pub proof fn lemma_summary_within_bytes(turn_id: Seq<char>, history: Seq<ResponseItem>)
    requires
        history.len() <= usize::MAX,
    ensures
        text::utf8_len(tool_summary(turn_id, history)) <= MAX_TOOL_SUMMARY_BYTES,
{
    let wanted = |item: ResponseItem| item.in_turn(turn_id) && crate::history::tool_call(item);
    history.lemma_filter_len(wanted);
    let count = turn_calls(turn_id, history).len();
    let shown = shown_entries(turn_id, history);
    if count == 0 {
        reveal_strlit("- No tool calls were recorded in this turn before the failure.");
        vstd::utf8::is_ascii_chars_encode_utf8(tool_summary(turn_id, history));
    } else if count > shown.len() {
        let omission = omission_line((count - shown.len()) as nat);
        lemma_omission_line((count - shown.len()) as nat);
        let limit = (MAX_TOOL_SUMMARY_BYTES - (text::utf8_len(omission) + 1)) as nat;
        let head = text::truncated(text::joined(shown), limit);
        text::lemma_truncated_within_limit(text::joined(shown), limit);
        text::lemma_encode_concat(head, seq!['\n']);
        text::lemma_encode_concat(head + seq!['\n'], omission);
        vstd::utf8::is_ascii_chars_encode_utf8(seq!['\n']);
    } else {
        text::lemma_truncated_within_limit(text::joined(shown), MAX_TOOL_SUMMARY_BYTES as nat);
    }
}

/// A summary has no line breaks but those inside the lines that it shows and one after each line
/// but the last; so where no shown line holds a line break of its own, the summary has at most
/// its limit of lines.
pub proof fn lemma_summary_within_lines(turn_id: Seq<char>, history: Seq<ResponseItem>)
    requires
        history.len() <= usize::MAX,
    ensures
        lines::line_count(tool_summary(turn_id, history)) <= lines::total_line_breaks(
            shown_entries(turn_id, history),
        ) + MAX_TOOL_ENTRIES,
        (forall|i: int|
            0 <= i < shown_entries(turn_id, history).len() ==> !(#[trigger] shown_entries(
                turn_id,
                history,
            )[i]).contains('\n')) ==> lines::line_count(tool_summary(turn_id, history))
            <= MAX_TOOL_ENTRIES,
{
    let wanted = |item: ResponseItem| item.in_turn(turn_id) && crate::history::tool_call(item);
    history.lemma_filter_len(wanted);
    let count = turn_calls(turn_id, history).len();
    let shown = shown_entries(turn_id, history);
    if forall|i: int| 0 <= i < shown.len() ==> !(#[trigger] shown[i]).contains('\n') {
        lines::lemma_no_total_line_breaks(shown);
    }
    if count == 0 {
        reveal_strlit("- No tool calls were recorded in this turn before the failure.");
        lines::lemma_no_line_breaks(tool_summary(turn_id, history));
    } else {
        lines::lemma_joined_line_breaks(shown);
        if count > shown.len() {
            let omitted = (count - shown.len()) as nat;
            let omission = omission_line(omitted);
            lemma_omission_line(omitted);
            let limit = (MAX_TOOL_SUMMARY_BYTES - (text::utf8_len(omission) + 1)) as nat;
            let head = text::truncated(text::joined(shown), limit);
            lines::lemma_truncated_line_breaks(text::joined(shown), limit);
            lines::lemma_line_breaks_concat(head, seq!['\n']);
            lines::lemma_line_breaks_concat(head + seq!['\n'], omission);
            lines::lemma_single_line_break();
            assert(!omission.contains('\n')) by {
                reveal_strlit("- ");
                reveal_strlit(" additional tool calls omitted by the summary limit.");
                text::lemma_decimal_digits(omitted);
            }
            lines::lemma_no_line_breaks(omission);
        } else {
            lines::lemma_truncated_line_breaks(
                text::joined(shown),
                MAX_TOOL_SUMMARY_BYTES as nat,
            );
        }
    }
}

/// A summary that leaves calls out ends in the line that says how many it leaves out.
pub proof fn lemma_summary_counts_omitted_calls(turn_id: Seq<char>, history: Seq<ResponseItem>)
    requires
        turn_calls(turn_id, history).len() > MAX_TOOL_ENTRIES,
    ensures
        omission_line(
            (turn_calls(turn_id, history).len() - (MAX_TOOL_ENTRIES - 1)) as nat,
        ).is_suffix_of(tool_summary(turn_id, history)),
{
}

/// The items of other turns leave no trace in a summary.
pub proof fn lemma_summary_ignores_other_turns(turn_id: Seq<char>, history: Seq<ResponseItem>)
    ensures
        tool_summary(turn_id, history) == tool_summary(
            turn_id,
            history.filter(|item: ResponseItem| item.in_turn(turn_id)),
        ),
{
    let of_turn = |item: ResponseItem| item.in_turn(turn_id);
    let own = history.filter(of_turn);
    lemma_turn_calls_of_own_items(turn_id, history);
    assert forall|call_id: Seq<char>|
        function_output_recorded(turn_id, history, call_id) == #[trigger] function_output_recorded(
            turn_id,
            own,
            call_id,
        ) by {
        if function_output_recorded(turn_id, history, call_id) {
            let i = choose|i: int|
                0 <= i < history.len() && (#[trigger] history[i]).in_turn(turn_id)
                    && history[i].function_output_id() == Some(call_id);
            history.lemma_filter_contains(of_turn, i);
            let j = choose|j: int| 0 <= j < own.len() && own[j] == history[i];
            assert(own[j].in_turn(turn_id));
        }
        if function_output_recorded(turn_id, own, call_id) {
            let j = choose|j: int|
                0 <= j < own.len() && (#[trigger] own[j]).in_turn(turn_id)
                    && own[j].function_output_id() == Some(call_id);
            lemma_filter_from(history, of_turn, j);
        }
    }
    assert forall|call_id: Seq<char>|
        search_output_recorded(turn_id, history, call_id) == #[trigger] search_output_recorded(
            turn_id,
            own,
            call_id,
        ) by {
        if search_output_recorded(turn_id, history, call_id) {
            let i = choose|i: int|
                0 <= i < history.len() && (#[trigger] history[i]).in_turn(turn_id)
                    && history[i].search_output_id() == Some(call_id);
            history.lemma_filter_contains(of_turn, i);
            let j = choose|j: int| 0 <= j < own.len() && own[j] == history[i];
            assert(own[j].in_turn(turn_id));
        }
        if search_output_recorded(turn_id, own, call_id) {
            let j = choose|j: int|
                0 <= j < own.len() && (#[trigger] own[j]).in_turn(turn_id)
                    && own[j].search_output_id() == Some(call_id);
            lemma_filter_from(history, of_turn, j);
        }
    }
    assert(shown_entries(turn_id, history) =~= shown_entries(turn_id, own));
}

/// An output counts wherever it stands and however often: two histories with the same tool calls
/// of the turn, in the same order, and the same other items of the turn, in any order, have the
/// same summary.
pub proof fn lemma_summary_ignores_place_of_outputs(
    turn_id: Seq<char>,
    first: Seq<ResponseItem>,
    second: Seq<ResponseItem>,
)
    requires
        turn_calls(turn_id, first) == turn_calls(turn_id, second),
        forall|item: ResponseItem|
            item.in_turn(turn_id) && !crate::history::tool_call(item) ==> (#[trigger] first.contains(
                item,
            ) <==> second.contains(item)),
    ensures
        tool_summary(turn_id, first) == tool_summary(turn_id, second),
{
    assert forall|call_id: Seq<char>|
        function_output_recorded(turn_id, first, call_id) == #[trigger] function_output_recorded(
            turn_id,
            second,
            call_id,
        ) by {
        if function_output_recorded(turn_id, first, call_id) {
            let i = choose|i: int|
                0 <= i < first.len() && (#[trigger] first[i]).in_turn(turn_id)
                    && first[i].function_output_id() == Some(call_id);
            assert(first.contains(first[i]));
            let j = choose|j: int| 0 <= j < second.len() && second[j] == first[i];
            assert(second[j].in_turn(turn_id));
        }
        if function_output_recorded(turn_id, second, call_id) {
            let j = choose|j: int|
                0 <= j < second.len() && (#[trigger] second[j]).in_turn(turn_id)
                    && second[j].function_output_id() == Some(call_id);
            assert(second.contains(second[j]));
            assert(first.contains(second[j]));
            let i = choose|i: int| 0 <= i < first.len() && first[i] == second[j];
            assert(first[i].in_turn(turn_id));
        }
    }
    assert forall|call_id: Seq<char>|
        search_output_recorded(turn_id, first, call_id) == #[trigger] search_output_recorded(
            turn_id,
            second,
            call_id,
        ) by {
        if search_output_recorded(turn_id, first, call_id) {
            let i = choose|i: int|
                0 <= i < first.len() && (#[trigger] first[i]).in_turn(turn_id)
                    && first[i].search_output_id() == Some(call_id);
            assert(first.contains(first[i]));
            let j = choose|j: int| 0 <= j < second.len() && second[j] == first[i];
            assert(second[j].in_turn(turn_id));
        }
        if search_output_recorded(turn_id, second, call_id) {
            let j = choose|j: int|
                0 <= j < second.len() && (#[trigger] second[j]).in_turn(turn_id)
                    && second[j].search_output_id() == Some(call_id);
            assert(second.contains(second[j]));
            assert(first.contains(second[j]));
            let i = choose|i: int| 0 <= i < first.len() && first[i] == second[j];
            assert(first[i].in_turn(turn_id));
        }
    }
    assert(shown_entries(turn_id, first) =~= shown_entries(turn_id, second));
}

/// What a filter keeps comes from the sequence that it filters.
proof fn lemma_filter_from(items: Seq<ResponseItem>, keep: spec_fn(ResponseItem) -> bool, j: int)
    requires
        0 <= j < items.filter(keep).len(),
    ensures
        exists|i: int| 0 <= i < items.len() && #[trigger] items[i] == items.filter(keep)[j],
    decreases items.len(),
{
    reveal(Seq::filter);
    let shorter = items.drop_last();
    if j < shorter.filter(keep).len() {
        lemma_filter_from(shorter, keep, j);
        let i = choose|i: int|
            0 <= i < shorter.len() && #[trigger] shorter[i] == shorter.filter(keep)[j];
        assert(items[i] == items.filter(keep)[j]);
    } else {
        assert(items[items.len() - 1] == items.filter(keep)[j]);
    }
}

/// The tool calls of a turn are the tool calls among the items of that turn.
proof fn lemma_turn_calls_of_own_items(turn_id: Seq<char>, history: Seq<ResponseItem>)
    ensures
        turn_calls(turn_id, history) == turn_calls(
            turn_id,
            history.filter(|item: ResponseItem| item.in_turn(turn_id)),
        ),
    decreases history.len(),
{
    reveal(Seq::filter);
    let of_turn = |item: ResponseItem| item.in_turn(turn_id);
    let own = history.filter(of_turn);
    if history.len() > 0 {
        lemma_turn_calls_of_own_items(turn_id, history.drop_last());
        if of_turn(history.last()) {
            assert(own.drop_last() =~= history.drop_last().filter(of_turn));
            assert(own.last() == history.last());
        } else {
            assert(own =~= history.drop_last().filter(of_turn));
        }
    }
}

/// The output of a function or custom tool call, found among the items of the turn one by one.
proof fn lemma_function_output_written_out(
    turn_id: Seq<char>,
    history: Seq<ResponseItem>,
    call_id: Seq<char>,
)
    ensures
        function_output_recorded(turn_id, history, call_id) <==> (exists|i: int|
                0 <= i < history.len() && {
                    ||| #[trigger] history[i] matches ResponseItem::FunctionCallOutput {
                        call_id: Some(output_id),
                        turn_id: Some(turn),
                    } && output_id@ == call_id && turn@ == turn_id
                    ||| history[i] matches ResponseItem::CustomToolCallOutput {
                        call_id: output_id,
                        turn_id: Some(turn),
                    } && output_id@ == call_id && turn@ == turn_id
                }),
{
    assert forall|i: int| 0 <= i < history.len() implies ((#[trigger] history[i]).in_turn(turn_id)
        && history[i].function_output_id() == Some(call_id) <==> {
        ||| history[i] matches ResponseItem::FunctionCallOutput {
            call_id: Some(output_id),
            turn_id: Some(turn),
        } && output_id@ == call_id && turn@ == turn_id
        ||| history[i] matches ResponseItem::CustomToolCallOutput {
            call_id: output_id,
            turn_id: Some(turn),
        } && output_id@ == call_id && turn@ == turn_id
    }) by {
        crate::history::lemma_item_belongs_to_the_turn_it_names(history[i], turn_id);
        crate::history::lemma_output_is_of_the_call_it_names(history[i], call_id);
    }
}

/// The output of a search, found among the items of the turn one by one.
proof fn lemma_search_output_written_out(
    turn_id: Seq<char>,
    history: Seq<ResponseItem>,
    call_id: Seq<char>,
)
    ensures
        search_output_recorded(turn_id, history, call_id) <==> (exists|i: int|
                0 <= i < history.len() && (
                #[trigger] history[i] matches ResponseItem::ToolSearchOutput {
                    call_id: Some(output_id),
                    turn_id: Some(turn),
                } && output_id@ == call_id && turn@ == turn_id)),
{
    assert forall|i: int| 0 <= i < history.len() implies ((#[trigger] history[i]).in_turn(turn_id)
        && history[i].search_output_id() == Some(call_id) <==> (
    history[i] matches ResponseItem::ToolSearchOutput {
        call_id: Some(output_id),
        turn_id: Some(turn),
    } && output_id@ == call_id && turn@ == turn_id)) by {
        crate::history::lemma_item_belongs_to_the_turn_it_names(history[i], turn_id);
        crate::history::lemma_output_is_of_the_call_it_names(history[i], call_id);
    }
}

/// The two ends of a line about a call differ, and each begins with what closes the call's id.
proof fn lemma_line_ends()
    ensures
        "]: output recorded"@ == "]: "@ + "output recorded"@,
        "]: no output recorded - execution may be incomplete or its result may be unknown"@ == "]: "@
            + "no output recorded - execution may be incomplete or its result may be unknown"@,
        forall|line: Seq<char>|
            "]: output recorded"@.is_suffix_of(line)
                ==> !"]: no output recorded - execution may be incomplete or its result may be unknown"@.is_suffix_of(
                line,
            ),
{
    reveal_strlit("]: output recorded");
    reveal_strlit("]: ");
    reveal_strlit("output recorded");
    reveal_strlit("]: no output recorded - execution may be incomplete or its result may be unknown");
    reveal_strlit("no output recorded - execution may be incomplete or its result may be unknown");
    assert forall|line: Seq<char>| "]: output recorded"@.is_suffix_of(line) implies
        !"]: no output recorded - execution may be incomplete or its result may be unknown"@.is_suffix_of(
        line,
    ) by {
        let first = "]: output recorded"@;
        let second = "]: no output recorded - execution may be incomplete or its result may be unknown"@;
        assert(first.last() == 'd');
        assert(second.last() == 'n');
        assert(line.last() == first.last());
        if second.is_suffix_of(line) {
            assert(line.last() == second.last());
        }
    }
}

proof fn lemma_ends_in(start: Seq<char>, end: Seq<char>)
    ensures
        end.is_suffix_of(start + end),
{
    assert((start + end).subrange(start.len() as int, (start + end).len() as int) =~= end);
}

/// The line of a function call names the tool and the call, and says that its output is recorded
/// if and only if some item of the turn is an output for that call; otherwise it says that the call
/// may be incomplete.
pub proof fn lemma_function_call_line(
    name: String,
    namespace: Option<String>,
    call_id: String,
    own_turn: Option<String>,
    turn_id: Seq<char>,
    history: Seq<ResponseItem>,
)
    ensures
        ({
            let line = entry(
                ResponseItem::FunctionCall { name, namespace, call_id, turn_id: own_turn },
                turn_id,
                history,
            );
            let label = match namespace {
                Some(space) => space@ + "."@ + name@,
                None => name@,
            };
            let has_output = exists|i: int|
                0 <= i < history.len() && {
                    ||| #[trigger] history[i] matches ResponseItem::FunctionCallOutput {
                        call_id: Some(output_id),
                        turn_id: Some(turn),
                    } && output_id@ == call_id@ && turn@ == turn_id
                    ||| history[i] matches ResponseItem::CustomToolCallOutput {
                        call_id: output_id,
                        turn_id: Some(turn),
                    } && output_id@ == call_id@ && turn@ == turn_id
                };
            &&& has_output ==> line == "- "@ + label + " ["@ + call_id@ + "]: output recorded"@
            &&& !has_output ==> line == "- "@ + label + " ["@ + call_id@
                + "]: no output recorded - execution may be incomplete or its result may be unknown"@
            &&& "]: output recorded"@.is_suffix_of(line) <==> has_output
            &&& "]: no output recorded - execution may be incomplete or its result may be unknown"@.is_suffix_of(
                line,
            ) <==> !has_output
        }),
{
    lemma_function_output_written_out(turn_id, history, call_id@);
    lemma_line_ends();
    let line = entry(
        ResponseItem::FunctionCall { name, namespace, call_id, turn_id: own_turn },
        turn_id,
        history,
    );
    let label = qualified_name(name@, namespace);
    let recorded = function_output_recorded(turn_id, history, call_id@);
    let start = "- "@ + label + " ["@ + call_id@;
    if recorded {
        assert(line =~= start + "]: output recorded"@);
        lemma_ends_in(start, "]: output recorded"@);
    } else {
        assert(line =~= start
            + "]: no output recorded - execution may be incomplete or its result may be unknown"@);
        lemma_ends_in(
            start,
            "]: no output recorded - execution may be incomplete or its result may be unknown"@,
        );
    }
}

/// The line of a custom tool call names the tool and the call, and says that its output is
/// recorded if and only if some item of the turn is an output for that call; otherwise it says that
/// the call may be incomplete.
pub proof fn lemma_custom_tool_call_line(
    name: String,
    namespace: Option<String>,
    call_id: String,
    own_turn: Option<String>,
    turn_id: Seq<char>,
    history: Seq<ResponseItem>,
)
    ensures
        ({
            let line = entry(
                ResponseItem::CustomToolCall { name, namespace, call_id, turn_id: own_turn },
                turn_id,
                history,
            );
            let label = match namespace {
                Some(space) => space@ + "."@ + name@,
                None => name@,
            };
            let has_output = exists|i: int|
                0 <= i < history.len() && {
                    ||| #[trigger] history[i] matches ResponseItem::FunctionCallOutput {
                        call_id: Some(output_id),
                        turn_id: Some(turn),
                    } && output_id@ == call_id@ && turn@ == turn_id
                    ||| history[i] matches ResponseItem::CustomToolCallOutput {
                        call_id: output_id,
                        turn_id: Some(turn),
                    } && output_id@ == call_id@ && turn@ == turn_id
                };
            &&& has_output ==> line == "- "@ + label + " ["@ + call_id@ + "]: output recorded"@
            &&& !has_output ==> line == "- "@ + label + " ["@ + call_id@
                + "]: no output recorded - execution may be incomplete or its result may be unknown"@
            &&& "]: output recorded"@.is_suffix_of(line) <==> has_output
            &&& "]: no output recorded - execution may be incomplete or its result may be unknown"@.is_suffix_of(
                line,
            ) <==> !has_output
        }),
{
    lemma_function_output_written_out(turn_id, history, call_id@);
    lemma_line_ends();
    let line = entry(
        ResponseItem::CustomToolCall { name, namespace, call_id, turn_id: own_turn },
        turn_id,
        history,
    );
    let label = qualified_name(name@, namespace);
    let recorded = function_output_recorded(turn_id, history, call_id@);
    let start = "- "@ + label + " ["@ + call_id@;
    if recorded {
        assert(line =~= start + "]: output recorded"@);
        lemma_ends_in(start, "]: output recorded"@);
    } else {
        assert(line =~= start
            + "]: no output recorded - execution may be incomplete or its result may be unknown"@);
        lemma_ends_in(
            start,
            "]: no output recorded - execution may be incomplete or its result may be unknown"@,
        );
    }
}

/// The line of a search for tools says that its output is recorded if and only if some item of the
/// turn is what that search found; otherwise it says that the search may be incomplete, and what
/// status it reports.
pub proof fn lemma_search_call_line(
    call_id: Option<String>,
    status: Option<String>,
    own_turn: Option<String>,
    turn_id: Seq<char>,
    history: Seq<ResponseItem>,
    id: Seq<char>,
    reported: Seq<char>,
)
    requires
        call_id matches Some(given) ==> id == given@,
        call_id is None ==> id == "unknown call id"@,
        status matches Some(given) ==> reported == given@,
        status is None ==> reported == "unknown"@,
    ensures
        ({
            let line = entry(
                ResponseItem::ToolSearchCall { call_id, status, turn_id: own_turn },
                turn_id,
                history,
            );
            let has_output = exists|i: int|
                0 <= i < history.len() && (
                #[trigger] history[i] matches ResponseItem::ToolSearchOutput {
                    call_id: Some(output_id),
                    turn_id: Some(turn),
                } && output_id@ == id && turn@ == turn_id);
            &&& has_output ==> line == "- tool_search ["@ + id + "]: output recorded"@
            &&& !has_output ==> line == "- tool_search ["@ + id
                + "]: no output recorded - execution may be incomplete or its result may be unknown"@
                + " (reported status: "@ + reported + ")"@
        }),
{
    lemma_search_output_written_out(turn_id, history, id);
    lemma_line_ends();
    reveal_strlit("- tool_search [");
    reveal_strlit("- ");
    reveal_strlit("tool_search");
    reveal_strlit(" [");
    let line = entry(
        ResponseItem::ToolSearchCall { call_id, status, turn_id: own_turn },
        turn_id,
        history,
    );
    assert("- tool_search ["@ =~= "- "@ + "tool_search"@ + " ["@);
    if search_output_recorded(turn_id, history, id) {
        assert(line =~= "- tool_search ["@ + id + "]: output recorded"@);
    } else {
        assert(line =~= "- tool_search ["@ + id
            + "]: no output recorded - execution may be incomplete or its result may be unknown"@
            + " (reported status: "@ + reported + ")"@);
    }
}

/// The line of a local shell call says that its output is recorded if and only if some item of the
/// turn is an output for that call, otherwise that the call may be incomplete, and in either case
/// what status it reports.
pub proof fn lemma_shell_call_line(
    call_id: Option<String>,
    status: LocalShellStatus,
    own_turn: Option<String>,
    turn_id: Seq<char>,
    history: Seq<ResponseItem>,
    id: Seq<char>,
    reported: Seq<char>,
)
    requires
        call_id matches Some(given) ==> id == given@,
        call_id is None ==> id == "unknown call id"@,
        status is Completed ==> reported == "Completed"@,
        status matches LocalShellStatus::Named(given) ==> reported == given@,
    ensures
        ({
            let line = entry(
                ResponseItem::LocalShellCall { call_id, status, turn_id: own_turn },
                turn_id,
                history,
            );
            let has_output = exists|i: int|
                0 <= i < history.len() && {
                    ||| #[trigger] history[i] matches ResponseItem::FunctionCallOutput {
                        call_id: Some(output_id),
                        turn_id: Some(turn),
                    } && output_id@ == id && turn@ == turn_id
                    ||| history[i] matches ResponseItem::CustomToolCallOutput {
                        call_id: output_id,
                        turn_id: Some(turn),
                    } && output_id@ == id && turn@ == turn_id
                };
            &&& has_output ==> line == "- local_shell ["@ + id + "]: output recorded"@
                + " (reported status: "@ + reported + ")"@
            &&& !has_output ==> line == "- local_shell ["@ + id
                + "]: no output recorded - execution may be incomplete or its result may be unknown"@
                + " (reported status: "@ + reported + ")"@
        }),
{
    lemma_function_output_written_out(turn_id, history, id);
    lemma_line_ends();
    reveal_strlit("- local_shell [");
    reveal_strlit("- ");
    reveal_strlit("local_shell");
    reveal_strlit(" [");
    let line = entry(
        ResponseItem::LocalShellCall { call_id, status, turn_id: own_turn },
        turn_id,
        history,
    );
    assert("- local_shell ["@ =~= "- "@ + "local_shell"@ + " ["@);
    if function_output_recorded(turn_id, history, id) {
        assert(line =~= "- local_shell ["@ + id + "]: output recorded"@ + " (reported status: "@
            + reported + ")"@);
    } else {
        assert(line =~= "- local_shell ["@ + id
            + "]: no output recorded - execution may be incomplete or its result may be unknown"@
            + " (reported status: "@ + reported + ")"@);
    }
}

/// The line of a web search or of the generation of an image says what status it reports, and
/// depends on nothing else.
pub proof fn lemma_status_line(
    searched: Option<String>,
    generated: String,
    own_turn: Option<String>,
    turn_id: Seq<char>,
    history: Seq<ResponseItem>,
)
    ensures
        searched matches Some(status) ==> entry(
            ResponseItem::WebSearchCall { status: searched, turn_id: own_turn },
            turn_id,
            history,
        ) == "- web_search: "@ + status@,
        searched is None ==> entry(
            ResponseItem::WebSearchCall { status: searched, turn_id: own_turn },
            turn_id,
            history,
        ) == "- web_search: status unknown"@,
        entry(
            ResponseItem::ImageGenerationCall { status: generated, turn_id: own_turn },
            turn_id,
            history,
        ) == "- image_generation: "@ + generated@,
{
    reveal_strlit("- web_search: status unknown");
    reveal_strlit("- web_search: ");
    reveal_strlit("status unknown");
    assert("- web_search: status unknown"@ =~= "- web_search: "@ + "status unknown"@);
}

/// An item is among the tool calls of a turn, after those before it, if and only if it is a call of
/// a tool, of whatever kind, and its metadata names the turn.
pub proof fn lemma_turn_calls_item_by_item(
    turn_id: Seq<char>,
    history: Seq<ResponseItem>,
    item: ResponseItem,
)
    ensures
        turn_calls(turn_id, seq![]) == Seq::<ResponseItem>::empty(),
        ({
            let is_own_call = {
                ||| item matches ResponseItem::FunctionCall { turn_id: Some(turn), .. } && turn@
                    == turn_id
                ||| item matches ResponseItem::CustomToolCall { turn_id: Some(turn), .. } && turn@
                    == turn_id
                ||| item matches ResponseItem::ToolSearchCall { turn_id: Some(turn), .. } && turn@
                    == turn_id
                ||| item matches ResponseItem::LocalShellCall { turn_id: Some(turn), .. } && turn@
                    == turn_id
                ||| item matches ResponseItem::WebSearchCall { turn_id: Some(turn), .. } && turn@
                    == turn_id
                ||| item matches ResponseItem::ImageGenerationCall { turn_id: Some(turn), .. }
                    && turn@ == turn_id
            };
            &&& is_own_call ==> turn_calls(turn_id, history.push(item)) == turn_calls(
                turn_id,
                history,
            ).push(item)
            &&& !is_own_call ==> turn_calls(turn_id, history.push(item)) == turn_calls(
                turn_id,
                history,
            )
        }),
{
    reveal(Seq::filter);
    assert(history.push(item).drop_last() =~= history);
    crate::history::lemma_item_belongs_to_the_turn_it_names(item, turn_id);
}

/// A summary is made of the lines of the turn's tool calls, in order. Without a call it says so. Up
/// to 32 calls have their lines in it, as far as they fit into 2048 bytes. Of more calls the first
/// 31 have, as far as they fit before a last line that says how many are left out.
pub proof fn lemma_summary_is_made_of_its_lines(turn_id: Seq<char>, history: Seq<ResponseItem>)
    requires
        history.len() <= usize::MAX,
    ensures
        ({
            let calls = turn_calls(turn_id, history);
            let all = Seq::new(calls.len(), |i: int| entry(calls[i], turn_id, history));
            let summary = tool_summary(turn_id, history);
            &&& calls.len() == 0 ==> summary
                == "- No tool calls were recorded in this turn before the failure."@
            &&& 1 <= calls.len() <= 32 ==> text::keeps_what_fits(text::joined(all), 2048, summary)
            &&& calls.len() > 32 ==> {
                let last = "\n- "@ + text::decimal((calls.len() - 31) as nat)
                    + " additional tool calls omitted by the summary limit."@;
                &&& last.is_suffix_of(summary)
                &&& text::keeps_what_fits(
                    text::joined(all.take(31)),
                    (2048 - vstd::utf8::encode_utf8(last).len()) as nat,
                    summary.take(summary.len() - last.len()),
                )
                &&& vstd::utf8::encode_utf8(last).len() <= 128
            }
        }),
{
    let calls = turn_calls(turn_id, history);
    let all = Seq::new(calls.len(), |i: int| entry(calls[i], turn_id, history));
    let shown = shown_entries(turn_id, history);
    let summary = tool_summary(turn_id, history);
    history.lemma_filter_len(
        |item: ResponseItem| item.in_turn(turn_id) && crate::history::tool_call(item),
    );
    if 1 <= calls.len() <= 32 {
        assert(shown =~= all);
        text::lemma_truncated_keeps_what_fits(text::joined(all), 2048);
    } else if calls.len() > 32 {
        assert(shown =~= all.take(31));
        let omitted = (calls.len() - 31) as nat;
        let omission = omission_line(omitted);
        let last = "\n- "@ + text::decimal(omitted)
            + " additional tool calls omitted by the summary limit."@;
        lemma_omission_line(omitted);
        reveal_strlit("\n- ");
        reveal_strlit("- ");
        assert(last =~= seq!['\n'] + omission);
        text::lemma_encode_concat(seq!['\n'], omission);
        text::lemma_utf8_len_of_character('\n');
        let limit = (2048 - text::utf8_len(last)) as nat;
        let head = text::truncated(text::joined(shown), limit);
        text::lemma_truncated_keeps_what_fits(text::joined(shown), limit);
        assert(summary =~= head + last);
        assert(summary.take(summary.len() - last.len()) =~= head);
        lemma_ends_in(head, last);
    }
}

} // verus!
