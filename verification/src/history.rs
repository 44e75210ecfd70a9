//! The items of a thread's history, as far as failure handling reads them.

use vstd::prelude::*;
use vstd::string::*;

verus! {

/// The status that a local shell call reports.
#[derive(Debug, PartialEq, Eq)]
pub enum LocalShellStatus {
    /// The call has completed.
    Completed,
    /// Any other status, by the name that its debug form shows.
    Named(String),
}

impl LocalShellStatus {
    /// The debug form of the status.
    pub open spec fn debug_form(&self) -> Seq<char> {
        match self {
            LocalShellStatus::Completed => "Completed"@,
            LocalShellStatus::Named(name) => name@,
        }
    }

    /// The debug form of the status.
    pub fn debug_text(&self) -> (text: String)
        ensures
            text@ == self.debug_form(),
            match *self {
                LocalShellStatus::Completed => text@ == "Completed"@,
                LocalShellStatus::Named(name) => text@ == name@,
            },
    {
        match self {
            LocalShellStatus::Completed => "Completed".to_owned(),
            LocalShellStatus::Named(name) => name.clone(),
        }
    }
}

/// One item of a thread's history.
///
/// `turn_id` is the turn that the item's metadata names, where it names one.
#[derive(Debug, PartialEq, Eq)]
#[allow(inconsistent_fields)]
pub enum ResponseItem {
    /// A call of a function tool.
    FunctionCall {
        name: String,
        namespace: Option<String>,
        call_id: String,
        turn_id: Option<String>,
    },
    /// The output of a function tool.
    FunctionCallOutput { call_id: Option<String>, turn_id: Option<String> },
    /// A call of a custom tool.
    CustomToolCall {
        name: String,
        namespace: Option<String>,
        call_id: String,
        turn_id: Option<String>,
    },
    /// The output of a custom tool.
    CustomToolCallOutput { call_id: String, turn_id: Option<String> },
    /// A search for tools.
    ToolSearchCall { call_id: Option<String>, status: Option<String>, turn_id: Option<String> },
    /// What a search for tools found.
    ToolSearchOutput { call_id: Option<String>, turn_id: Option<String> },
    /// A call of the local shell.
    LocalShellCall { call_id: Option<String>, status: LocalShellStatus, turn_id: Option<String> },
    /// A web search.
    WebSearchCall { status: Option<String>, turn_id: Option<String> },
    /// The generation of an image.
    ImageGenerationCall { status: String, turn_id: Option<String> },
    /// An item of any other kind.
    Other { turn_id: Option<String> },
}

/// The text of an optional string.
pub open spec fn optional_text(text: Option<String>) -> Option<Seq<char>> {
    match text {
        Some(text) => Some(text@),
        None => None,
    }
}

/// Tells whether `text` is there and is `wanted`.
pub fn is_text(text: &Option<String>, wanted: &String) -> (yes: bool)
    ensures
        yes == (optional_text(*text) == Some(wanted@)),
        yes == (text matches Some(found) && found@ == wanted@),
{
    match text {
        Some(text) => *text == *wanted,
        None => false,
    }
}

impl ResponseItem {
    /// The turn that the item belongs to.
    pub open spec fn spec_turn_id(self) -> Option<String> {
        match self {
            ResponseItem::FunctionCall { turn_id, .. } => turn_id,
            ResponseItem::FunctionCallOutput { turn_id, .. } => turn_id,
            ResponseItem::CustomToolCall { turn_id, .. } => turn_id,
            ResponseItem::CustomToolCallOutput { turn_id, .. } => turn_id,
            ResponseItem::ToolSearchCall { turn_id, .. } => turn_id,
            ResponseItem::ToolSearchOutput { turn_id, .. } => turn_id,
            ResponseItem::LocalShellCall { turn_id, .. } => turn_id,
            ResponseItem::WebSearchCall { turn_id, .. } => turn_id,
            ResponseItem::ImageGenerationCall { turn_id, .. } => turn_id,
            ResponseItem::Other { turn_id } => turn_id,
        }
    }

    /// Whether the item belongs to the turn `turn_id`.
    pub open spec fn in_turn(self, turn_id: Seq<char>) -> bool {
        optional_text(self.spec_turn_id()) == Some(turn_id)
    }

    /// The turn that the item belongs to.
    pub fn turn_id(&self) -> (turn_id: &Option<String>)
        ensures
            *turn_id == self.spec_turn_id(),
    {
        match self {
            ResponseItem::FunctionCall { turn_id, .. } => turn_id,
            ResponseItem::FunctionCallOutput { turn_id, .. } => turn_id,
            ResponseItem::CustomToolCall { turn_id, .. } => turn_id,
            ResponseItem::CustomToolCallOutput { turn_id, .. } => turn_id,
            ResponseItem::ToolSearchCall { turn_id, .. } => turn_id,
            ResponseItem::ToolSearchOutput { turn_id, .. } => turn_id,
            ResponseItem::LocalShellCall { turn_id, .. } => turn_id,
            ResponseItem::WebSearchCall { turn_id, .. } => turn_id,
            ResponseItem::ImageGenerationCall { turn_id, .. } => turn_id,
            ResponseItem::Other { turn_id } => turn_id,
        }
    }

    /// The call whose output the item records, where it is the output of a function tool or of a
    /// custom tool.
    pub open spec fn function_output_id(self) -> Option<Seq<char>> {
        match self {
            ResponseItem::FunctionCallOutput { call_id, .. } => optional_text(call_id),
            ResponseItem::CustomToolCallOutput { call_id, .. } => Some(call_id@),
            _ => None,
        }
    }

    /// The search whose output the item records, where it is what a search for tools found.
    pub open spec fn search_output_id(self) -> Option<Seq<char>> {
        match self {
            ResponseItem::ToolSearchOutput { call_id, .. } => optional_text(call_id),
            _ => None,
        }
    }

    /// Tells whether the item is the output of the function or custom tool call `call_id`.
    pub fn is_function_output_of(&self, call_id: &String) -> (yes: bool)
        ensures
            yes == (self.function_output_id() == Some(call_id@)),
    {
        match self {
            ResponseItem::FunctionCallOutput { call_id: id, .. } => is_text(id, call_id),
            ResponseItem::CustomToolCallOutput { call_id: id, .. } => *id == *call_id,
            _ => false,
        }
    }

    /// Tells whether the item is the output of the search `call_id`.
    pub fn is_search_output_of(&self, call_id: &String) -> (yes: bool)
        ensures
            yes == (self.search_output_id() == Some(call_id@)),
    {
        match self {
            ResponseItem::ToolSearchOutput { call_id: id, .. } => is_text(id, call_id),
            _ => false,
        }
    }
}

/// Whether an item is a call of a tool.
pub open spec fn tool_call(item: ResponseItem) -> bool {
    item is FunctionCall || item is CustomToolCall || item is ToolSearchCall
        || item is LocalShellCall || item is WebSearchCall || item is ImageGenerationCall
}

/// Tells whether `item` is a call of a tool.
pub fn is_tool_call(item: &ResponseItem) -> (yes: bool)
    ensures
        yes == tool_call(*item),
{
    match item {
        ResponseItem::FunctionCall { .. } => true,
        ResponseItem::CustomToolCall { .. } => true,
        ResponseItem::ToolSearchCall { .. } => true,
        ResponseItem::LocalShellCall { .. } => true,
        ResponseItem::WebSearchCall { .. } => true,
        ResponseItem::ImageGenerationCall { .. } => true,
        _ => false,
    }
}

/// An item belongs to a turn if and only if its metadata names that turn, whatever kind of item it
/// is; an item whose metadata names none belongs to no turn.
pub proof fn lemma_item_belongs_to_the_turn_it_names(item: ResponseItem, turn_id: Seq<char>)
    ensures
        item.in_turn(turn_id) <==> {
            ||| item matches ResponseItem::FunctionCall { turn_id: Some(turn), .. } && turn@
                == turn_id
            ||| item matches ResponseItem::FunctionCallOutput { turn_id: Some(turn), .. } && turn@
                == turn_id
            ||| item matches ResponseItem::CustomToolCall { turn_id: Some(turn), .. } && turn@
                == turn_id
            ||| item matches ResponseItem::CustomToolCallOutput { turn_id: Some(turn), .. } && turn@
                == turn_id
            ||| item matches ResponseItem::ToolSearchCall { turn_id: Some(turn), .. } && turn@
                == turn_id
            ||| item matches ResponseItem::ToolSearchOutput { turn_id: Some(turn), .. } && turn@
                == turn_id
            ||| item matches ResponseItem::LocalShellCall { turn_id: Some(turn), .. } && turn@
                == turn_id
            ||| item matches ResponseItem::WebSearchCall { turn_id: Some(turn), .. } && turn@
                == turn_id
            ||| item matches ResponseItem::ImageGenerationCall { turn_id: Some(turn), .. } && turn@
                == turn_id
            ||| item matches ResponseItem::Other { turn_id: Some(turn) } && turn@ == turn_id
        },
        item.spec_turn_id() is None ==> !item.in_turn(turn_id),
        item.spec_turn_id() matches Some(turn) ==> item.in_turn(turn@),
{
}

/// Only the output of a function or custom tool counts as the output of such a call, only what a
/// search found as that of a search, and each for the call that it names alone; no item is a tool
/// call and an output at once.
pub proof fn lemma_output_is_of_the_call_it_names(item: ResponseItem, call_id: Seq<char>)
    ensures
        item.function_output_id() == Some(call_id) <==> {
            ||| item matches ResponseItem::FunctionCallOutput { call_id: Some(id), .. } && id@
                == call_id
            ||| item matches ResponseItem::CustomToolCallOutput { call_id: id, .. } && id@
                == call_id
        },
        item.search_output_id() == Some(call_id) <==> (
        item matches ResponseItem::ToolSearchOutput { call_id: Some(id), .. } && id@ == call_id),
        tool_call(item) ==> item.function_output_id() is None && item.search_output_id() is None,
        !tool_call(item) <==> item is FunctionCallOutput || item is CustomToolCallOutput
            || item is ToolSearchOutput || item is Other,
{
}

} // verus!
