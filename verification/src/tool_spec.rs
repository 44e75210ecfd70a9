//! How the tools on a thread's failure handler present themselves to the model.

use vstd::prelude::*;
use vstd::string::*;

verus! {

/// The name of the tool that reads the handler.
pub const GET_TURN_FAILURE_HANDLER_TOOL_NAME: &'static str = "get_turn_failure_handler";

/// The name of the tool that writes the handler.
pub const SET_TURN_FAILURE_HANDLER_TOOL_NAME: &'static str = "set_turn_failure_handler";

/// The name of the tool that clears the handler.
pub const CLEAR_TURN_FAILURE_HANDLER_TOOL_NAME: &'static str = "clear_turn_failure_handler";

/// The type of a parameter.
#[derive(Clone, Copy, Debug, PartialEq, Eq)]
pub enum ParameterType {
    /// A text.
    Text,
    /// An integer.
    Integer,
}

/// A parameter of a tool.
#[derive(Debug, PartialEq, Eq)]
pub struct ToolParameter {
    /// The parameter's name.
    pub name: &'static str,
    /// The parameter's type.
    pub kind: ParameterType,
    /// What the parameter is for.
    pub description: &'static str,
}

/// What a [`ToolParameter`] says.
pub struct ToolParameterView {
    /// The parameter's name.
    pub name: Seq<char>,
    /// The parameter's type.
    pub kind: ParameterType,
    /// What the parameter is for.
    pub description: Seq<char>,
}

impl View for ToolParameter {
    type V = ToolParameterView;

    open spec fn view(&self) -> ToolParameterView {
        ToolParameterView {
            name: self.name@,
            kind: self.kind,
            description: self.description@,
        }
    }
}

/// The presentation of a function tool.
#[derive(Debug, PartialEq, Eq)]
pub struct ToolSpec {
    /// The tool's name.
    pub name: &'static str,
    /// What the tool is for.
    pub description: &'static str,
    /// Whether the model is held to the parameters' schema.
    pub strict: bool,
    /// Whether the tool is loaded only when it is searched for, where that is said.
    pub defer_loading: Option<bool>,
    /// The parameters, in the order of their names.
    pub parameters: Vec<ToolParameter>,
    /// The names of the parameters that a call must give.
    pub required: Vec<&'static str>,
    /// Whether a call may give other parameters too.
    pub additional_properties: bool,
    /// Whether the tool describes its output.
    pub has_output_schema: bool,
}

/// What a [`ToolSpec`] says.
pub struct ToolSpecView {
    /// The tool's name.
    pub name: Seq<char>,
    /// What the tool is for.
    pub description: Seq<char>,
    /// Whether the model is held to the parameters' schema.
    pub strict: bool,
    /// Whether the tool is loaded only when it is searched for, where that is said.
    pub defer_loading: Option<bool>,
    /// The parameters, in the order of their names.
    pub parameters: Seq<ToolParameterView>,
    /// The names of the parameters that a call must give.
    pub required: Seq<Seq<char>>,
    /// Whether a call may give other parameters too.
    pub additional_properties: bool,
    /// Whether the tool describes its output.
    pub has_output_schema: bool,
}

impl View for ToolSpec {
    type V = ToolSpecView;

    open spec fn view(&self) -> ToolSpecView {
        ToolSpecView {
            name: self.name@,
            description: self.description@,
            strict: self.strict,
            defer_loading: self.defer_loading,
            parameters: self.parameters@.map_values(|parameter: ToolParameter| parameter@),
            required: self.required@.map_values(|name: &'static str| name@),
            additional_properties: self.additional_properties,
            has_output_schema: self.has_output_schema,
        }
    }
}

/// The presentation of a tool with these parameters, no others being allowed.
pub open spec fn closed_tool(
    name: Seq<char>,
    description: Seq<char>,
    parameters: Seq<ToolParameterView>,
    required: Seq<Seq<char>>,
) -> ToolSpecView {
    ToolSpecView {
        name,
        description,
        strict: false,
        defer_loading: None,
        parameters,
        required,
        additional_properties: false,
        has_output_schema: false,
    }
}

/// The presentation of the tool that reads the handler.
pub open spec fn get_tool() -> ToolSpecView {
    closed_tool(
        GET_TURN_FAILURE_HANDLER_TOOL_NAME@,
        "Get the user-configured instructions that run after a terminal model turn failure."@,
        seq![],
        seq![],
    )
}

/// The presentation of the tool that writes the handler.
pub open spec fn set_tool() -> ToolSpecView {
    closed_tool(
        SET_TURN_FAILURE_HANDLER_TOOL_NAME@,
        "Persist a failure handler for this thread only when the user explicitly asks to configure or change one. The handler is arbitrary prose, not a structured action list. After a terminal model request failure, Codex appends the failure and current-turn tool status to the existing history and continues the same logical turn with these instructions."@,
        seq![
            ToolParameterView {
                name: "instructions"@,
                kind: ParameterType::Text,
                description:
                    "The user's prose instructions to follow after a terminal model turn failure. Preserve the user's wording and intent."@,
            },
            ToolParameterView {
                name: "max_continuations"@,
                kind: ParameterType::Integer,
                description:
                    "Maximum same-turn handler invocations after repeated failures. Defaults to 1 and may be 1 through 8."@,
            },
        ],
        seq!["instructions"@],
    )
}

/// The presentation of the tool that clears the handler.
pub open spec fn clear_tool() -> ToolSpecView {
    closed_tool(
        CLEAR_TURN_FAILURE_HANDLER_TOOL_NAME@,
        "Clear this thread's persisted turn failure handler only when the user explicitly asks."@,
        seq![],
        seq![],
    )
}

/// Presents the tool that reads the handler.
pub fn get_tool_spec() -> (spec: ToolSpec)
    ensures
        spec@ == get_tool(),
{
    let presented = ToolSpec {
        name: GET_TURN_FAILURE_HANDLER_TOOL_NAME,
        description:
            "Get the user-configured instructions that run after a terminal model turn failure.",
        strict: false,
        defer_loading: None,
        parameters: Vec::new(),
        required: Vec::new(),
        additional_properties: false,
        has_output_schema: false,
    };
    proof {
        assert(presented@.parameters =~= get_tool().parameters);
        assert(presented@.required =~= get_tool().required);
    }
    presented
}

/// Presents the tool that writes the handler.
pub fn set_tool_spec() -> (spec: ToolSpec)
    ensures
        spec@ == set_tool(),
{
    let instructions = ToolParameter {
        name: "instructions",
        kind: ParameterType::Text,
        description:
            "The user's prose instructions to follow after a terminal model turn failure. Preserve the user's wording and intent.",
    };
    let max_continuations = ToolParameter {
        name: "max_continuations",
        kind: ParameterType::Integer,
        description:
            "Maximum same-turn handler invocations after repeated failures. Defaults to 1 and may be 1 through 8.",
    };
    let presented = ToolSpec {
        name: SET_TURN_FAILURE_HANDLER_TOOL_NAME,
        description:
            "Persist a failure handler for this thread only when the user explicitly asks to configure or change one. The handler is arbitrary prose, not a structured action list. After a terminal model request failure, Codex appends the failure and current-turn tool status to the existing history and continues the same logical turn with these instructions.",
        strict: false,
        defer_loading: None,
        parameters: vec![instructions, max_continuations],
        required: vec!["instructions"],
        additional_properties: false,
        has_output_schema: false,
    };
    proof {
        assert(presented@.parameters =~= set_tool().parameters);
        assert(presented@.required =~= set_tool().required);
    }
    presented
}

/// Presents the tool that clears the handler.
pub fn clear_tool_spec() -> (spec: ToolSpec)
    ensures
        spec@ == clear_tool(),
{
    let presented = ToolSpec {
        name: CLEAR_TURN_FAILURE_HANDLER_TOOL_NAME,
        description:
            "Clear this thread's persisted turn failure handler only when the user explicitly asks.",
        strict: false,
        defer_loading: None,
        parameters: Vec::new(),
        required: Vec::new(),
        additional_properties: false,
        has_output_schema: false,
    };
    proof {
        assert(presented@.parameters =~= clear_tool().parameters);
        assert(presented@.required =~= clear_tool().required);
    }
    presented
}

/// Whether `first` comes before `second` in the order of their characters.
pub open spec fn name_before(first: Seq<char>, second: Seq<char>) -> bool {
    exists|same: int|
        0 <= same <= first.len() && same < second.len() && first.take(same) == #[trigger] second.take(
            same,
        ) && (same < first.len() ==> first[same] < second[same])
}

/// Whether a tool lists its parameters in the order of their names, none of them twice.
pub open spec fn parameters_in_order(tool: ToolSpecView) -> bool {
    forall|i: int, j: int|
        0 <= i < j < tool.parameters.len() ==> name_before(
            (#[trigger] tool.parameters[i]).name,
            (#[trigger] tool.parameters[j]).name,
        )
}

/// Every tool lists its parameters in the order of their names, and requires only parameters that
/// it lists.
pub proof fn lemma_tools_are_well_formed()
    ensures
        forall|tool: ToolSpecView|
            tool == get_tool() || tool == set_tool() || tool == clear_tool() ==> {
                &&& #[trigger] parameters_in_order(tool)
                &&& forall|i: int|
                    0 <= i < tool.required.len() ==> exists|j: int|
                        0 <= j < tool.parameters.len() && (#[trigger] tool.parameters[j]).name
                            == #[trigger] tool.required[i]
            },
{
    let first = "instructions"@;
    let second = "max_continuations"@;
    assert(name_before(first, second)) by {
        reveal_strlit("instructions");
        reveal_strlit("max_continuations");
        assert(first.take(0) =~= second.take(0));
    }
    assert(set_tool().parameters[0].name == set_tool().required[0]);
}

/// How the tools present themselves: none is strict, deferred, open to other parameters or
/// described in its output; only the tool that writes takes parameters, a text that it requires and
/// an integer that it does not; and each says what it is for.
pub proof fn lemma_presentations(tool: ToolSpecView)
    requires
        tool == get_tool() || tool == set_tool() || tool == clear_tool(),
    ensures
        !tool.strict,
        tool.defer_loading is None,
        !tool.additional_properties,
        !tool.has_output_schema,
        tool.name != "set_turn_failure_handler"@ ==> tool.parameters.len() == 0
            && tool.required.len() == 0,
        tool.name == "set_turn_failure_handler"@ ==> {
            &&& tool.parameters.len() == 2
            &&& tool.parameters[0].name == "instructions"@
            &&& tool.parameters[0].kind == ParameterType::Text
            &&& tool.parameters[1].name == "max_continuations"@
            &&& tool.parameters[1].kind == ParameterType::Integer
            &&& tool.required == seq!["instructions"@]
            &&& tool.description
                == "Persist a failure handler for this thread only when the user explicitly asks to configure or change one. The handler is arbitrary prose, not a structured action list. After a terminal model request failure, Codex appends the failure and current-turn tool status to the existing history and continues the same logical turn with these instructions."@
        },
        tool.name == "get_turn_failure_handler"@ ==> tool.description
            == "Get the user-configured instructions that run after a terminal model turn failure."@,
        tool.name == "clear_turn_failure_handler"@ ==> tool.description
            == "Clear this thread's persisted turn failure handler only when the user explicitly asks."@,
        tool.name == "get_turn_failure_handler"@ || tool.name == "set_turn_failure_handler"@
            || tool.name == "clear_turn_failure_handler"@,
{
    reveal_strlit("get_turn_failure_handler");
    reveal_strlit("set_turn_failure_handler");
    reveal_strlit("clear_turn_failure_handler");
    assert(GET_TURN_FAILURE_HANDLER_TOOL_NAME@[0] == 'g');
    assert(SET_TURN_FAILURE_HANDLER_TOOL_NAME@[0] == 's');
    assert(CLEAR_TURN_FAILURE_HANDLER_TOOL_NAME@[0] == 'c');
}

} // verus!
