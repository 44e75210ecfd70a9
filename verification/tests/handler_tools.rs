use sqlx::sqlite::{SqlitePool, SqlitePoolOptions};
use turn_failure_handler::continuation::{
    ExtensionData, TurnFailureAttemptCounter, TurnFailureHandlerExtension, TurnFailureInput,
};
use turn_failure_handler::failure::{CodexErrorInfo, TurnFailureContinuation};
use turn_failure_handler::handler::{
    FunctionCallError, HandlerResponse, SetHandlerArgs, TurnFailureHandler,
    TurnFailureHandlerResponse, MAX_INSTRUCTIONS_BYTES,
};
use turn_failure_handler::store::{
    SqlStatement, SqlValue, StoreError, TurnFailureHandlerStore, DELETE_HANDLER, SELECT_HANDLER,
    UPSERT_HANDLER,
};
use turn_failure_handler::thread_id::ThreadId;
use turn_failure_handler::tool_spec::{
    ParameterType, ToolParameter, CLEAR_TURN_FAILURE_HANDLER_TOOL_NAME,
    GET_TURN_FAILURE_HANDLER_TOOL_NAME, SET_TURN_FAILURE_HANDLER_TOOL_NAME,
};
use turn_failure_handler::tools::{
    json_output, FailureHandlerTool, FailureHandlerToolKind, ToolStep,
};

const TABLE: &str = "CREATE TABLE IF NOT EXISTS turn_failure_handlers (thread_id TEXT PRIMARY KEY, instructions TEXT NOT NULL, max_continuations INTEGER NOT NULL, updated_at INTEGER NOT NULL)";

fn wait<F: std::future::Future>(future: F) -> F::Output {
    tokio::runtime::Builder::new_current_thread()
        .enable_all()
        .build()
        .unwrap()
        .block_on(future)
}

async fn open(name: &str) -> SqlitePool {
    let pool = SqlitePoolOptions::new()
        .max_connections(1)
        .connect(&format!("sqlite:file:{name}?mode=memory&cache=shared"))
        .await
        .unwrap();
    sqlx::query(TABLE).execute(&pool).await.unwrap();
    pool
}

async fn select(pool: &SqlitePool, statement: &SqlStatement) -> Option<(String, i64)> {
    let mut query = sqlx::query_as::<_, (String, i64)>(statement.sql);
    for value in &statement.parameters {
        query = match value {
            SqlValue::Text(text) => query.bind(text.clone()),
            SqlValue::Integer(number) => query.bind(*number),
        };
    }
    query.fetch_optional(pool).await.unwrap()
}

async fn execute(pool: &SqlitePool, statement: &SqlStatement) -> u64 {
    let mut query = sqlx::query(statement.sql);
    for value in &statement.parameters {
        query = match value {
            SqlValue::Text(text) => query.bind(text.clone()),
            SqlValue::Integer(number) => query.bind(*number),
        };
    }
    query.execute(pool).await.unwrap().rows_affected()
}

fn thread(text: &str) -> Option<ThreadId> {
    Some(ThreadId::from_canonical(text.to_string()))
}

fn extension() -> TurnFailureHandlerExtension {
    TurnFailureHandlerExtension {
        store: TurnFailureHandlerStore,
    }
}

fn tools(text: &str) -> Vec<FailureHandlerTool> {
    extension().tools(&thread(text))
}

fn tool_by_name<'a>(tools: &'a [FailureHandlerTool], name: &str) -> &'a FailureHandlerTool {
    tools
        .iter()
        .find(|tool| tool.tool_name() == name)
        .expect("requested tool should exist")
}

fn set_args(instructions: &str, max_continuations: Option<u32>) -> SetHandlerArgs {
    SetHandlerArgs {
        instructions: instructions.to_string(),
        max_continuations,
    }
}

fn parsed(arguments: &str) -> SetHandlerArgs {
    let value: serde_json::Value = serde_json::from_str(arguments).unwrap();
    SetHandlerArgs {
        instructions: value["instructions"].as_str().unwrap().to_string(),
        max_continuations: value["max_continuations"].as_u64().map(|most| most as u32),
    }
}

async fn call(
    pool: &SqlitePool,
    tool: &FailureHandlerTool,
    arguments: &str,
) -> Result<HandlerResponse, FunctionCallError> {
    let step = match tool.handle(arguments) {
        ToolStep::ParseSetArguments(text) => {
            assert_eq!(text, arguments);
            tool.set(Ok(parsed(&text)))
        }
        step => step,
    };
    match step {
        ToolStep::Select(statement) => tool.get_reply(Ok(select(pool, &statement).await)),
        ToolStep::Upsert(statement, handler) => {
            execute(pool, &statement).await;
            tool.set_reply(handler, Ok(()))
        }
        ToolStep::Delete(statement) => tool.clear_reply(Ok(execute(pool, &statement).await)),
        ToolStep::Fail(error) => Err(error),
        ToolStep::ParseSetArguments(_) => panic!("the arguments were parsed already"),
    }
}

async fn stored(pool: &SqlitePool, text: &str) -> Option<TurnFailureHandler> {
    let store = TurnFailureHandlerStore;
    let statement = store.get(&thread(text).unwrap());
    store
        .get_reply(Ok(select(pool, &statement).await))
        .unwrap()
}

async fn continuation(
    pool: &SqlitePool,
    text: &str,
    counter: &mut TurnFailureAttemptCounter,
) -> Option<TurnFailureContinuation> {
    let statement = extension().lookup(&thread(text))?;
    extension().continuation(Ok(select(pool, &statement).await), counter)
}

fn told(text: &str) -> FunctionCallError {
    FunctionCallError::RespondToModel(text.to_string())
}

#[test]
fn configured_prose_is_persistent_and_bounded_per_turn() {
    wait(async {
        let thread_id = "11111111-1111-4111-8111-111111111111";
        let prose = "Email me a concise diagnosis, then delegate any approved follow-up exactly as I described.";
        let pool = open("configured_prose").await;
        let tools = tools(thread_id);
        let set_tool = tool_by_name(&tools, SET_TURN_FAILURE_HANDLER_TOOL_NAME);
        let arguments = format!(r#"{{"instructions": "{prose}", "max_continuations": 2}}"#);
        call(&pool, set_tool, &arguments).await.unwrap();

        let handler = TurnFailureHandler {
            instructions: prose.to_string(),
            max_continuations: 2,
        };
        assert_eq!(stored(&pool, thread_id).await, Some(handler.clone()));
        assert_eq!(
            stored(&pool, "22222222-2222-4222-8222-222222222222").await,
            None
        );

        let mut counter = TurnFailureAttemptCounter::default();
        let first = continuation(&pool, thread_id, &mut counter).await;
        let second = continuation(&pool, thread_id, &mut counter).await;
        let exhausted = continuation(&pool, thread_id, &mut counter).await;
        assert_eq!(first.as_ref().map(|value| value.attempt), Some(1));
        assert_eq!(second.as_ref().map(|value| value.attempt), Some(2));
        assert_eq!(exhausted, None);

        let mut next_counter = TurnFailureAttemptCounter::default();
        assert_eq!(
            continuation(&pool, thread_id, &mut next_counter)
                .await
                .map(|value| value.attempt),
            Some(1)
        );

        let reopened = open("configured_prose").await;
        assert_eq!(stored(&reopened, thread_id).await, Some(handler));
    });
}

#[test]
fn get_and_clear_tools_report_persisted_state() {
    wait(async {
        let pool = open("get_and_clear").await;
        let tools = tools("33333333-3333-4333-8333-333333333333");
        let set_tool = tool_by_name(&tools, SET_TURN_FAILURE_HANDLER_TOOL_NAME);
        let get_tool = tool_by_name(&tools, GET_TURN_FAILURE_HANDLER_TOOL_NAME);
        let clear_tool = tool_by_name(&tools, CLEAR_TURN_FAILURE_HANDLER_TOOL_NAME);
        call(&pool, set_tool, r#"{"instructions": "do nothing"}"#)
            .await
            .unwrap();

        assert_eq!(
            call(&pool, get_tool, "{}").await,
            Ok(HandlerResponse {
                handler: Some(TurnFailureHandlerResponse {
                    instructions: "do nothing".to_string(),
                    max_continuations: 1,
                }),
                cleared: None,
            })
        );
        assert_eq!(
            call(&pool, clear_tool, "{}").await,
            Ok(HandlerResponse {
                handler: None,
                cleared: Some(true),
            })
        );
        assert_eq!(
            call(&pool, get_tool, "{}").await,
            Ok(HandlerResponse {
                handler: None,
                cleared: None,
            })
        );
        assert_eq!(
            call(&pool, clear_tool, "{}").await,
            Ok(HandlerResponse {
                handler: None,
                cleared: Some(false),
            })
        );
    });
}

#[test]
fn set_tool_rejects_invalid_bounds() {
    wait(async {
        let thread_id = "44444444-4444-4444-8444-444444444444";
        let pool = open("invalid_bounds").await;
        let tools = tools(thread_id);
        let set_tool = tool_by_name(&tools, SET_TURN_FAILURE_HANDLER_TOOL_NAME);

        for (arguments, expected) in [
            (
                r#"{"instructions": "   "}"#.to_string(),
                "instructions must not be empty",
            ),
            (
                format!(r#"{{"instructions": "{}"}}"#, "x".repeat(6 * 1024 + 1)),
                "instructions must be at most 6144 bytes",
            ),
            (
                r#"{"instructions": "handle", "max_continuations": 0}"#.to_string(),
                "max_continuations must be between 1 and 8",
            ),
            (
                r#"{"instructions": "handle", "max_continuations": 9}"#.to_string(),
                "max_continuations must be between 1 and 8",
            ),
        ] {
            let error = match call(&pool, set_tool, &arguments).await {
                Ok(_) => panic!("invalid handler configuration was accepted"),
                Err(error) => error,
            };
            assert_eq!(error, told(expected));
        }

        assert_eq!(stored(&pool, thread_id).await, None);
    });
}

#[test]
fn a_second_handler_replaces_the_first() {
    wait(async {
        let pool = open("replaces").await;
        let tools = tools("t");
        let set_tool = tool_by_name(&tools, SET_TURN_FAILURE_HANDLER_TOOL_NAME);
        for (text, most) in [("one", 1), ("two", 8)] {
            let arguments =
                format!(r#"{{"instructions": "{text}", "max_continuations": {most}}}"#);
            call(&pool, set_tool, &arguments).await.unwrap();
        }
        assert_eq!(
            stored(&pool, "t").await,
            Some(TurnFailureHandler {
                instructions: "two".to_string(),
                max_continuations: 8,
            })
        );
    });
}

#[test]
fn instructions_are_trimmed_before_they_are_measured() {
    let longest = "x".repeat(MAX_INSTRUCTIONS_BYTES);
    let handler = set_args(&format!(" \n{longest}\t "), Some(8))
        .into_handler()
        .unwrap();
    assert_eq!(handler.instructions, longest);
    assert_eq!(handler.max_continuations, 8);
    assert_eq!(
        set_args(" a b ", None).into_handler(),
        Ok(TurnFailureHandler {
            instructions: "a b".to_string(),
            max_continuations: 1,
        })
    );
}

#[test]
fn the_first_fault_of_a_request_is_told() {
    assert_eq!(
        set_args("", Some(0)).into_handler(),
        Err(told("instructions must not be empty"))
    );
    assert_eq!(
        set_args(&"é".repeat(3073), Some(9)).into_handler(),
        Err(told("instructions must be at most 6144 bytes"))
    );
}

#[test]
fn arguments_that_are_not_json_are_told() {
    let tools = tools("t");
    for name in [
        GET_TURN_FAILURE_HANDLER_TOOL_NAME,
        CLEAR_TURN_FAILURE_HANDLER_TOOL_NAME,
    ] {
        let tool = tool_by_name(&tools, name);
        let error = serde_json::from_str::<serde_json::Value>("{").unwrap_err();
        assert_eq!(
            tool.handle("{"),
            ToolStep::Fail(told(&format!(
                "invalid turn failure handler arguments: {error}"
            )))
        );
    }
    assert_eq!(
        tool_by_name(&tools, GET_TURN_FAILURE_HANDLER_TOOL_NAME).handle("[1, 2]"),
        ToolStep::Select(SqlStatement {
            sql: SELECT_HANDLER,
            parameters: vec![SqlValue::Text("t".to_string())],
        })
    );
    assert_eq!(
        tool_by_name(&tools, CLEAR_TURN_FAILURE_HANDLER_TOOL_NAME).handle("null"),
        ToolStep::Delete(SqlStatement {
            sql: DELETE_HANDLER,
            parameters: vec![SqlValue::Text("t".to_string())],
        })
    );
    assert_eq!(
        tool_by_name(&tools, SET_TURN_FAILURE_HANDLER_TOOL_NAME)
            .set(Err("missing field `instructions`".to_string())),
        ToolStep::Fail(told(
            "invalid turn failure handler arguments: missing field `instructions`"
        ))
    );
}

#[test]
fn failures_of_the_storage_are_told() {
    let tools = tools("t");
    let tool = &tools[0];
    let text = "turn failure handler storage failed: disk full";
    assert_eq!(tool.get_reply(Err("disk full".to_string())), Err(told(text)));
    assert_eq!(
        tool.clear_reply(Err("disk full".to_string())),
        Err(told(text))
    );
    let handler = TurnFailureHandler {
        instructions: "a".to_string(),
        max_continuations: 1,
    };
    assert_eq!(
        tool.set_reply(handler, Err("disk full".to_string())),
        Err(told(text))
    );
    assert_eq!(json_output(Ok(3)), Ok(3));
    assert_eq!(
        json_output::<u8>(Err("no output".to_string())),
        Err(told("no output"))
    );
}

#[test]
fn a_row_out_of_range_is_an_error() {
    let store = TurnFailureHandlerStore;
    for number in [-1, 4294967296] {
        let error = store
            .get_reply(Ok(Some(("a".to_string(), number))))
            .unwrap_err();
        assert_eq!(error, StoreError::MaxContinuationsOutOfRange);
        assert_eq!(
            error.message(),
            u32::try_from(number).unwrap_err().to_string()
        );
    }
    assert_eq!(
        store.get_reply(Ok(Some(("a".to_string(), 4294967295)))),
        Ok(Some(TurnFailureHandler {
            instructions: "a".to_string(),
            max_continuations: 4294967295,
        }))
    );
    assert_eq!(
        store.get_reply(Err("locked".to_string())),
        Err(StoreError::Database("locked".to_string()))
    );
    assert_eq!(
        store.set_reply(Err("locked".to_string())),
        Err(StoreError::Database("locked".to_string()))
    );
    assert_eq!(
        store.clear_reply(Err("locked".to_string())),
        Err(StoreError::Database("locked".to_string()))
    );
}

#[test]
fn a_handler_is_written_with_the_time() {
    let store = TurnFailureHandlerStore;
    let thread_id = thread("t").unwrap();
    let handler = TurnFailureHandler {
        instructions: "a".to_string(),
        max_continuations: 3,
    };
    let statement = store.set_at(&thread_id, &handler, 17);
    assert_eq!(
        statement,
        SqlStatement {
            sql: UPSERT_HANDLER,
            parameters: vec![
                SqlValue::Text("t".to_string()),
                SqlValue::Text("a".to_string()),
                SqlValue::Integer(3),
                SqlValue::Integer(17),
            ],
        }
    );
    assert_eq!(
        UPSERT_HANDLER,
        r#"
INSERT INTO turn_failure_handlers (thread_id, instructions, max_continuations, updated_at)
VALUES (?, ?, ?, ?)
ON CONFLICT(thread_id) DO UPDATE SET
    instructions = excluded.instructions,
    max_continuations = excluded.max_continuations,
    updated_at = excluded.updated_at
            "#
    );
    let before = chrono::Utc::now().timestamp();
    let written = store.set(&thread_id, &handler);
    let after = chrono::Utc::now().timestamp();
    match written.parameters[3] {
        SqlValue::Integer(updated_at) => assert!(before <= updated_at && updated_at <= after),
        SqlValue::Text(_) => panic!("the time is a number"),
    }
    let tools = tools("t");
    assert_eq!(
        tools[1].set_at(Ok(set_args("a", Some(3))), 17),
        ToolStep::Upsert(statement, handler)
    );
}

#[test]
fn a_failure_without_a_handler_is_not_counted() {
    let mut counter = TurnFailureAttemptCounter::default();
    assert!(counter.can_count());
    assert_eq!(extension().continuation(Ok(None), &mut counter), None);
    assert_eq!(
        extension().continuation(Err("locked".to_string()), &mut counter),
        None
    );
    assert_eq!(
        extension().continuation(Ok(Some(("a".to_string(), -1))), &mut counter),
        None
    );
    assert_eq!(counter, TurnFailureAttemptCounter::default());
    assert_eq!(
        extension().continuation(Ok(Some(("a".to_string(), 1))), &mut counter),
        Some(TurnFailureContinuation {
            instructions: "a".to_string(),
            attempt: 1,
            max_continuations: 1,
        })
    );
    assert_eq!(
        extension().continuation(Ok(Some(("a".to_string(), 1))), &mut counter),
        None
    );
    assert_eq!(
        extension()
            .continuation(Ok(Some(("a".to_string(), 8))), &mut counter)
            .map(|value| value.attempt),
        Some(3)
    );
}

#[test]
fn a_failure_is_handled_for_its_thread() {
    let session = ExtensionData::new("session");
    let thread_store = ExtensionData::new("thread");
    let turn = ExtensionData::new("turn");
    let input = TurnFailureInput {
        turn_id: turn.level_id(),
        error: CodexErrorInfo::CyberPolicy,
        message: "blocked",
        session_store: &session,
        thread_store: &thread_store,
        turn_store: &turn,
    };
    assert_eq!(extension().thread_of(&input), "thread");
    assert_eq!(extension().lookup(&None), None);
    assert!(extension().tools(&None).is_empty());
}

#[test]
fn a_thread_gets_a_tool_of_each_kind() {
    let tools = tools("t");
    assert_eq!(
        tools.iter().map(|tool| tool.kind).collect::<Vec<_>>(),
        vec![
            FailureHandlerToolKind::Get,
            FailureHandlerToolKind::Configure,
            FailureHandlerToolKind::Clear,
        ]
    );
    assert_eq!(
        tools.iter().map(|tool| tool.tool_name()).collect::<Vec<_>>(),
        vec![
            "get_turn_failure_handler",
            "set_turn_failure_handler",
            "clear_turn_failure_handler",
        ]
    );
    for tool in &tools {
        let presented = tool.spec();
        assert_eq!(presented.name, tool.tool_name());
        assert!(!presented.strict);
        assert_eq!(presented.defer_loading, None);
        assert!(!presented.additional_properties);
        assert!(!presented.has_output_schema);
    }
    assert_eq!(
        tools[0].spec().description,
        "Get the user-configured instructions that run after a terminal model turn failure."
    );
    assert_eq!(
        tools[2].spec().description,
        "Clear this thread's persisted turn failure handler only when the user explicitly asks."
    );
    assert!(tools[0].spec().parameters.is_empty() && tools[0].spec().required.is_empty());
    assert!(tools[2].spec().parameters.is_empty() && tools[2].spec().required.is_empty());
    let presented = tools[1].spec();
    assert_eq!(presented.required, vec!["instructions"]);
    assert_eq!(
        presented.parameters,
        vec![
            ToolParameter {
                name: "instructions",
                kind: ParameterType::Text,
                description: "The user's prose instructions to follow after a terminal model turn failure. Preserve the user's wording and intent.",
            },
            ToolParameter {
                name: "max_continuations",
                kind: ParameterType::Integer,
                description: "Maximum same-turn handler invocations after repeated failures. Defaults to 1 and may be 1 through 8.",
            },
        ]
    );
}
