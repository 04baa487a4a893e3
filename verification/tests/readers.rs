use autogen_rust::envelope::ActorContext;
use autogen_rust::envelope::MessageEnvelope;
use autogen_rust::exec_python::extract_code;
use autogen_rust::exec_python::extract_code_blocks;
use autogen_rust::json::parse_json;
use autogen_rust::llama::CompletionUsage;
use autogen_rust::llama::LlamaResponseError;
use autogen_rust::llama::Role;
use autogen_rust::llama::Task;
use autogen_rust::llama::llama_utils::ExtractError;
use autogen_rust::llama::llama_utils::PlanningTask;
use autogen_rust::llama::llama_utils::RepairError;
use autogen_rust::llama_structs::Choice;
use autogen_rust::llama_structs::Content;
use autogen_rust::llama_structs::JsonStr;
use autogen_rust::llama_structs::extract_tool_call_json;
use autogen_rust::llama_structs::output_llama_response;
use autogen_rust::llama_structs::pretty_print;
use autogen_rust::pattern::all_matches;
use autogen_rust::pattern::first_match;
use autogen_rust::pattern::group;
use autogen_rust::text::list_items;
use autogen_rust::text::split_char;
use autogen_rust::text::strip_char;
use autogen_rust::text::trimmed_pieces;
use autogen_rust::utils::captured;
use autogen_rust::utils::key_points;
use autogen_rust::utils::parse_next_move_and_;
use autogen_rust::utils::parse_planning_sub_tasks;
use autogen_rust::webscraper_hook::first_snippet;
use autogen_rust::webscraper_hook::page_text_address;
use autogen_rust::webscraper_hook::search_address;

fn identity(text: &str) -> Result<String, RepairError> {
    Ok(text.to_string())
}

fn no_repair(_text: &str) -> Result<String, RepairError> {
    Err(RepairError::Io("no repair tool".to_string()))
}

fn usage() -> CompletionUsage {
    CompletionUsage { prompt_tokens: 1, completion_tokens: 2, total_tokens: 3 }
}

fn choice(content: &str) -> Option<Choice> {
    Some(Choice { role: Role::Assistant, content: Some(content.to_string()) })
}

#[test]
fn patterns_give_their_groups() {
    let found = first_match("(a+)(b)?(c)", "xx aac yy").unwrap().unwrap();
    assert_eq!(found, vec![Some("aac".to_string()), Some("aa".to_string()), None, Some("c".to_string())]);
    assert_eq!(group(&found, 0), Some(&"aac".to_string()));
    assert_eq!(group(&found, 2), None);
    assert_eq!(group(&found, 3), Some(&"c".to_string()));
    assert_eq!(group(&found, 4), None);
    assert_eq!(first_match("a", "bbb"), Ok(None));
    assert!(first_match("(", "bbb").is_err());
    assert!(all_matches("(", "bbb").is_err());
    let all = all_matches("(\\d)(x)?", "1 2x 3").unwrap();
    assert_eq!(
        all,
        vec![
            vec![Some("1".to_string()), Some("1".to_string()), None],
            vec![Some("2x".to_string()), Some("2".to_string()), Some("x".to_string())],
            vec![Some("3".to_string()), Some("3".to_string()), None],
        ]
    );
    assert_eq!(captured("b(.)", "abc", 1), "c");
    assert_eq!(captured("b(.)", "abc", 0), "bc");
    assert_eq!(captured("b(.)", "abc", 2), "");
    assert_eq!(captured("z", "abc", 0), "");
    assert_eq!(captured("(", "abc", 0), "");
}

#[test]
fn texts_are_split_and_stripped() {
    assert_eq!(split_char("a,b,,c", ','), "a,b,,c".split(',').collect::<Vec<_>>());
    assert_eq!(split_char("", ','), vec![""]);
    assert_eq!(split_char(",", ','), vec!["", ""]);
    assert_eq!(split_char("é,ü", ','), vec!["é", "ü"]);
    assert_eq!(split_char("abc", ','), vec!["abc"]);
    assert_eq!(split_char(",a,", ','), vec!["", "a", ""]);
    for s in ["", "\"", "\"\"", "\"a\"", "a\"b", "\"\"a\"b\"\"", "é\""] {
        assert_eq!(strip_char(s, '"'), s.trim_matches('"'));
    }
    assert_eq!(key_points(""), Vec::<String>::new());
    assert_eq!(key_points("\"a\", \"b c\" ,d"), vec!["a", "b c", "d"]);
    assert_eq!(key_points(" "), vec![""]);
}

#[test]
fn lists_are_cut_at_commas() {
    for s in ["", " ", "a", "a, b ,c", ",a,, b ,", " 1 ,\t2\n", ",,,", "x y , z"] {
        let expected: Vec<&str> =
            s.split(',').map(|item| item.trim()).filter(|item| !item.is_empty()).collect();
        assert_eq!(list_items(s), expected, "{:?}", s);
        let pieces: Vec<&str> = s.split(',').map(|item| item.trim()).collect();
        assert_eq!(trimmed_pieces(s, ','), pieces, "{:?}", s);
    }
    assert_eq!(list_items(" 1, 2 ,,3 "), vec!["1", "2", "3"]);
    assert_eq!(trimmed_pieces(" k : v : w ", ':'), vec!["k", "v", "w"]);
}

#[test]
fn next_move_is_read_from_the_first_flat_object() {
    let reply = "Thinking... {\"continue_or_terminate\": \"TERMINATE\", \"next_step\":  \"write code\", \"key_points\": [\"a\", \"b c\"]} and {\"continue_or_terminate\": \"CONTINUE\"}";
    assert_eq!(
        parse_next_move_and_(reply, Some("next_step")),
        (true, Some("write code".to_string()), vec!["a".to_string(), "b c".to_string()])
    );
    assert_eq!(
        parse_next_move_and_(reply, None),
        (true, None, vec!["a".to_string(), "b c".to_string()])
    );
    assert_eq!(
        parse_next_move_and_(reply, Some("missing")),
        (true, Some(String::new()), vec!["a".to_string(), "b c".to_string()])
    );
}

#[test]
fn next_move_of_a_reply_without_fields_is_empty() {
    assert_eq!(parse_next_move_and_("no object", Some("x")), (false, Some(String::new()), vec![]));
    assert_eq!(
        parse_next_move_and_("{\"continue_or_terminate\": \"CONTINUE\", \"key_points\": []}", None),
        (false, None, vec![])
    );
    assert_eq!(
        parse_next_move_and_("{\"continue_or_terminate\": \"terminate\"}", None),
        (false, None, vec![])
    );
}

#[test]
fn sub_tasks_are_read_with_summary_and_solution() {
    let reply = "{\"sub_tasks\": [\"one\", \"two\"], \"task_summary\": \"sum\", \"solution_found\": \"no\"}";
    assert_eq!(
        parse_planning_sub_tasks(reply),
        (vec!["one".to_string(), "two".to_string()], "sum".to_string(), "no".to_string())
    );
}

#[test]
fn reply_without_sub_tasks_is_its_own_summary() {
    let reply = "I found it. \"solution_found\": \"yes\", \"task_summary\": \"ignored\"";
    assert_eq!(
        parse_planning_sub_tasks(reply),
        (vec![], reply.to_string(), "yes".to_string())
    );
    assert_eq!(parse_planning_sub_tasks(""), (vec![], String::new(), String::new()));
}

#[test]
fn sub_tasks_that_cannot_be_read_give_none() {
    let reply = "\"sub_tasks\": [\"one\", 2], \"task_summary\": \"sum\"";
    assert_eq!(parse_planning_sub_tasks(reply), (vec![], "sum".to_string(), String::new()));
    let reply = "\"sub_tasks\": [\"one\",], \"task_summary\": \"sum\"";
    assert_eq!(parse_planning_sub_tasks(reply), (vec![], "sum".to_string(), String::new()));
}

#[test]
fn planning_task_needs_its_identity() {
    let doc = parse_json("{\"id\": \"1\", \"name\": \"n\", \"description\": \"d\", \"tool\": \"t\"}").unwrap();
    let task = PlanningTask::from_json(&doc).unwrap();
    assert_eq!(
        task,
        PlanningTask {
            id: "1".to_string(),
            name: "n".to_string(),
            description: "d".to_string(),
            tool: Some("t".to_string())
        }
    );
    assert_eq!(
        task.into_task(),
        Task { name: "n".to_string(), description: "d".to_string(), tool: Some("t".to_string()) }
    );
    let doc = parse_json("{\"name\": \"n\", \"description\": \"d\"}").unwrap();
    assert_eq!(PlanningTask::from_json(&doc), None);
    let doc = parse_json("{\"id\": 1, \"name\": \"n\", \"description\": \"d\"}").unwrap();
    assert_eq!(PlanningTask::from_json(&doc), None);
    let doc = parse_json("{\"id\": \"1\", \"name\": \"n\"}").unwrap();
    assert_eq!(PlanningTask::from_json(&doc), None);
}

#[test]
fn content_is_read_without_repair() {
    match Content::from_str("{\"name\": \"t\", \"arguments\": {\"a\": [1, 2]}}") {
        Content::JsonStr(JsonStr::ToolCall(call)) => {
            assert_eq!(call.name, "t");
            assert_eq!(call.arguments, Some("{\"a\":[1,2]}".to_string()));
        },
        _ => panic!("the text should be a tool call"),
    }
    match Content::from_str("{\"name\": \"t\"}") {
        Content::JsonStr(JsonStr::ToolCall(call)) => assert_eq!(call.arguments, None),
        _ => panic!("the text should be a tool call"),
    }
    match Content::from_str("{\"name\": 5, \"x\": 1}") {
        Content::JsonStr(JsonStr::JsonLoad(value)) => {
            assert_eq!(value.to_json_string(), "{\"name\":5,\"x\":1}")
        },
        _ => panic!("the text should be kept as JSON"),
    }
    match Content::from_str("plain words") {
        Content::Text(text) => assert_eq!(text, "plain words"),
        _ => panic!("the text should be kept as text"),
    }
}

#[test]
fn content_of_the_one_pass_reading_as_text() {
    assert_eq!(Content::Text("x".to_string()).content_to_string(), "x");
    let call = Content::from_str("{\"name\": \"t\", \"arguments\": {\"a\": \"b\"}}");
    assert_eq!(
        call.content_to_string(),
        format!("tool_call: {}, arguments: {:?}", "t", Some("{\"a\":\"b\"}".to_string()))
    );
    let load = Content::from_str("[1, 2]");
    assert_eq!(load.content_to_string(), "json_load: [1,2]");
}

#[test]
fn body_is_read_as_tool_call_or_kept_as_json() {
    let body = "{\"name\": \"t\", \"arguments\": {\"a\": {\"b\": 1}, \"c\": 2}}";
    match extract_tool_call_json(body, &Ok(body.to_string())) {
        Ok(JsonStr::ToolCall(call)) => {
            assert_eq!(call.name, "t");
            assert_eq!(call.arguments, Some("{\"a\":{\"b\":1},\"c\":2}".to_string()));
        },
        _ => panic!("the body should be a tool call"),
    }
    let body = "{\"name\": \"t\", \"arguments\": 5}";
    match extract_tool_call_json(body, &Ok(body.to_string())) {
        Ok(JsonStr::ToolCall(call)) => assert_eq!(call.arguments, Some("5".to_string())),
        _ => panic!("the body should be a tool call"),
    }
    let body = "{\"name\": \"t\"}";
    match extract_tool_call_json(body, &Ok(body.to_string())) {
        Ok(JsonStr::ToolCall(call)) => assert_eq!(call.arguments, None),
        _ => panic!("the body should be a tool call"),
    }
    let body = "{\"nom\": \"t\"}";
    assert!(matches!(
        extract_tool_call_json(body, &Ok(body.to_string())),
        Err(ExtractError::NoName)
    ));
    let raw = "{\"arguments\": {\"x\": 1}, \"name\": \"lookup\"}";
    match extract_tool_call_json(raw, &Ok("{\"name\": 7}".to_string())) {
        Ok(JsonStr::ToolCall(call)) => {
            assert_eq!(call.name, "lookup");
            assert_eq!(call.arguments, Some("{\"x\": 1}".to_string()));
        },
        _ => panic!("the raw text should match the pattern"),
    }
    assert!(extract_tool_call_json("nothing", &Ok("{\"name\": 7}".to_string())).is_err());
    assert!(extract_tool_call_json("x", &Ok("not json".to_string())).is_err());
    assert!(extract_tool_call_json("x", &Err(RepairError::Io("x".to_string()))).is_err());
}

#[test]
fn response_is_read_in_one_pass() {
    let reply = "<tool_call>{\"name\": \"t\", \"arguments\": {\"a\": 1}}</tool_call>";
    let message = output_llama_response(Some(usage()), choice(reply), identity).unwrap();
    assert_eq!(message.role, Role::Assistant);
    assert_eq!(message.usage, usage());
    match &message.content {
        Content::JsonStr(JsonStr::ToolCall(call)) => assert_eq!(call.name, "t"),
        _ => panic!("the reply should be a tool call"),
    }
    assert_eq!(
        message.content_to_string(),
        format!("tool_call: t, arguments: {:?}", Some("{\"a\":1}".to_string()))
    );
}

#[test]
fn response_without_a_name_degrades_to_text() {
    let reply = "<tool_call>{\"arguments\": {\"a\": 1}}</tool_call>";
    let message = output_llama_response(Some(usage()), choice(reply), identity).unwrap();
    match message.content {
        Content::Text(text) => assert_eq!(text, reply),
        _ => panic!("the reply should be kept as text"),
    }
}

#[test]
fn response_degrades_to_text_where_the_body_cannot_be_read() {
    let reply = "<tool_call>{name: t}</tool_call>";
    let message = output_llama_response(Some(usage()), choice(reply), identity).unwrap();
    match message.content {
        Content::Text(text) => assert_eq!(text, reply),
        _ => panic!("the reply should be kept as text"),
    }
    let reply = "<tool_call>{\"name\": \"t\"}</tool_call>";
    let message = output_llama_response(Some(usage()), choice(reply), no_repair).unwrap();
    match message.content {
        Content::Text(text) => assert_eq!(text, reply),
        _ => panic!("the reply should be kept as text"),
    }
}

#[test]
fn response_without_its_parts_is_an_error() {
    let reply = "<tool_call>{}</tool_call>";
    assert_eq!(
        output_llama_response(None, choice(reply), identity).err(),
        Some(LlamaResponseError::MissingUsageData)
    );
    assert_eq!(
        output_llama_response(Some(usage()), None, identity).err(),
        Some(LlamaResponseError::NoChoices)
    );
    assert_eq!(
        output_llama_response(
            Some(usage()),
            Some(Choice { role: Role::Assistant, content: None }),
            identity
        )
        .err(),
        Some(LlamaResponseError::MissingMessageContent)
    );
    assert_eq!(
        output_llama_response(Some(usage()), choice("no tags"), identity).err(),
        Some(LlamaResponseError::JsonExtractionError(
            "Invalid XML format: missing or mismatched tool_call tags".to_string()
        ))
    );
}

#[test]
fn pretty_form_is_what_jsonxf_writes() {
    assert_eq!(pretty_print("{\"a\":1,\"b\":2}"), Ok("{\n  \"a\": 1,\n  \"b\": 2\n}".to_string()));
    assert_eq!(pretty_print("{\"a\":1,\"b\":2}"), jsonxf::pretty_print("{\"a\":1,\"b\":2}"));
}

#[test]
fn python_blocks_make_up_the_program() {
    let text = "First:\n```python\nimport os\n```\nthen\n```python print(1) ```\n```rust\nfn main() {}\n```";
    assert_eq!(extract_code(text), "import osprint(1)");
    assert_eq!(extract_code("no code"), "");
    assert_eq!(extract_code("```python```"), "");
}

#[test]
fn code_blocks_with_their_languages() {
    let text = "Use `ls -l` or:\n```python\nprint(1)\n```\nand\n```\nplain\n```\n";
    assert_eq!(
        extract_code_blocks(text, false),
        vec![(Some("python".to_string()), "print(1)".to_string()), (None, "plain".to_string())]
    );
    let with_inline = extract_code_blocks("Use `ls -l` and ` pwd `.", true);
    assert_eq!(with_inline, vec![(None, "ls -l".to_string()), (None, "pwd".to_string())]);
    assert_eq!(extract_code_blocks("nothing", true), vec![]);
    let both = extract_code_blocks("```sh\nls\n```", true);
    assert_eq!(both[0], (Some("sh".to_string()), "ls".to_string()));
    assert!(both.len() > 1);
}

#[test]
fn addresses_of_the_web_helpers() {
    assert_eq!(
        page_text_address("https://example.com"),
        "https://code.flows.network/lambda/nsdNiGHUlT?url=https://example.com"
    );
    assert_eq!(
        search_address("latest AI research"),
        "https://api.bing.microsoft.com/v7.0/search?count=3&q=latest%20AI%20research&responseFilter=Webpages&setLang=en"
    );
    assert_eq!(
        search_address("a-b_c.d~e/é?"),
        format!(
            "https://api.bing.microsoft.com/v7.0/search?count=3&q={}&responseFilter=Webpages&setLang=en",
            "a-b_c.d~e%2F%C3%A9%3F"
        )
    );
    let results = vec![("u1".to_string(), "s1".to_string()), ("u2".to_string(), "s2".to_string())];
    assert_eq!(first_snippet(&results), Some("s1".to_string()));
    assert_eq!(first_snippet(&vec![]), None);
}

#[test]
fn envelope_carries_its_context() {
    let context = ActorContext::new(5).with_metadata("k", "v").with_metadata("k", "w");
    assert_eq!(context.sender, 5);
    assert_eq!(context.metadata.get("k"), Some(&"w".to_string()));
    assert_eq!(context.metadata.len(), 1);
    let other = ActorContext::new(5);
    assert_ne!(other.trace_id, context.trace_id);
    let envelope = MessageEnvelope::new(context, 7u8);
    assert_eq!(envelope.payload, 7);
    assert_eq!(envelope.context.sender, 5);
}
