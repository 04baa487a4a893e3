use autogen_rust::UserFeedback;
use autogen_rust::get_current_weather;
use autogen_rust::json::parse_json;
use autogen_rust::use_tool::ArgumentError;
use autogen_rust::use_tool::DefinitionError;
use autogen_rust::use_tool::FunctionToolError;
use autogen_rust::use_tool::Tool;
use autogen_rust::use_tool::ToolStore;
use autogen_rust::use_tool::TypeConverter;
use autogen_rust::use_tool::argument_at;
use autogen_rust::use_tool::converted;
use autogen_rust::use_tool::find_argument;
use autogen_rust::use_tool::find_mismatch;
use autogen_rust::use_tool::ordered_arguments;
use autogen_rust::use_tool::read_definition_name;
use autogen_rust::user_feedback;

type ToolFn = fn(&Vec<String>) -> Result<String, FunctionToolError>;

fn weather(args: &Vec<String>) -> Result<String, FunctionToolError> {
    let location = <String as TypeConverter>::convert_from_str(&args[0]).map_err(FunctionToolError)?;
    let unit = <String as TypeConverter>::convert_from_str(&args[1]).map_err(FunctionToolError)?;
    get_current_weather(location, unit)
}

fn echo(args: &Vec<String>) -> Result<String, FunctionToolError> {
    Ok(args.join("|"))
}

fn weather_tool() -> Tool<ToolFn> {
    Tool {
        name: "get_current_weather".to_string(),
        function: weather,
        tool_def_obj: "{\"name\": \"get_current_weather\"}".to_string(),
        arg_names: vec!["location".to_string(), "unit".to_string()],
        arg_types: vec!["String".to_string(), "String".to_string()],
    }
}

fn typed_tool() -> Tool<ToolFn> {
    Tool {
        name: "process_values".to_string(),
        function: echo,
        tool_def_obj: "{\"name\": \"process_values\"}".to_string(),
        arg_names: vec!["a".to_string(), "c".to_string(), "d".to_string()],
        arg_types: vec!["i32".to_string(), "bool".to_string(), "String".to_string()],
    }
}

fn names(list: &[&str]) -> Vec<String> {
    list.iter().map(|s| s.to_string()).collect()
}

#[test]
fn weather_tool_reports_for_new_places_only() {
    assert_eq!(
        get_current_weather("New York".to_string(), "celsius".to_string()),
        Ok("Weather for New York in 25 celsius ".to_string())
    );
    assert_eq!(
        get_current_weather("Paris".to_string(), "celsius".to_string()),
        Err(FunctionToolError("Weather for Paris in celsius".to_string()))
    );
}

#[test]
fn tool_is_called_with_its_arguments_in_declared_order() {
    let tool = weather_tool();
    assert_eq!(
        tool.run("{\"unit\":\"celsius\",\"location\":\"New York\"}".to_string()),
        Ok("Weather for New York in 25 celsius ".to_string())
    );
}

#[test]
fn tool_error_is_handed_back_unchanged() {
    let tool = weather_tool();
    assert_eq!(
        tool.run("{\"location\":\"Paris\",\"unit\":\"fahrenheit\"}".to_string()),
        Err(FunctionToolError("Weather for Paris in fahrenheit".to_string()))
    );
}

#[test]
fn arguments_may_be_wrapped_in_an_array_of_objects() {
    let got = ordered_arguments(
        "{\"arguments\": [{\"unit\": \"celsius\"}, 5, {\"location\": \"New York\"}, {\"unit\": \"kelvin\"}]}",
        &names(&["location", "unit"]),
    );
    assert_eq!(got, Ok(names(&["New York", "celsius"])));
}

#[test]
fn arguments_may_be_wrapped_in_an_object() {
    let got = ordered_arguments(
        "{\"arguments\": {\"unit\": \"celsius\", \"location\": \"New York\"}, \"location\": \"ignored\"}",
        &names(&["location", "unit"]),
    );
    assert_eq!(got, Ok(names(&["New York", "celsius"])));
}

#[test]
fn other_values_are_handed_over_as_json_text() {
    let got = ordered_arguments(
        "{\"a\": 12, \"b\": 1.50, \"c\": true, \"d\": null, \"e\": [1, \"x\"], \"f\": {\"k\": \"v\"}, \"g\": \"text\"}",
        &names(&["a", "b", "c", "d", "e", "f", "g"]),
    );
    assert_eq!(got, Ok(names(&["12", "1.5", "true", "null", "[1,\"x\"]", "{\"k\":\"v\"}", "text"])));
}

#[test]
fn blank_arguments_give_no_values() {
    assert_eq!(ordered_arguments("", &names(&["a"])), Ok(vec![]));
    assert_eq!(ordered_arguments(" \n\t", &names(&["a"])), Ok(vec![]));
    let tool = Tool {
        name: "get_user_feedback".to_string(),
        function: echo as ToolFn,
        tool_def_obj: String::new(),
        arg_names: vec![],
        arg_types: vec![],
    };
    assert_eq!(tool.run(String::new()), Ok(String::new()));
}

#[test]
fn argument_errors() {
    let e = ordered_arguments("{", &names(&["a"])).unwrap_err();
    assert!(matches!(e, ArgumentError::InvalidJson(_)));
    assert!(e.message().starts_with("Failed to parse arguments JSON: "));
    let e = ordered_arguments("[1]", &names(&["a"])).unwrap_err();
    assert_eq!(e, ArgumentError::NotAnObject);
    assert_eq!(e.message(), "Invalid arguments format: expected a JSON object");
    let e = ordered_arguments("{\"b\": 1}", &names(&["a"])).unwrap_err();
    assert_eq!(e, ArgumentError::Missing("a".to_string()));
    assert_eq!(e.message(), "Missing argument: a");
    let e = ordered_arguments("{\"arguments\": 5, \"a\": 1}", &names(&["a"])).unwrap_err();
    assert_eq!(e, ArgumentError::InvalidFormat);
    assert_eq!(e.message(), "Invalid arguments format");
    let e = ordered_arguments("{\"arguments\": [{\"b\": 1}]}", &names(&["a"])).unwrap_err();
    assert_eq!(e, ArgumentError::Missing("a".to_string()));
    let e = ordered_arguments("{\"arguments\": {\"b\": 1}}", &names(&["b", "a"])).unwrap_err();
    assert_eq!(e, ArgumentError::Missing("a".to_string()));
    let e = ordered_arguments("{\"a\": 1}", &names(&["a", "x", "y"])).unwrap_err();
    assert_eq!(e, ArgumentError::Missing("x".to_string()));
}

#[test]
fn tool_is_not_called_where_arguments_fail() {
    let tool = weather_tool();
    assert_eq!(
        tool.run("{\"location\":\"New York\"}".to_string()),
        Err(FunctionToolError("Missing argument: unit".to_string()))
    );
    assert_eq!(
        tool.run("5".to_string()),
        Err(FunctionToolError("Invalid arguments format: expected a JSON object".to_string()))
    );
}

#[test]
fn arguments_are_checked_against_their_types() {
    let tool = typed_tool();
    assert_eq!(
        tool.run("{\"a\": 11, \"c\": true, \"d\": \"x\"}".to_string()),
        Ok("11|true|x".to_string())
    );
    assert_eq!(
        tool.run("{\"a\": \"11\", \"c\": \"false\", \"d\": 5}".to_string()),
        Ok("11|false|5".to_string())
    );
    assert_eq!(
        tool.run("{\"a\": 1.5, \"c\": true, \"d\": \"x\"}".to_string()),
        Err(FunctionToolError(
            "Failed to convert argument 'a': Conversion error for i32: ParseIntError { kind: InvalidDigit }"
                .to_string()
        ))
    );
    assert_eq!(
        tool.run("{\"a\": 1, \"c\": \"yes\", \"d\": \"x\"}".to_string()),
        Err(FunctionToolError(
            format!(
                "Failed to convert argument 'c': Conversion error for bool: {:?}",
                "yes".parse::<bool>().unwrap_err()
            )
        ))
    );
    assert_eq!(
        find_mismatch(&names(&["a", "b"]), &names(&["u8"]), &names(&["7", "anything"])),
        None
    );
}

#[test]
fn argument_lookup_on_a_value() {
    let doc = parse_json("{\"arguments\": {\"x\": 1}, \"y\": 2}").unwrap();
    assert_eq!(find_argument(&doc, "x").unwrap().to_json_string(), "1");
    assert_eq!(find_argument(&doc, "y").unwrap_err(), ArgumentError::Missing("y".to_string()));
}

#[test]
fn store_runs_the_tool_that_is_registered() {
    let mut store: ToolStore<ToolFn> = ToolStore::new();
    store.register(weather_tool());
    store.register(typed_tool());
    assert!(store.get("get_current_weather").is_some());
    assert!(store.get("nothing").is_none());
    assert_eq!(
        store.run("get_current_weather", "{\"location\":\"New York\",\"unit\":\"celsius\"}".to_string()),
        Some(Ok("Weather for New York in 25 celsius ".to_string()))
    );
    assert_eq!(store.run("nothing", "{}".to_string()), None);
}

#[test]
fn later_registration_replaces_the_earlier_one() {
    let mut store: ToolStore<ToolFn> = ToolStore::new();
    store.register(weather_tool());
    let mut other = weather_tool();
    other.function = echo;
    store.register(other);
    assert_eq!(
        store.run("get_current_weather", "{\"location\":\"a\",\"unit\":\"b\"}".to_string()),
        Some(Ok("a|b".to_string()))
    );
}

#[test]
fn tool_error_text() {
    let e = FunctionToolError::new("broken".to_string());
    assert_eq!(e.message(), "broken");
}

#[test]
fn tool_is_registered_where_its_definition_names_it() {
    let mut store: ToolStore<ToolFn> = ToolStore::new();
    assert_eq!(store.register_defined(weather_tool()), Ok(()));
    assert!(store.get("get_current_weather").is_some());
    let mut other = typed_tool();
    other.tool_def_obj = "{\"name\": \"something_else\"}".to_string();
    assert_eq!(
        store.register_defined(other),
        Err(DefinitionError::NameMismatch("something_else".to_string()))
    );
    assert!(store.get("process_values").is_none());
    for definition in ["not json", "[]", "{}", "{\"name\": 5}", "{\"name\": \"process_values\", \"description\": 5}"] {
        let mut unreadable = typed_tool();
        unreadable.tool_def_obj = definition.to_string();
        assert_eq!(store.register_defined(unreadable), Err(DefinitionError::Unreadable));
    }
    assert!(store.get("process_values").is_none());
    assert_eq!(
        read_definition_name("{\"name\": \"t\", \"description\": null, \"parameters\": [1]}"),
        Some("t".to_string())
    );
    assert_eq!(
        read_definition_name("{\"name\": \"t\", \"description\": \"d\"}"),
        Some("t".to_string())
    );
}

#[test]
fn arguments_are_taken_by_position_and_converted() {
    let args = names(&["1", "x"]);
    assert_eq!(argument_at(&args, 1, "b"), Ok(&"x".to_string()));
    assert_eq!(
        argument_at(&args, 2, "c"),
        Err(FunctionToolError("Missing argument for parameter 'c'".to_string()))
    );
    assert_eq!(converted("a", Ok::<i32, String>(5)), Ok(5));
    assert_eq!(
        converted::<i32>("a", Err("bad".to_string())),
        Err(FunctionToolError("Failed to convert argument 'a': bad".to_string()))
    );
}

#[test]
fn user_feedback_by_line() {
    assert_eq!(user_feedback("stop\n"), UserFeedback::Stop);
    assert_eq!(user_feedback("stop\r\n"), UserFeedback::Stop);
    assert_eq!(user_feedback("stop"), UserFeedback::Stop);
    assert_eq!(user_feedback("back\r"), UserFeedback::Back);
    assert_eq!(user_feedback("stop \n"), UserFeedback::Instruction("stop ".to_string()));
    assert_eq!(user_feedback("go on\n\n"), UserFeedback::Instruction("go on\n".to_string()));
    assert_eq!(user_feedback("go on\n\r"), UserFeedback::Instruction("go on\n".to_string()));
    assert_eq!(user_feedback("\r\r\n"), UserFeedback::Instruction("\r".to_string()));
    assert_eq!(user_feedback(""), UserFeedback::Instruction(String::new()));
}
