//! The registry of tools: each tool has a name, the names and declared
//! types of its arguments in order, and the function to call.

use crate::convert::IntErrorKind;
use crate::convert::boolean_of;
use crate::convert::convert_integer;
use crate::convert::integer_error_of;
use crate::convert::integer_of;
use crate::convert::is_unit_text;
use crate::convert::parse_boolean;
use crate::convert::parse_unit;
use crate::json::JsonTree;
use crate::json::JsonValue;
use crate::json::json_document;
use crate::json::json_text;
use crate::json::parse_json;
use crate::text::join2;
use crate::text::join3;
use crate::text::join4;
use crate::text::str_equal;
use crate::text::texts;
use crate::text::trim;
use crate::text::trimmed;
use vstd::hash_map::StringHashMap;
use vstd::prelude::*;

verus! {

/// The error that a tool, or the preparation of its call, reports as a
/// text.
#[derive(Debug, PartialEq)]
pub struct FunctionToolError(pub String);

impl FunctionToolError {
    /// An error with the given message.
    pub fn new(message: String) -> (e: Self)
        ensures
            e.0 == message,
    {
        FunctionToolError(message)
    }

    /// The message of this error.
    pub fn message(&self) -> (text: String)
        ensures
            text@ == self.0@,
    {
        self.0.clone()
    }
}

/// A registered tool.
pub struct Tool<F> {
    pub name: String,
    pub function: F,
    pub tool_def_obj: String,
    pub arg_names: Vec<String>,
    pub arg_types: Vec<String>,
}

/// Why the arguments of a call could not be put in order.
#[derive(Debug, PartialEq)]
pub enum ArgumentError {
    /// The arguments are no JSON; the message of the JSON reader.
    InvalidJson(String),
    /// The arguments are JSON, but no object.
    NotAnObject,
    /// The member `arguments` is neither an array nor an object.
    InvalidFormat,
    /// No value is given for the named argument.
    Missing(String),
}

/// The kinds of `ArgumentError`, with texts for strings.
pub enum ArgumentFailure {
    InvalidJson,
    NotAnObject,
    InvalidFormat,
    Missing(Seq<char>),
}

impl ArgumentError {
    pub open spec fn failure(self) -> ArgumentFailure {
        match self {
            ArgumentError::InvalidJson(_) => ArgumentFailure::InvalidJson,
            ArgumentError::NotAnObject => ArgumentFailure::NotAnObject,
            ArgumentError::InvalidFormat => ArgumentFailure::InvalidFormat,
            ArgumentError::Missing(name) => ArgumentFailure::Missing(name@),
        }
    }

    /// The message of this error.
    pub fn message(&self) -> (text: String)
        ensures
            text@ == match *self {
                ArgumentError::InvalidJson(e) => "Failed to parse arguments JSON: "@ + e@,
                ArgumentError::NotAnObject => "Invalid arguments format: expected a JSON object"@,
                ArgumentError::InvalidFormat => "Invalid arguments format"@,
                ArgumentError::Missing(name) => "Missing argument: "@ + name@,
            },
    {
        match self {
            ArgumentError::InvalidJson(e) => join2("Failed to parse arguments JSON: ", e.as_str()),
            ArgumentError::NotAnObject =>
                "Invalid arguments format: expected a JSON object".to_owned(),
            ArgumentError::InvalidFormat => "Invalid arguments format".to_owned(),
            ArgumentError::Missing(name) => join2("Missing argument: ", name.as_str()),
        }
    }
}

/// The member `name` of the first item that is an object and has one.
pub open spec fn first_with(items: Seq<JsonTree>, name: Seq<char>) -> Option<JsonTree>
    decreases items.len(),
{
    if items.len() == 0 {
        None
    } else {
        match items[0].get(name) {
            Some(value) => Some(value),
            None => first_with(items.drop_first(), name),
        }
    }
}

/// The value that a JSON object of arguments gives for `name`. Where the
/// object has a member `arguments`, the value is looked for in it: among
/// the objects of an array, or as a member of an object. Else it is a
/// member of the object itself.
pub open spec fn argument_value(doc: JsonTree, name: Seq<char>) -> Result<
    JsonTree,
    ArgumentFailure,
> {
    match doc.get("arguments"@) {
        Some(JsonTree::Array(items)) => match first_with(items, name) {
            Some(value) => Ok(value),
            None => Err(ArgumentFailure::Missing(name)),
        },
        Some(JsonTree::Object(fields)) => match crate::json::field_of(fields, name) {
            Some(value) => Ok(value),
            None => Err(ArgumentFailure::Missing(name)),
        },
        Some(_) => Err(ArgumentFailure::InvalidFormat),
        None => match doc.get(name) {
            Some(value) => Ok(value),
            None => Err(ArgumentFailure::Missing(name)),
        },
    }
}

/// An argument as the text that the tool receives: a JSON string by its
/// content, any other value by its compact JSON text.
pub open spec fn argument_text(value: JsonTree) -> Seq<char> {
    match value {
        JsonTree::String(text) => text,
        _ => json_text(value),
    }
}

/// The texts of the arguments `names`, in that order, as the object `doc`
/// gives them; the failure of the first name for which it gives none.
pub open spec fn arguments_of(doc: JsonTree, names: Seq<Seq<char>>) -> Result<
    Seq<Seq<char>>,
    ArgumentFailure,
>
    decreases names.len(),
{
    if names.len() == 0 {
        Ok(Seq::empty())
    } else {
        match arguments_of(doc, names.drop_last()) {
            Err(failure) => Err(failure),
            Ok(values) => match argument_value(doc, names.last()) {
                Err(failure) => Err(failure),
                Ok(value) => Ok(values.push(argument_text(value))),
            },
        }
    }
}

/// The ordered argument texts for a call with the arguments text
/// `arguments`: none for a blank text, else those of the JSON object that
/// the text holds.
pub open spec fn ordered_arguments_of(arguments: Seq<char>, names: Seq<Seq<char>>) -> Result<
    Seq<Seq<char>>,
    ArgumentFailure,
> {
    if trimmed(arguments).len() == 0 {
        Ok(Seq::empty())
    } else {
        match json_document(arguments) {
            None => Err(ArgumentFailure::InvalidJson),
            Some(doc) => if doc is Object {
                arguments_of(doc, names)
            } else {
                Err(ArgumentFailure::NotAnObject)
            },
        }
    }
}

/// The member `name` of the first item that is an object and has one.
pub fn find_in_items<'a>(items: &'a Vec<JsonValue>, name: &str) -> (r: Option<&'a JsonValue>)
    ensures
        match r {
            Some(value) => first_with(crate::json::items_tree(items@), name@) == Some(value@),
            None => first_with(crate::json::items_tree(items@), name@) is None,
        },
{
    let ghost trees = crate::json::items_tree(items@);
    let mut i: usize = 0;
    assert(trees.skip(0) =~= trees);
    while i < items.len()
        invariant
            i <= items@.len(),
            trees == crate::json::items_tree(items@),
            first_with(trees, name@) == first_with(trees.skip(i as int), name@),
        decreases items@.len() - i,
    {
        assert(trees.skip(i as int)[0] == items@[i as int]@);
        assert(trees.skip(i as int).drop_first() =~= trees.skip(i + 1));
        match items[i].get(name) {
            Some(value) => {
                return Some(value);
            },
            None => {},
        }
        i += 1;
    }
    assert(trees.skip(i as int).len() == 0);
    None
}

/// The value that the object `doc` gives for the argument `name`.
pub fn find_argument<'a>(doc: &'a JsonValue, name: &str) -> (r: Result<
    &'a JsonValue,
    ArgumentError,
>)
    ensures
        match r {
            Ok(value) => argument_value(doc@, name@) == Ok::<JsonTree, ArgumentFailure>(value@),
            Err(e) => argument_value(doc@, name@) == Err::<JsonTree, ArgumentFailure>(e.failure()),
        },
{
    match doc.get("arguments") {
        Some(args) => {
            match args.as_array() {
                Some(items) => {
                    return match find_in_items(items, name) {
                        Some(value) => Ok(value),
                        None => Err(ArgumentError::Missing(name.to_owned())),
                    };
                },
                None => {},
            }
            match args.as_object() {
                Some(_) => match args.get(name) {
                    Some(value) => Ok(value),
                    None => Err(ArgumentError::Missing(name.to_owned())),
                },
                None => Err(ArgumentError::InvalidFormat),
            }
        },
        None => match doc.get(name) {
            Some(value) => Ok(value),
            None => Err(ArgumentError::Missing(name.to_owned())),
        },
    }
}

/// An argument as the text that the tool receives.
pub fn argument_to_text(value: &JsonValue) -> (text: String)
    ensures
        text@ == argument_text(value@),
{
    match value.as_str() {
        Some(text) => text.to_owned(),
        None => value.to_json_string(),
    }
}

/// The argument texts for `names`, in that order, from the JSON text
/// `arguments_w_val`.
pub fn ordered_arguments(arguments_w_val: &str, names: &Vec<String>) -> (r: Result<
    Vec<String>,
    ArgumentError,
>)
    ensures
        match r {
            Ok(values) => ordered_arguments_of(arguments_w_val@, texts(names@)) == Ok::<
                Seq<Seq<char>>,
                ArgumentFailure,
            >(texts(values@)),
            Err(e) => ordered_arguments_of(arguments_w_val@, texts(names@)) == Err::<
                Seq<Seq<char>>,
                ArgumentFailure,
            >(e.failure()),
        },
{
    if trim(arguments_w_val).unicode_len() == 0 {
        let none: Vec<String> = Vec::new();
        assert(texts(none@) =~= Seq::<Seq<char>>::empty());
        return Ok(none);
    }
    let parsed = match parse_json(arguments_w_val) {
        Ok(doc) => doc,
        Err(e) => {
            return Err(ArgumentError::InvalidJson(e));
        },
    };
    if parsed.as_object().is_none() {
        return Err(ArgumentError::NotAnObject);
    }
    let ghost all = texts(names@);
    let mut ordered_vals: Vec<String> = Vec::new();
    let mut i: usize = 0;
    assert(texts(ordered_vals@) =~= Seq::<Seq<char>>::empty());
    while i < names.len()
        invariant
            i <= names@.len(),
            all == texts(names@),
            trimmed(arguments_w_val@).len() != 0,
            json_document(arguments_w_val@) == Some(parsed@),
            parsed@ is Object,
            arguments_of(parsed@, all.take(i as int)) == Ok::<Seq<Seq<char>>, ArgumentFailure>(
                texts(ordered_vals@),
            ),
        decreases names@.len() - i,
    {
        let ghost before = texts(ordered_vals@);
        assert(all.take(i + 1).drop_last() =~= all.take(i as int));
        assert(all.take(i + 1).last() == names@[i as int]@);
        match find_argument(&parsed, names[i].as_str()) {
            Ok(value) => {
                let text = argument_to_text(value);
                ordered_vals.push(text);
                assert(texts(ordered_vals@) =~= before.push(text@));
            },
            Err(e) => {
                proof {
                    assert(arguments_of(parsed@, all.take(i + 1)) == Err::<
                        Seq<Seq<char>>,
                        ArgumentFailure,
                    >(e.failure()));
                    lemma_arguments_fail(parsed@, all, i as int);
                }
                return Err(e);
            },
        }
        i += 1;
    }
    assert(all.take(i as int) =~= all);
    Ok(ordered_vals)
}

/// The arguments of a flat object arrive as plain texts in the declared
/// order: where the object has no member `arguments` and gives a JSON
/// string for every declared name, the argument texts are the contents of
/// those strings, one for each name, in the order of the names.
pub proof fn lemma_flat_arguments(doc: JsonTree, names: Seq<Seq<char>>, values: Seq<Seq<char>>)
    requires
        doc.get("arguments"@) is None,
        names.len() == values.len(),
        forall|i: int|
            0 <= i < names.len() ==> doc.get(#[trigger] names[i]) == Some(
                JsonTree::String(values[i]),
            ),
    ensures
        arguments_of(doc, names) == Ok::<Seq<Seq<char>>, ArgumentFailure>(values),
    decreases names.len(),
{
    if names.len() == 0 {
        assert(values =~= Seq::<Seq<char>>::empty());
    } else {
        let head = names.drop_last();
        let head_values = values.drop_last();
        assert forall|i: int| 0 <= i < head.len() implies doc.get(#[trigger] head[i]) == Some(
            JsonTree::String(head_values[i]),
        ) by {
            assert(head[i] == names[i]);
        }
        lemma_flat_arguments(doc, head, head_values);
        assert(doc.get(names[names.len() - 1]) == Some(JsonTree::String(values[names.len() - 1])));
        assert(head_values.push(values.last()) =~= values);
    }
}

/// Once a prefix of the names fails, the whole list fails in the same
/// way.
pub proof fn lemma_arguments_fail(doc: JsonTree, names: Seq<Seq<char>>, n: int)
    requires
        0 <= n < names.len(),
        arguments_of(doc, names.take(n + 1)) is Err,
    ensures
        arguments_of(doc, names) == arguments_of(doc, names.take(n + 1)),
    decreases names.len() - n,
{
    if n + 1 == names.len() {
        assert(names.take(n + 1) =~= names);
    } else {
        assert(names.take(n + 2).drop_last() =~= names.take(n + 1));
        lemma_arguments_fail(doc, names, n + 1);
    }
}

impl<F: Fn(&Vec<String>) -> Result<String, FunctionToolError>> Tool<F> {
    /// Runs the tool on the JSON text of its arguments.
    ///
    /// The declared arguments are looked up in the text, checked against
    /// their declared types, and handed to the function in their declared
    /// order; what the function returns comes back unchanged. Where the
    /// arguments cannot be put in order, or one is no value of its type,
    /// the function is not called and the failure is the error.
    pub fn run(&self, arguments_w_val: String) -> (r: Result<String, FunctionToolError>)
        requires
            forall|values: &Vec<String>| call_requires(self.function, (values,)),
        ensures
            run_outcome(*self, arguments_w_val@, r),
    {
        match ordered_arguments(arguments_w_val.as_str(), &self.arg_names) {
            Ok(values) => {
                match find_mismatch(&self.arg_names, &self.arg_types, &values) {
                    Some(message) => {
                        return Err(FunctionToolError(message));
                    },
                    None => {},
                }
                let r = (self.function)(&values);
                assert(texts(values@) == texts(values@) && call_ensures(
                    self.function,
                    (&values,),
                    r,
                ));
                r
            },
            Err(e) => {
                let text = e.message();
                assert(text@ == argument_message(e));
                Err(FunctionToolError(text))
            },
        }
    }
}

/// The message of an argument error.
pub open spec fn argument_message(e: ArgumentError) -> Seq<char> {
    match e {
        ArgumentError::InvalidJson(e) => "Failed to parse arguments JSON: "@ + e@,
        ArgumentError::NotAnObject => "Invalid arguments format: expected a JSON object"@,
        ArgumentError::InvalidFormat => "Invalid arguments format"@,
        ArgumentError::Missing(name) => "Missing argument: "@ + name@,
    }
}

/// The table of registered tools, by name. It is filled once, before any
/// agent works, and only read afterwards.
#[verifier::reject_recursive_types(F)]
pub struct ToolStore<F> {
    tools: StringHashMap<Tool<F>>,
}

impl<F> View for ToolStore<F> {
    type V = Map<Seq<char>, Tool<F>>;

    closed spec fn view(&self) -> Map<Seq<char>, Tool<F>> {
        self.tools@
    }
}

/// The text that stands for the outcome of a tool call in a reply.
pub open spec fn tool_report(name: Seq<char>, outcome: Option<Result<String, FunctionToolError>>) -> Seq<
    char,
> {
    match outcome {
        None => "Tool "@ + name + " not found"@,
        Some(Ok(output)) => output@,
        Some(Err(e)) => "Error executing tool "@ + name + ": "@ + e.0@,
    }
}

impl<F: Fn(&Vec<String>) -> Result<String, FunctionToolError>> ToolStore<F> {
    /// Every registered tool can be called on every list of arguments.
    pub open spec fn callable(&self) -> bool {
        forall|name: Seq<char>, values: &Vec<String>|
            self@.contains_key(name) ==> #[trigger] call_requires(self@[name].function, (values,))
    }

    /// An empty table.
    pub fn new() -> (store: Self)
        ensures
            store@ == Map::<Seq<char>, Tool<F>>::empty(),
    {
        ToolStore { tools: StringHashMap::new() }
    }

    /// Registers `tool` under its name; a tool registered before under
    /// that name is replaced.
    pub fn register(&mut self, tool: Tool<F>)
        ensures
            final(self)@ == old(self)@.insert(tool.name@, tool),
    {
        let name = tool.name.clone();
        self.tools.insert(name, tool);
    }

    /// The tool registered under `name`.
    pub fn get(&self, name: &str) -> (r: Option<&Tool<F>>)
        ensures
            match r {
                Some(tool) => self@.contains_key(name@) && *tool == self@[name@],
                None => !self@.contains_key(name@),
            },
    {
        self.tools.get(name)
    }

    /// Runs the tool `tool_name` on the JSON text of its arguments.
    ///
    /// `None` where no tool has that name; else what `Tool::run` returns.
    pub fn run(&self, tool_name: &str, json_arguments: String) -> (r: Option<
        Result<String, FunctionToolError>,
    >)
        requires
            self.callable(),
        ensures
            r is Some == self@.contains_key(tool_name@),
            r matches Some(outcome) ==> run_outcome(self@[tool_name@], json_arguments@, outcome),
    {
        match self.tools.get(tool_name) {
            Some(tool) => {
                assert(self@.contains_key(tool_name@));
                Some(tool.run(json_arguments))
            },
            None => None,
        }
    }
}

/// What `Tool::run` promises of its result.
pub open spec fn run_outcome<F: Fn(&Vec<String>) -> Result<String, FunctionToolError>>(
    tool: Tool<F>,
    arguments: Seq<char>,
    r: Result<String, FunctionToolError>,
) -> bool {
    match ordered_arguments_of(arguments, texts(tool.arg_names@)) {
        Ok(expected) => match mismatch_from(
            texts(tool.arg_names@),
            texts(tool.arg_types@),
            expected,
            0,
        ) {
            Some(message) => r matches Err(e) && e.0@ == message,
            None => exists|values: &Vec<String>|
                texts(values@) == expected && call_ensures(tool.function, (values,), r),
        },
        Err(failure) => r is Err && exists|e: ArgumentError|
            e.failure() == failure && r->Err_0.0@ == #[trigger] argument_message(e),
    }
}

/// Reads a value of a type from the text of a tool argument; the error is
/// a message that says why the text is no such value.
pub trait TypeConverter {
    type Output;

    fn convert_from_str(s: &str) -> Result<Self::Output, String>;
}

impl TypeConverter for i8 {
    type Output = i8;

    fn convert_from_str(s: &str) -> (r: Result<i8, String>)
        ensures
            match r {
                Ok(value) => integer_of(s@, i8::MIN as int, i8::MAX as int) == Ok::<int, IntErrorKind>(
                    value as int,
                ),
                Err(e) => integer_error_of(s@, i8::MIN as int, i8::MAX as int, "i8"@) == Some(e@),
            },
    {
        match convert_integer(s, i8::MIN as i128, i8::MAX as i128, "i8") {
            Ok(value) => Ok(value as i8),
            Err(e) => Err(e),
        }
    }
}

impl TypeConverter for i16 {
    type Output = i16;

    fn convert_from_str(s: &str) -> (r: Result<i16, String>)
        ensures
            match r {
                Ok(value) => integer_of(s@, i16::MIN as int, i16::MAX as int) == Ok::<int, IntErrorKind>(
                    value as int,
                ),
                Err(e) => integer_error_of(s@, i16::MIN as int, i16::MAX as int, "i16"@) == Some(e@),
            },
    {
        match convert_integer(s, i16::MIN as i128, i16::MAX as i128, "i16") {
            Ok(value) => Ok(value as i16),
            Err(e) => Err(e),
        }
    }
}

impl TypeConverter for i32 {
    type Output = i32;

    fn convert_from_str(s: &str) -> (r: Result<i32, String>)
        ensures
            match r {
                Ok(value) => integer_of(s@, i32::MIN as int, i32::MAX as int) == Ok::<int, IntErrorKind>(
                    value as int,
                ),
                Err(e) => integer_error_of(s@, i32::MIN as int, i32::MAX as int, "i32"@) == Some(e@),
            },
    {
        match convert_integer(s, i32::MIN as i128, i32::MAX as i128, "i32") {
            Ok(value) => Ok(value as i32),
            Err(e) => Err(e),
        }
    }
}

impl TypeConverter for i64 {
    type Output = i64;

    fn convert_from_str(s: &str) -> (r: Result<i64, String>)
        ensures
            match r {
                Ok(value) => integer_of(s@, i64::MIN as int, i64::MAX as int) == Ok::<int, IntErrorKind>(
                    value as int,
                ),
                Err(e) => integer_error_of(s@, i64::MIN as int, i64::MAX as int, "i64"@) == Some(e@),
            },
    {
        match convert_integer(s, i64::MIN as i128, i64::MAX as i128, "i64") {
            Ok(value) => Ok(value as i64),
            Err(e) => Err(e),
        }
    }
}

impl TypeConverter for isize {
    type Output = isize;

    fn convert_from_str(s: &str) -> (r: Result<isize, String>)
        ensures
            match r {
                Ok(value) => integer_of(s@, isize::MIN as int, isize::MAX as int) == Ok::<int, IntErrorKind>(
                    value as int,
                ),
                Err(e) => integer_error_of(s@, isize::MIN as int, isize::MAX as int, "isize"@) == Some(e@),
            },
    {
        match convert_integer(s, isize::MIN as i128, isize::MAX as i128, "isize") {
            Ok(value) => Ok(value as isize),
            Err(e) => Err(e),
        }
    }
}

impl TypeConverter for u8 {
    type Output = u8;

    fn convert_from_str(s: &str) -> (r: Result<u8, String>)
        ensures
            match r {
                Ok(value) => integer_of(s@, 0, u8::MAX as int) == Ok::<int, IntErrorKind>(
                    value as int,
                ),
                Err(e) => integer_error_of(s@, 0, u8::MAX as int, "u8"@) == Some(e@),
            },
    {
        match convert_integer(s, 0, u8::MAX as i128, "u8") {
            Ok(value) => Ok(value as u8),
            Err(e) => Err(e),
        }
    }
}

impl TypeConverter for u16 {
    type Output = u16;

    fn convert_from_str(s: &str) -> (r: Result<u16, String>)
        ensures
            match r {
                Ok(value) => integer_of(s@, 0, u16::MAX as int) == Ok::<int, IntErrorKind>(
                    value as int,
                ),
                Err(e) => integer_error_of(s@, 0, u16::MAX as int, "u16"@) == Some(e@),
            },
    {
        match convert_integer(s, 0, u16::MAX as i128, "u16") {
            Ok(value) => Ok(value as u16),
            Err(e) => Err(e),
        }
    }
}

impl TypeConverter for u32 {
    type Output = u32;

    fn convert_from_str(s: &str) -> (r: Result<u32, String>)
        ensures
            match r {
                Ok(value) => integer_of(s@, 0, u32::MAX as int) == Ok::<int, IntErrorKind>(
                    value as int,
                ),
                Err(e) => integer_error_of(s@, 0, u32::MAX as int, "u32"@) == Some(e@),
            },
    {
        match convert_integer(s, 0, u32::MAX as i128, "u32") {
            Ok(value) => Ok(value as u32),
            Err(e) => Err(e),
        }
    }
}

impl TypeConverter for u64 {
    type Output = u64;

    fn convert_from_str(s: &str) -> (r: Result<u64, String>)
        ensures
            match r {
                Ok(value) => integer_of(s@, 0, u64::MAX as int) == Ok::<int, IntErrorKind>(
                    value as int,
                ),
                Err(e) => integer_error_of(s@, 0, u64::MAX as int, "u64"@) == Some(e@),
            },
    {
        match convert_integer(s, 0, u64::MAX as i128, "u64") {
            Ok(value) => Ok(value as u64),
            Err(e) => Err(e),
        }
    }
}

impl TypeConverter for usize {
    type Output = usize;

    fn convert_from_str(s: &str) -> (r: Result<usize, String>)
        ensures
            match r {
                Ok(value) => integer_of(s@, 0, usize::MAX as int) == Ok::<int, IntErrorKind>(
                    value as int,
                ),
                Err(e) => integer_error_of(s@, 0, usize::MAX as int, "usize"@) == Some(e@),
            },
    {
        match convert_integer(s, 0, usize::MAX as i128, "usize") {
            Ok(value) => Ok(value as usize),
            Err(e) => Err(e),
        }
    }
}

/// The message for a text that is no boolean; `None` where it is one.
pub open spec fn boolean_error_of(text: Seq<char>) -> Option<Seq<char>> {
    if boolean_of(text) is Some {
        None
    } else {
        Some("Conversion error for bool: ParseBoolError"@)
    }
}

impl TypeConverter for bool {
    type Output = bool;

    fn convert_from_str(s: &str) -> (r: Result<bool, String>)
        ensures
            match r {
                Ok(value) => boolean_of(s@) == Some(value),
                Err(e) => boolean_error_of(s@) == Some(e@),
            },
    {
        match parse_boolean(s) {
            Some(value) => Ok(value),
            None => Err("Conversion error for bool: ParseBoolError".to_owned()),
        }
    }
}

/// The message for a text that is no single character; `None` where it
/// is one.
pub open spec fn char_error_of(text: Seq<char>) -> Option<Seq<char>> {
    if text.len() == 1 {
        None
    } else if text.len() == 0 {
        Some("Empty string provided for char"@)
    } else {
        Some("Expected a single character, got '"@ + text + "'"@)
    }
}

impl TypeConverter for char {
    type Output = char;

    fn convert_from_str(s: &str) -> (r: Result<char, String>)
        ensures
            match r {
                Ok(value) => s@ == seq![value],
                Err(e) => char_error_of(s@) == Some(e@),
            },
    {
        let n = s.unicode_len();
        if n == 1 {
            let c = s.get_char(0);
            assert(s@ =~= seq![c]);
            Ok(c)
        } else if n == 0 {
            Err("Empty string provided for char".to_owned())
        } else {
            Err(join3("Expected a single character, got '", s, "'"))
        }
    }
}

impl TypeConverter for String {
    type Output = String;

    fn convert_from_str(s: &str) -> (r: Result<String, String>)
        ensures
            r matches Ok(value) && value@ == s@,
    {
        Ok(s.to_owned())
    }
}

/// The message for a text that does not stand for the unit value; `None`
/// where it does.
pub open spec fn unit_error_of(text: Seq<char>) -> Option<Seq<char>> {
    if is_unit_text(text) {
        None
    } else {
        Some("Expected unit type (empty input or '()'), got '"@ + text + "'"@)
    }
}

impl TypeConverter for () {
    type Output = ();

    fn convert_from_str(s: &str) -> (r: Result<(), String>)
        ensures
            match r {
                Ok(_) => is_unit_text(s@),
                Err(e) => unit_error_of(s@) == Some(e@),
            },
    {
        if parse_unit(s) {
            Ok(())
        } else {
            Err(join3("Expected unit type (empty input or '()'), got '", s, "'"))
        }
    }
}

/// The message for an argument text that is no value of its declared
/// type; `None` where it is one. The types are named as Rust writes them;
/// an argument of any other type, a `String` among them, passes.
pub open spec fn conversion_error_of(declared: Seq<char>, value: Seq<char>) -> Option<Seq<char>> {
    if declared == "i8"@ {
        integer_error_of(value, i8::MIN as int, i8::MAX as int, "i8"@)
    } else if declared == "i16"@ {
        integer_error_of(value, i16::MIN as int, i16::MAX as int, "i16"@)
    } else if declared == "i32"@ {
        integer_error_of(value, i32::MIN as int, i32::MAX as int, "i32"@)
    } else if declared == "i64"@ {
        integer_error_of(value, i64::MIN as int, i64::MAX as int, "i64"@)
    } else if declared == "isize"@ {
        integer_error_of(value, isize::MIN as int, isize::MAX as int, "isize"@)
    } else if declared == "u8"@ {
        integer_error_of(value, 0, u8::MAX as int, "u8"@)
    } else if declared == "u16"@ {
        integer_error_of(value, 0, u16::MAX as int, "u16"@)
    } else if declared == "u32"@ {
        integer_error_of(value, 0, u32::MAX as int, "u32"@)
    } else if declared == "u64"@ {
        integer_error_of(value, 0, u64::MAX as int, "u64"@)
    } else if declared == "usize"@ {
        integer_error_of(value, 0, usize::MAX as int, "usize"@)
    } else if declared == "bool"@ {
        boolean_error_of(value)
    } else if declared == "char"@ {
        char_error_of(value)
    } else if declared == "()"@ {
        unit_error_of(value)
    } else {
        None
    }
}

/// The text of an error, where there is one.
pub fn error_text<T>(r: Result<T, String>) -> (e: Option<String>)
    ensures
        match r {
            Ok(_) => e is None,
            Err(text) => e == Some(text),
        },
{
    match r {
        Ok(_) => None,
        Err(text) => Some(text),
    }
}

/// Checks an argument text against its declared type.
pub fn conversion_error(declared: &str, value: &str) -> (r: Option<String>)
    ensures
        crate::text::option_text(r) == conversion_error_of(declared@, value@),
{
    if str_equal(declared, "i8") {
        error_text(<i8 as TypeConverter>::convert_from_str(value))
    } else if str_equal(declared, "i16") {
        error_text(<i16 as TypeConverter>::convert_from_str(value))
    } else if str_equal(declared, "i32") {
        error_text(<i32 as TypeConverter>::convert_from_str(value))
    } else if str_equal(declared, "i64") {
        error_text(<i64 as TypeConverter>::convert_from_str(value))
    } else if str_equal(declared, "isize") {
        error_text(<isize as TypeConverter>::convert_from_str(value))
    } else if str_equal(declared, "u8") {
        error_text(<u8 as TypeConverter>::convert_from_str(value))
    } else if str_equal(declared, "u16") {
        error_text(<u16 as TypeConverter>::convert_from_str(value))
    } else if str_equal(declared, "u32") {
        error_text(<u32 as TypeConverter>::convert_from_str(value))
    } else if str_equal(declared, "u64") {
        error_text(<u64 as TypeConverter>::convert_from_str(value))
    } else if str_equal(declared, "usize") {
        error_text(<usize as TypeConverter>::convert_from_str(value))
    } else if str_equal(declared, "bool") {
        error_text(<bool as TypeConverter>::convert_from_str(value))
    } else if str_equal(declared, "char") {
        error_text(<char as TypeConverter>::convert_from_str(value))
    } else if str_equal(declared, "()") {
        error_text(<() as TypeConverter>::convert_from_str(value))
    } else {
        None
    }
}

/// The message of the first argument, from position `from` on, whose text
/// is no value of its declared type; `None` where every argument is one.
/// An argument without a declared type passes.
pub open spec fn mismatch_from(
    names: Seq<Seq<char>>,
    types: Seq<Seq<char>>,
    values: Seq<Seq<char>>,
    from: int,
) -> Option<Seq<char>>
    decreases values.len() - from,
{
    if from < 0 || from >= values.len() || from >= types.len() || from >= names.len() {
        None
    } else {
        match conversion_error_of(types[from], values[from]) {
            Some(message) => Some(
                "Failed to convert argument '"@ + names[from] + "': "@ + message,
            ),
            None => mismatch_from(names, types, values, from + 1),
        }
    }
}

/// Checks the argument texts against the declared types, in order.
pub fn find_mismatch(names: &Vec<String>, types: &Vec<String>, values: &Vec<String>) -> (r: Option<
    String,
>)
    ensures
        crate::text::option_text(r) == mismatch_from(texts(names@), texts(types@), texts(values@), 0),
{
    let mut i: usize = 0;
    while i < values.len() && i < types.len() && i < names.len()
        invariant
            mismatch_from(texts(names@), texts(types@), texts(values@), 0) == mismatch_from(
                texts(names@),
                texts(types@),
                texts(values@),
                i as int,
            ),
        decreases values@.len() - i,
    {
        match conversion_error(types[i].as_str(), values[i].as_str()) {
            Some(message) => {
                return Some(
                    join4(
                        "Failed to convert argument '",
                        names[i].as_str(),
                        "': ",
                        message.as_str(),
                    ),
                );
            },
            None => {},
        }
        i += 1;
    }
    None
}

/// Why the definition of a tool cannot be registered.
#[derive(Debug, PartialEq)]
pub enum DefinitionError {
    /// The definition is no JSON object with a member `name` that is a
    /// string and, where it has one, a member `description` that is a
    /// string or `null`.
    Unreadable,
    /// The definition names another tool; the name that it gives.
    NameMismatch(String),
}

/// The name that the definition of a tool gives: the member `name` of a
/// JSON object whose member `description`, where it has one, is a string
/// or `null`.
pub open spec fn definition_name(definition: Seq<char>) -> Option<Seq<char>> {
    match json_document(definition) {
        Some(doc) => if doc is Object && crate::llama::llama_utils::optional_text(
            doc.get("description"@),
        ) is Some {
            doc.get_str("name"@)
        } else {
            None
        },
        None => None,
    }
}

/// Whether a tool can be registered: its definition names the tool.
pub open spec fn definition_check(name: Seq<char>, definition: Seq<char>) -> Result<
    (),
    Option<Seq<char>>,
> {
    match definition_name(definition) {
        None => Err(None),
        Some(declared) => if declared == name {
            Ok(())
        } else {
            Err(Some(declared))
        },
    }
}

/// The name that the definition of a tool gives.
pub fn read_definition_name(definition: &str) -> (r: Option<String>)
    ensures
        crate::text::option_text(r) == definition_name(definition@),
{
    let doc = match parse_json(definition) {
        Ok(doc) => doc,
        Err(_) => {
            return None;
        },
    };
    if doc.as_object().is_none() {
        return None;
    }
    if crate::llama::llama_utils::member_text(&doc, "description").is_none() {
        return None;
    }
    match doc.get("name") {
        Some(name) => match name.as_str() {
            Some(name) => Some(name.to_owned()),
            None => None,
        },
        None => None,
    }
}

impl<F: Fn(&Vec<String>) -> Result<String, FunctionToolError>> ToolStore<F> {
    /// Registers `tool` where its definition names it; else the table
    /// stays as it is.
    pub fn register_defined(&mut self, tool: Tool<F>) -> (r: Result<(), DefinitionError>)
        ensures
            match r {
                Ok(_) => definition_check(tool.name@, tool.tool_def_obj@) is Ok && final(self)@
                    == old(self)@.insert(tool.name@, tool),
                Err(DefinitionError::Unreadable) => definition_check(
                    tool.name@,
                    tool.tool_def_obj@,
                ) == Err::<(), Option<Seq<char>>>(None) && final(self)@ == old(self)@,
                Err(DefinitionError::NameMismatch(declared)) => definition_check(
                    tool.name@,
                    tool.tool_def_obj@,
                ) == Err::<(), Option<Seq<char>>>(Some(declared@)) && final(self)@ == old(self)@,
            },
    {
        let declared = match read_definition_name(tool.tool_def_obj.as_str()) {
            Some(declared) => declared,
            None => {
                return Err(DefinitionError::Unreadable);
            },
        };
        if !str_equal(declared.as_str(), tool.name.as_str()) {
            return Err(DefinitionError::NameMismatch(declared));
        }
        self.register(tool);
        Ok(())
    }
}

/// The text of the argument of the parameter `name`, which stands at
/// `index`; an error where the list of arguments is too short.
pub fn argument_at<'a>(args: &'a Vec<String>, index: usize, name: &str) -> (r: Result<
    &'a String,
    FunctionToolError,
>)
    ensures
        match r {
            Ok(arg) => index < args@.len() && *arg == args@[index as int],
            Err(e) => index >= args@.len() && e.0@ == "Missing argument for parameter '"@ + name@
                + "'"@,
        },
{
    if index < args.len() {
        Ok(&args[index])
    } else {
        Err(FunctionToolError(join3("Missing argument for parameter '", name, "'")))
    }
}

/// The converted argument of the parameter `name`; where the conversion
/// failed, the error that names the parameter.
pub fn converted<T>(name: &str, value: Result<T, String>) -> (r: Result<T, FunctionToolError>)
    ensures
        match value {
            Ok(v) => r == Ok::<T, FunctionToolError>(v),
            Err(reason) => r matches Err(e) && e.0@ == "Failed to convert argument '"@ + name@
                + "': "@ + reason@,
        },
{
    match value {
        Ok(v) => Ok(v),
        Err(reason) => Err(
            FunctionToolError(join4("Failed to convert argument '", name, "': ", reason.as_str())),
        ),
    }
}

} // verus!
