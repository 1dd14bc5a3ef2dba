use crate::assoc::assoc_map;
use crate::environment::vars::EnvVars;
use crate::json::{
    items_value, members_pairs, value_get, value_get_str, Json, JsonValue,
};
use crate::mcp::types::{plain_error, ErrorView, McpError};
use vstd::prelude::*;
use vstd::string::StringExecFns;

verus! {

/// The members of an object that are strings, as a map from key to text.
pub open spec fn string_members(members: Map<Seq<char>, JsonValue>) -> Map<Seq<char>, Seq<char>> {
    Map::new(
        |k: Seq<char>| members.contains_key(k) && members[k] is Str,
        |k: Seq<char>| members[k]->Str_0,
    )
}

/// The items of an array that are strings, in their order.
pub open spec fn string_items(items: Seq<JsonValue>) -> Seq<Seq<char>>
    decreases items.len(),
{
    if items.len() == 0 {
        Seq::empty()
    } else {
        let rest = string_items(items.drop_last());
        match items.last() {
            JsonValue::Str(text) => rest.push(text),
            _ => rest,
        }
    }
}

/// The texts of a list of strings.
pub open spec fn texts(list: Seq<String>) -> Seq<Seq<char>> {
    list.map_values(|s: String| s@)
}

/// The string members of the object under `key`; none where there is no
/// object under it.
pub open spec fn value_get_string_map(doc: JsonValue, key: Seq<char>) -> Map<Seq<char>, Seq<char>> {
    match value_get(doc, key) {
        Some(JsonValue::Object(members)) => string_members(members),
        _ => Map::empty(),
    }
}

/// The string items of the array under `key`; none where there is no array
/// under it.
pub open spec fn value_get_string_list(doc: JsonValue, key: Seq<char>) -> Seq<Seq<char>> {
    match value_get(doc, key) {
        Some(JsonValue::Array(items)) => string_items(items),
        _ => Seq::empty(),
    }
}

/// Collects the string members of the object under `key`.
pub fn get_string_map(doc: &Json, key: &str) -> (vars: EnvVars)
    ensures
        vars@ == value_get_string_map(doc@, key@),
{
    let mut vars = EnvVars::new();
    let members = match doc.get(key) {
        Some(member) => match member.as_object() {
            Some(members) => members,
            None => {
                return vars;
            },
        },
        None => {
            return vars;
        },
    };
    let ghost pairs = members_pairs(members@);
    let mut i: usize = 0;
    assert(pairs.take(0) =~= Seq::empty());
    assert(vars@ =~= string_members(assoc_map(pairs.take(0))));
    while i < members.len()
        invariant
            i <= members@.len(),
            pairs == members_pairs(members@),
            vars@ == string_members(assoc_map(pairs.take(i as int))),
        decreases members@.len() - i,
    {
        let ghost done = assoc_map(pairs.take(i as int));
        proof {
            assert(pairs.take(i as int + 1).drop_last() =~= pairs.take(i as int));
            assert(pairs.take(i as int + 1).last() == (members@[i as int].0@, members@[i as int].1@));
        }
        match &members[i].1 {
            Json::Str(text) => {
                vars.insert(members[i].0.clone(), text.clone());
                assert(vars@ =~= string_members(done.insert(members@[i as int].0@, members@[i as int].1@)));
            },
            _ => {
                vars.remove(members[i].0.as_str());
                assert(vars@ =~= string_members(done.insert(members@[i as int].0@, members@[i as int].1@)));
            },
        }
        i += 1;
    }
    assert(pairs.take(members@.len() as int) =~= pairs);
    vars
}

/// Collects the string items of the array under `key`.
pub fn get_string_list(doc: &Json, key: &str) -> (list: Vec<String>)
    ensures
        texts(list@) == value_get_string_list(doc@, key@),
{
    let mut list: Vec<String> = Vec::new();
    assert(texts(list@) =~= Seq::empty());
    let items = match doc.get(key) {
        Some(member) => match member.as_array() {
            Some(items) => items,
            None => {
                return list;
            },
        },
        None => {
            return list;
        },
    };
    let ghost values = items_value(items@);
    let mut i: usize = 0;
    assert(values.take(0) =~= Seq::empty());
    while i < items.len()
        invariant
            i <= items@.len(),
            values == items_value(items@),
            texts(list@) == string_items(values.take(i as int)),
        decreases items@.len() - i,
    {
        proof {
            assert(values.take(i as int + 1).drop_last() =~= values.take(i as int));
            assert(values.take(i as int + 1).last() == items@[i as int]@);
        }
        let ghost before = texts(list@);
        match &items[i] {
            Json::Str(text) => {
                list.push(text.clone());
                assert(texts(list@) =~= before.push(text@));
            },
            _ => {},
        }
        i += 1;
    }
    assert(values.take(items@.len() as int) =~= values);
    list
}

/// What a request to create an environment asks for.
#[derive(Debug)]
pub struct CreateParams {
    pub env_id: String,
    pub project_root: String,
    pub image: String,
    pub env_vars: EnvVars,
    pub mount_path: String,
    pub ports: Vec<String>,
}

/// The mathematical counterpart of [`CreateParams`].
pub struct CreateParamsView {
    pub env_id: Seq<char>,
    pub project_root: Seq<char>,
    pub image: Seq<char>,
    pub env_vars: Map<Seq<char>, Seq<char>>,
    pub mount_path: Seq<char>,
    pub ports: Seq<Seq<char>>,
}

impl View for CreateParams {
    type V = CreateParamsView;

    open spec fn view(&self) -> CreateParamsView {
        CreateParamsView {
            env_id: self.env_id@,
            project_root: self.project_root@,
            image: self.image@,
            env_vars: self.env_vars@,
            mount_path: self.mount_path@,
            ports: texts(self.ports@),
        }
    }
}

/// What a request to run a command asks for.
#[derive(Debug, PartialEq, Eq)]
pub struct RunParams {
    pub env_id: String,
    pub command: String,
}

/// The mathematical counterpart of [`RunParams`].
pub struct RunParamsView {
    pub env_id: Seq<char>,
    pub command: Seq<char>,
}

impl View for RunParams {
    type V = RunParamsView;

    open spec fn view(&self) -> RunParamsView {
        RunParamsView { env_id: self.env_id@, command: self.command@ }
    }
}

/// The refusal for parameters that are missing or invalid.
pub open spec fn missing(what: Seq<char>) -> ErrorView {
    plain_error(-32602, what)
}

/// Reading the parameters of `create_environment`: `env_id`, `project_root`
/// and `image` must be strings and are asked for in this order; the rest is
/// optional.
pub open spec fn spec_create_params(params: Option<JsonValue>) -> Result<
    CreateParamsView,
    ErrorView,
> {
    match params {
        None => Err(missing("Missing parameters"@)),
        Some(p) => match value_get_str(p, "env_id"@) {
            None => Err(missing("Missing env_id"@)),
            Some(env_id) => match value_get_str(p, "project_root"@) {
                None => Err(missing("Missing project_root"@)),
                Some(project_root) => match value_get_str(p, "image"@) {
                    None => Err(missing("Missing image"@)),
                    Some(image) => Ok(
                        CreateParamsView {
                            env_id,
                            project_root,
                            image,
                            env_vars: value_get_string_map(p, "env_vars"@),
                            mount_path: match value_get_str(p, "mount_path"@) {
                                Some(path) => path,
                                None => "/workdir"@,
                            },
                            ports: value_get_string_list(p, "ports"@),
                        },
                    ),
                },
            },
        },
    }
}

/// Reading the parameters of `run_command`: `env_id` and `command` must be
/// strings and are asked for in this order.
pub open spec fn spec_run_params(params: Option<JsonValue>) -> Result<RunParamsView, ErrorView> {
    match params {
        None => Err(missing("Missing parameters"@)),
        Some(p) => match value_get_str(p, "env_id"@) {
            None => Err(missing("Missing env_id"@)),
            Some(env_id) => match value_get_str(p, "command"@) {
                None => Err(missing("Missing command"@)),
                Some(command) => Ok(RunParamsView { env_id, command }),
            },
        },
    }
}

/// Reads the parameters of `create_environment`.
pub fn parse_create_params(params: Option<&Json>) -> (r: Result<CreateParams, McpError>)
    ensures
        match r {
            Ok(p) => spec_create_params(
                match params {
                    Some(doc) => Some(doc@),
                    None => None,
                },
            ) == Ok::<CreateParamsView, ErrorView>(p@),
            Err(e) => spec_create_params(
                match params {
                    Some(doc) => Some(doc@),
                    None => None,
                },
            ) == Err::<CreateParamsView, ErrorView>(e@),
        },
{
    let doc = match params {
        Some(doc) => doc,
        None => {
            return Err(McpError::invalid_params("Missing parameters"));
        },
    };
    let env_id = match doc.get_str("env_id") {
        Some(text) => String::from_str(text),
        None => {
            return Err(McpError::invalid_params("Missing env_id"));
        },
    };
    let project_root = match doc.get_str("project_root") {
        Some(text) => String::from_str(text),
        None => {
            return Err(McpError::invalid_params("Missing project_root"));
        },
    };
    let image = match doc.get_str("image") {
        Some(text) => String::from_str(text),
        None => {
            return Err(McpError::invalid_params("Missing image"));
        },
    };
    let mount_path = match doc.get_str("mount_path") {
        Some(text) => String::from_str(text),
        None => String::from_str("/workdir"),
    };
    Ok(
        CreateParams {
            env_id,
            project_root,
            image,
            env_vars: get_string_map(doc, "env_vars"),
            mount_path,
            ports: get_string_list(doc, "ports"),
        },
    )
}

/// Reads the parameters of `run_command`.
pub fn parse_run_params(params: Option<&Json>) -> (r: Result<RunParams, McpError>)
    ensures
        match r {
            Ok(p) => spec_run_params(
                match params {
                    Some(doc) => Some(doc@),
                    None => None,
                },
            ) == Ok::<RunParamsView, ErrorView>(p@),
            Err(e) => spec_run_params(
                match params {
                    Some(doc) => Some(doc@),
                    None => None,
                },
            ) == Err::<RunParamsView, ErrorView>(e@),
        },
{
    let doc = match params {
        Some(doc) => doc,
        None => {
            return Err(McpError::invalid_params("Missing parameters"));
        },
    };
    let env_id = match doc.get_str("env_id") {
        Some(text) => String::from_str(text),
        None => {
            return Err(McpError::invalid_params("Missing env_id"));
        },
    };
    let command = match doc.get_str("command") {
        Some(text) => String::from_str(text),
        None => {
            return Err(McpError::invalid_params("Missing command"));
        },
    };
    Ok(RunParams { env_id, command })
}

} // verus!
