use crate::json::Json;
use crate::table::NameTable;
use vstd::prelude::*;
use vstd::string::*;

verus! {

/// The error code of a tool call that failed.
pub const TOOL_FAILED: i32 = -32000;

/// The error code of a call to a method the server does not have.
pub const METHOD_NOT_FOUND: i32 = -32601;

/// The error code of a message that is not a valid call.
pub const INVALID_REQUEST: i32 = -32600;

/// What a tool call asks the server to do.
#[derive(Debug)]
pub enum ToolAction {
    ListProjects,
    LaunchProject(String),
    ExecCommand { project: String, command: String },
    /// The call cannot be carried out; the message says why.
    Reject(String),
}

/// The string argument `key` of a tool call.
pub open spec fn string_argument(arguments: Option<Map<Seq<char>, Json>>, key: Seq<char>) -> Option<
    Seq<char>,
> {
    match arguments {
        Some(args) => if args.contains_key(key) {
            args[key].text()
        } else {
            None
        },
        None => None,
    }
}

/// The arguments of a tool call, as a map.
pub open spec fn arguments_view(arguments: Option<NameTable<Json>>) -> Option<Map<Seq<char>, Json>> {
    match arguments {
        Some(t) => Some(t@),
        None => None,
    }
}

fn argument(arguments: &Option<NameTable<Json>>, key: &str) -> (r: Option<String>)
    ensures
        match r {
            Some(s) => string_argument(arguments_view(*arguments), key@) == Some(s@),
            None => string_argument(arguments_view(*arguments), key@) is None,
        },
{
    match arguments {
        Some(args) => match args.get(key) {
            Some(v) => match v.as_str() {
                Some(s) => Some(s.clone()),
                None => None,
            },
            None => None,
        },
        None => None,
    }
}

/// Decides what the tool call `name` with `arguments` asks for: one of the
/// three tools, with the string arguments it needs, or a rejection.
pub fn tool_action(name: &str, arguments: &Option<NameTable<Json>>) -> (r: ToolAction)
    ensures
        ({
            let args = arguments_view(*arguments);
            if name@ == "list_projects"@ {
                r is ListProjects
            } else if name@ == "launch_project"@ {
                match string_argument(args, "name"@) {
                    Some(n) => r matches ToolAction::LaunchProject(p) && p@ == n,
                    None => r matches ToolAction::Reject(m) && m@ == "Missing 'name' argument"@,
                }
            } else if name@ == "exec_command"@ {
                if string_argument(args, "project"@) is Some && string_argument(args, "command"@) is Some {
                    r matches ToolAction::ExecCommand { project, command } && project@
                        == string_argument(args, "project"@)->0 && command@ == string_argument(
                        args,
                        "command"@,
                    )->0
                } else {
                    r matches ToolAction::Reject(m) && m@
                        == "Missing 'project' or 'command' argument"@
                }
            } else {
                r matches ToolAction::Reject(m) && m@ == "Unknown tool: "@ + name@
            }
        }),
{
    let n = String::from_str(name);
    if n == String::from_str("list_projects") {
        ToolAction::ListProjects
    } else if n == String::from_str("launch_project") {
        match argument(arguments, "name") {
            Some(p) => ToolAction::LaunchProject(p),
            None => ToolAction::Reject(String::from_str("Missing 'name' argument")),
        }
    } else if n == String::from_str("exec_command") {
        match (argument(arguments, "project"), argument(arguments, "command")) {
            (Some(project), Some(command)) => ToolAction::ExecCommand { project, command },
            _ => ToolAction::Reject(String::from_str("Missing 'project' or 'command' argument")),
        }
    } else {
        ToolAction::Reject(String::from_str("Unknown tool: ").concat(name))
    }
}

/// The text that reports a launched project.
pub fn launched_text(project: &String) -> (r: String)
    ensures
        r@ == "Launched project: "@ + project@,
{
    String::from_str("Launched project: ").concat(project.as_str())
}

/// The projects as one line, separated by a comma and a space.
pub open spec fn joined(projects: Seq<String>) -> Seq<char>
    decreases projects.len(),
{
    if projects.len() == 0 {
        Seq::empty()
    } else if projects.len() == 1 {
        projects[0]@
    } else {
        joined(projects.drop_last()) + ", "@ + projects.last()@
    }
}

/// The text that lists the projects.
pub fn projects_text(projects: &Vec<String>) -> (r: String)
    ensures
        r@ == joined(projects@),
{
    let mut out = String::new();
    let mut i: usize = 0;
    while i < projects.len()
        invariant
            i <= projects@.len(),
            out@ == joined(projects@.subrange(0, i as int)),
        decreases projects@.len() - i,
    {
        proof {
            let s = projects@.subrange(0, i as int + 1);
            assert(s.drop_last() =~= projects@.subrange(0, i as int));
            assert(s.last() == projects@[i as int]);
            if i == 0 {
                assert(s.len() == 1);
            }
        }
        if i > 0 {
            out.append(", ");
        }
        out.append(projects[i].as_str());
        proof {
            let s = projects@.subrange(0, i as int + 1);
            if i == 0 {
                assert(joined(projects@.subrange(0, 0)) == Seq::<char>::empty());
                assert(out@ =~= joined(s));
            } else {
                assert(out@ =~= joined(s));
            }
        }
        i = i + 1;
    }
    assert(projects@.subrange(0, projects@.len() as int) =~= projects@);
    out
}

/// The error for a call to an unknown method: "method not found" when the
/// call has an id to answer under, "invalid request" otherwise.
pub fn unknown_method_error(method: &str, has_id: bool) -> (r: (i32, String))
    ensures
        has_id ==> r.0 == METHOD_NOT_FOUND && r.1@ == "Method not found: "@ + method@,
        !has_id ==> r.0 == INVALID_REQUEST && r.1@ == "Invalid Request"@,
{
    if has_id {
        (METHOD_NOT_FOUND, String::from_str("Method not found: ").concat(method))
    } else {
        (INVALID_REQUEST, String::from_str("Invalid Request"))
    }
}

} // verus!
