use vstd::prelude::*;
use crate::tool::Tool;

verus! {

/// A named argument that some tool requires.
#[derive(Clone, Copy, Debug, PartialEq, Eq, Structural)]
pub enum Field {
    Owner,
    Repo,
    Title,
    Number,
    Path,
    Query,
}

/// The argument name of a field.
pub open spec fn field_name(f: Field) -> Seq<char> {
    match f {
        Field::Owner => "owner"@,
        Field::Repo => "repo"@,
        Field::Title => "title"@,
        Field::Number => "number"@,
        Field::Path => "path"@,
        Field::Query => "query"@,
    }
}

/// The fields that a tool cannot do without, in the order its error names them.
pub open spec fn required_fields(t: Tool) -> Seq<Field> {
    match t {
        Tool::ListRepos => seq![],
        Tool::GetRepo | Tool::ListIssues | Tool::ListPrs => seq![Field::Owner, Field::Repo],
        Tool::CreateIssue => seq![Field::Owner, Field::Repo, Field::Title],
        Tool::GetPr => seq![Field::Owner, Field::Repo, Field::Number],
        Tool::GetFile => seq![Field::Owner, Field::Repo, Field::Path],
        Tool::SearchCode => seq![Field::Query],
    }
}

/// The names of `fs[0..k]`, separated by ", ".
pub open spec fn joined_names(fs: Seq<Field>, k: nat) -> Seq<char>
    decreases k,
{
    if k <= 1 {
        if fs.len() > 0 {
            field_name(fs[0])
        } else {
            seq![]
        }
    } else {
        joined_names(fs, (k - 1) as nat) + ", "@ + field_name(fs[k - 1])
    }
}

/// "a is required", "a and b are required", "a, b, and c are required"; a
/// list of four or more goes on as the third does.
pub open spec fn required_phrase(fs: Seq<Field>) -> Seq<char> {
    if fs.len() == 0 {
        "required arguments are missing"@
    } else if fs.len() == 1 {
        field_name(fs[0]) + " is required"@
    } else if fs.len() == 2 {
        field_name(fs[0]) + " and "@ + field_name(fs[1]) + " are required"@
    } else {
        joined_names(fs, (fs.len() - 1) as nat) + ", and "@ + field_name(fs[fs.len() - 1])
            + " are required"@
    }
}

/// The failures that the plugin reports to its host as `{"error": message}`.
#[derive(Clone, Debug, PartialEq, Eq)]
pub enum ToolError {
    /// Required arguments are absent or empty: these, in the order in which
    /// the tool lists them.
    MissingArguments(Vec<Field>),
    /// No tool has this name.
    UnknownTool(String),
    /// The configuration holds no `github_token` string.
    MissingToken,
    /// The HTTP exchange failed; the transport's own message.
    Transport(String),
    /// The response body is not JSON; the message names the parse error.
    InvalidJson(String),
}

/// The message that the host receives for an error.
pub open spec fn error_message(e: ToolError) -> Seq<char> {
    match e {
        ToolError::MissingArguments(fs) => required_phrase(fs@),
        ToolError::UnknownTool(name) => "unknown tool: "@ + name@,
        ToolError::MissingToken => "github_token is required"@,
        ToolError::Transport(m) => m@,
        ToolError::InvalidJson(m) => m@,
    }
}

impl Field {
    /// The argument name of this field.
    pub fn name(&self) -> (r: &'static str)
        ensures
            r@ == field_name(*self),
    {
        match self {
            Field::Owner => "owner",
            Field::Repo => "repo",
            Field::Title => "title",
            Field::Number => "number",
            Field::Path => "path",
            Field::Query => "query",
        }
    }

    /// The fields that `t` cannot do without.
    pub fn required_by(t: Tool) -> (r: Vec<Field>)
        ensures
            r@ == required_fields(t),
    {
        let r = match t {
            Tool::ListRepos => vec![],
            Tool::GetRepo | Tool::ListIssues | Tool::ListPrs => vec![Field::Owner, Field::Repo],
            Tool::CreateIssue => vec![Field::Owner, Field::Repo, Field::Title],
            Tool::GetPr => vec![Field::Owner, Field::Repo, Field::Number],
            Tool::GetFile => vec![Field::Owner, Field::Repo, Field::Path],
            Tool::SearchCode => vec![Field::Query],
        };
        assert(r@ =~= required_fields(t));
        r
    }
}

impl ToolError {
    /// The message that the host receives for this error.
    pub fn message(&self) -> (r: String)
        ensures
            r@ == error_message(*self),
    {
        match self {
            ToolError::MissingArguments(fs) => {
                let n = fs.len();
                if n == 0 {
                    return String::from_str("required arguments are missing");
                }
                let mut r = String::from_str(fs[0].name());
                if n == 1 {
                    r.append(" is required");
                } else if n == 2 {
                    r.append(" and ");
                    r.append(fs[1].name());
                    r.append(" are required");
                } else {
                    let mut i: usize = 1;
                    while i < n - 1
                        invariant
                            n == fs@.len(),
                            3 <= n,
                            1 <= i <= n - 1,
                            r@ == joined_names(fs@, i as nat),
                        decreases n - i,
                    {
                        r.append(", ");
                        r.append(fs[i].name());
                        i = i + 1;
                    }
                    r.append(", and ");
                    r.append(fs[n - 1].name());
                    r.append(" are required");
                }
                r
            },
            ToolError::UnknownTool(name) => {
                let mut r = String::from_str("unknown tool: ");
                r.append(name.as_str());
                r
            },
            ToolError::MissingToken => String::from_str("github_token is required"),
            ToolError::Transport(m) => m.clone(),
            ToolError::InvalidJson(m) => m.clone(),
        }
    }
}

} // verus!
