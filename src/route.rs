use vstd::prelude::*;
use crate::args::{Args, Config, arg_or, text_or};
use crate::error::{Field, ToolError, required_fields};
use crate::json::{encode_issue, issue_body};
use crate::text::{
    has_prefix, replace_spaces, spaces_to_plus, starts_with, trim_double_quotes, trim_quotes,
};
use crate::tool::{Tool, lemma_tool_names_distinct, tool_name};

verus! {

/// The HTTP method of a request.
#[derive(Clone, Copy, Debug, PartialEq, Eq, Structural)]
pub enum Method {
    Get,
    Post,
}

/// One HTTP header.
#[derive(Clone, Debug, PartialEq, Eq)]
pub struct Header {
    pub name: String,
    pub value: String,
}

/// The one HTTP request that a tool invocation makes.
#[derive(Clone, Debug, PartialEq, Eq)]
pub struct Request {
    pub method: Method,
    pub url: String,
    pub headers: Vec<Header>,
    pub body: Option<String>,
}

/// A request as plain text: method, URL, headers as (name, value), body.
pub struct RequestView {
    pub method: Method,
    pub url: Seq<char>,
    pub headers: Seq<(Seq<char>, Seq<char>)>,
    pub body: Option<Seq<char>>,
}

pub open spec fn header_view(h: Header) -> (Seq<char>, Seq<char>) {
    (h.name@, h.value@)
}

impl View for Request {
    type V = RequestView;

    open spec fn view(&self) -> RequestView {
        RequestView {
            method: self.method,
            url: self.url@,
            headers: self.headers@.map_values(|h: Header| header_view(h)),
            body: match self.body {
                Some(b) => Some(b@),
                None => None,
            },
        }
    }
}

/// The text of a field in an argument bundle. `number` counts by its bare
/// text: its JSON text without the quotes of a string.
pub open spec fn field_text(a: Args, f: Field) -> Seq<char> {
    match f {
        Field::Owner => text_or(a.owner, seq![]),
        Field::Repo => text_or(a.repo, seq![]),
        Field::Title => text_or(a.title, seq![]),
        Field::Number => trim_quotes(text_or(a.number, seq![])),
        Field::Path => text_or(a.path, seq![]),
        Field::Query => text_or(a.query, seq![]),
    }
}

/// Whether field `f` of `a` is absent or empty.
pub open spec fn is_blank(a: Args, f: Field) -> bool {
    field_text(a, f).len() == 0
}

/// The fields that `t` requires and `a` lacks, in the order `t` lists them.
pub open spec fn missing_fields(t: Tool, a: Args) -> Seq<Field> {
    required_fields(t).filter(|f: Field| is_blank(a, f))
}

/// Whether some field that `t` requires is absent or empty in `a`.
pub open spec fn lacks_required(t: Tool, a: Args) -> bool {
    missing_fields(t, a).len() > 0
}

/// "/repos/{owner}/{repo}".
pub open spec fn repo_path(a: Args) -> Seq<char> {
    "/repos/"@ + field_text(a, Field::Owner) + "/"@ + field_text(a, Field::Repo)
}

/// The API path that tool `t` requests for arguments `a`.
pub open spec fn request_path(t: Tool, a: Args) -> Seq<char> {
    match t {
        Tool::ListRepos => if field_text(a, Field::Owner).len() == 0 {
            "/user/repos?per_page=30&sort=updated"@
        } else {
            "/users/"@ + field_text(a, Field::Owner) + "/repos?per_page=30&sort=updated"@
        },
        Tool::GetRepo => repo_path(a),
        Tool::ListIssues => repo_path(a) + "/issues?state="@ + text_or(a.state, "open"@)
            + "&per_page=30"@,
        Tool::CreateIssue => repo_path(a) + "/issues"@,
        Tool::ListPrs => repo_path(a) + "/pulls?state="@ + text_or(a.state, "open"@)
            + "&per_page=30"@,
        Tool::GetPr => repo_path(a) + "/pulls/"@ + field_text(a, Field::Number),
        Tool::GetFile => repo_path(a) + "/contents/"@ + field_text(a, Field::Path) + "?ref="@
            + text_or(a.branch, "main"@),
        Tool::SearchCode => "/search/code?q="@ + spaces_to_plus(field_text(a, Field::Query))
            + "&per_page=20"@,
    }
}

/// The method that tool `t` uses.
pub open spec fn tool_method(t: Tool) -> Method {
    if t == Tool::CreateIssue {
        Method::Post
    } else {
        Method::Get
    }
}

/// The body that tool `t` sends for arguments `a`.
pub open spec fn request_body(t: Tool, a: Args) -> Option<Seq<char>> {
    if t == Tool::CreateIssue {
        Some(issue_body(field_text(a, Field::Title), text_or(a.body, seq![])))
    } else {
        None
    }
}

/// The URL of an API path: absolute URLs stand as they are.
pub open spec fn api_url(path: Seq<char>) -> Seq<char> {
    if has_prefix(path, "https://"@) {
        path
    } else {
        "https://api.github.com"@ + path
    }
}

/// The headers of every API request; a POST also declares its JSON body.
pub open spec fn api_headers(token: Seq<char>, m: Method) -> Seq<(Seq<char>, Seq<char>)> {
    let common = seq![
        ("Authorization"@, "Bearer "@ + token),
        ("Accept"@, "application/vnd.github+json"@),
        ("User-Agent"@, "magi-github-plugin/0.1"@),
        ("X-GitHub-Api-Version"@, "2022-11-28"@),
    ];
    if m == Method::Post {
        common.push(("Content-Type"@, "application/json"@))
    } else {
        common
    }
}

/// The request that tool `t` makes for arguments `a` with this token.
pub open spec fn planned_request(t: Tool, a: Args, token: Seq<char>) -> RequestView {
    RequestView {
        method: tool_method(t),
        url: api_url(request_path(t, a)),
        headers: api_headers(token, tool_method(t)),
        body: request_body(t, a),
    }
}

/// The token that requests carry: the configured one, or empty.
pub open spec fn config_token(c: Config) -> Seq<char> {
    text_or(c.github_token, seq![])
}

fn header(name: &str, value: &str) -> (r: Header)
    ensures
        header_view(r) == (name@, value@),
{
    Header { name: String::from_str(name), value: String::from_str(value) }
}

/// The URL of an API path: absolute URLs stand as they are.
pub fn request_url(path: &str) -> (r: String)
    ensures
        r@ == api_url(path@),
{
    if starts_with(path, "https://") {
        String::from_str(path)
    } else {
        let mut r = String::from_str("https://api.github.com");
        r.append(path);
        r
    }
}

/// The headers of an API request carrying `token`.
pub fn request_headers(token: &str, m: Method) -> (r: Vec<Header>)
    ensures
        r@.map_values(|h: Header| header_view(h)) == api_headers(token@, m),
{
    let mut auth = String::from_str("Bearer ");
    auth.append(token);
    let mut r = vec![
        header("Authorization", auth.as_str()),
        header("Accept", "application/vnd.github+json"),
        header("User-Agent", "magi-github-plugin/0.1"),
        header("X-GitHub-Api-Version", "2022-11-28"),
    ];
    if m == Method::Post {
        r.push(header("Content-Type", "application/json"));
    }
    assert(r@.map_values(|h: Header| header_view(h)) =~= api_headers(token@, m));
    r
}

/// The text of `field` in `a`, as `field_text` gives it.
fn field_value(a: &Args, f: Field) -> (r: String)
    ensures
        r@ == field_text(*a, f),
{
    proof {
        reveal_strlit("");
    }
    match f {
        Field::Owner => String::from_str(arg_or(&a.owner, "")),
        Field::Repo => String::from_str(arg_or(&a.repo, "")),
        Field::Title => String::from_str(arg_or(&a.title, "")),
        Field::Number => trim_double_quotes(arg_or(&a.number, "")),
        Field::Path => String::from_str(arg_or(&a.path, "")),
        Field::Query => String::from_str(arg_or(&a.query, "")),
    }
}

/// The fields that `t` requires and `a` lacks, in the order `t` lists them.
pub fn missing_arguments(t: Tool, a: &Args) -> (r: Vec<Field>)
    ensures
        r@ == missing_fields(t, *a),
{
    let fs = Field::required_by(t);
    let mut r: Vec<Field> = Vec::new();
    let mut i: usize = 0;
    while i < fs.len()
        invariant
            fs@ == required_fields(t),
            i <= fs@.len(),
            r@ == fs@.subrange(0, i as int).filter(|f: Field| is_blank(*a, f)),
        decreases fs@.len() - i,
    {
        let f = fs[i];
        let v = field_value(a, f);
        if v.unicode_len() == 0 {
            r.push(f);
        }
        proof {
            reveal(Seq::filter);
            assert(fs@.subrange(0, i + 1).drop_last() =~= fs@.subrange(0, i as int));
        }
        i = i + 1;
    }
    assert(fs@.subrange(0, fs@.len() as int) =~= fs@);
    r
}

/// "/repos/{owner}/{repo}".
fn repo_prefix(a: &Args) -> (r: String)
    ensures
        r@ == repo_path(*a),
{
    let mut r = String::from_str("/repos/");
    r.append(field_value(a, Field::Owner).as_str());
    r.append("/");
    r.append(field_value(a, Field::Repo).as_str());
    r
}

/// The API path that tool `t` requests for arguments `a`.
pub fn tool_path(t: Tool, a: &Args) -> (r: String)
    ensures
        r@ == request_path(t, *a),
{
    match t {
        Tool::ListRepos => {
            let owner = field_value(a, Field::Owner);
            if owner.unicode_len() == 0 {
                String::from_str("/user/repos?per_page=30&sort=updated")
            } else {
                let mut r = String::from_str("/users/");
                r.append(owner.as_str());
                r.append("/repos?per_page=30&sort=updated");
                r
            }
        },
        Tool::GetRepo => repo_prefix(a),
        Tool::ListIssues | Tool::ListPrs => {
            let mut r = repo_prefix(a);
            if t == Tool::ListIssues {
                r.append("/issues?state=");
            } else {
                r.append("/pulls?state=");
            }
            r.append(arg_or(&a.state, "open"));
            r.append("&per_page=30");
            r
        },
        Tool::CreateIssue => {
            let mut r = repo_prefix(a);
            r.append("/issues");
            r
        },
        Tool::GetPr => {
            let mut r = repo_prefix(a);
            r.append("/pulls/");
            r.append(field_value(a, Field::Number).as_str());
            r
        },
        Tool::GetFile => {
            let mut r = repo_prefix(a);
            r.append("/contents/");
            r.append(field_value(a, Field::Path).as_str());
            r.append("?ref=");
            r.append(arg_or(&a.branch, "main"));
            r
        },
        Tool::SearchCode => {
            let mut r = String::from_str("/search/code?q=");
            let q = field_value(a, Field::Query);
            r.append(replace_spaces(q.as_str()).as_str());
            r.append("&per_page=20");
            r
        },
    }
}

/// Validates the arguments of tool `t` and builds its request: an error
/// naming the required fields that are absent or empty, if any.
pub fn route(t: Tool, a: &Args, token: &str) -> (r: Result<Request, ToolError>)
    ensures
        r is Err <==> lacks_required(t, *a),
        r is Err ==> r->Err_0 is MissingArguments,
        r is Err ==> r->Err_0->MissingArguments_0@ == missing_fields(t, *a),
        r is Ok ==> r->Ok_0@ == planned_request(t, *a, token@),
{
    let missing = missing_arguments(t, a);
    if missing.len() > 0 {
        return Err(ToolError::MissingArguments(missing));
    }
    let method = if t == Tool::CreateIssue {
        Method::Post
    } else {
        Method::Get
    };
    let path = tool_path(t, a);
    proof {
        reveal_strlit("");
        assert(""@ =~= Seq::<char>::empty());
    }
    let body = if t == Tool::CreateIssue {
        let title = field_value(a, Field::Title);
        Some(encode_issue(title.as_str(), arg_or(&a.body, "")))
    } else {
        None
    };
    let req = Request {
        method,
        url: request_url(path.as_str()),
        headers: request_headers(token, method),
        body,
    };
    Ok(req)
}

/// Handles a host invocation of the tool named `name`: the request to make,
/// or the error to report without making one. Requests carry the configured
/// token, or an empty one.
pub fn process(name: &str, a: &Args, config: &Config) -> (r: Result<Request, ToolError>)
    ensures
        (forall|t: Tool| tool_name(t) != name@) ==> (r is Err && r->Err_0 is UnknownTool),
        (forall|t: Tool| tool_name(t) != name@) ==> r->Err_0->UnknownTool_0@ == name@,
        forall|t: Tool| tool_name(t) == name@ ==> {
            &&& (r is Err <==> lacks_required(t, *a))
            &&& r is Err ==> r->Err_0 is MissingArguments
            &&& r is Err ==> r->Err_0->MissingArguments_0@ == missing_fields(t, *a)
            &&& r is Ok ==> r->Ok_0@ == planned_request(t, *a, config_token(*config))
        },
{
    match Tool::from_name(name) {
        None => Err(ToolError::UnknownTool(String::from_str(name))),
        Some(t) => {
            proof {
                assert forall|u: Tool| tool_name(u) == name@ implies u == t by {
                    if u != t {
                        lemma_tool_names_distinct(u, t);
                    }
                }
            }
            proof {
                reveal_strlit("");
            }
            route(t, a, arg_or(&config.github_token, ""))
        },
    }
}

} // verus!
