use magi_github_plugin::args::{Args, Config};
use magi_github_plugin::error::{Field, ToolError};
use magi_github_plugin::route::{process, request_url, Header, Method, Request};
use magi_github_plugin::tool::Tool;

fn s(v: &str) -> Option<String> {
    Some(v.to_string())
}

fn config() -> Config {
    Config { github_token: s("tok"), default_owner: None }
}

fn call(tool: &str, args: Args) -> Result<Request, ToolError> {
    process(tool, &args, &config())
}

fn url_of(tool: &str, args: Args) -> String {
    call(tool, args).expect("a request").url
}

fn owner_repo() -> Args {
    Args { owner: s("o"), repo: s("r"), ..Default::default() }
}

#[test]
fn missing_owner_or_repo_is_reported() {
    for tool in ["get_repo", "list_issues", "list_prs"] {
        let only_owner = Args { owner: s("o"), ..Default::default() };
        assert_eq!(call(tool, only_owner).unwrap_err().message(), "repo is required");
        let empty_repo = Args { owner: s("o"), repo: s(""), ..Default::default() };
        assert_eq!(
            call(tool, empty_repo).unwrap_err(),
            ToolError::MissingArguments(vec![Field::Repo])
        );
        let only_repo = Args { repo: s("r"), state: s("closed"), ..Default::default() };
        assert_eq!(call(tool, only_repo).unwrap_err().message(), "owner is required");
        let none = Args::default();
        assert_eq!(call(tool, none).unwrap_err().message(), "owner and repo are required");
    }
}

#[test]
fn missing_fields_of_three_field_tools() {
    let e = call("create_issue", owner_repo()).unwrap_err();
    assert_eq!(e, ToolError::MissingArguments(vec![Field::Title]));
    assert_eq!(e.message(), "title is required");
    let e = call("create_issue", Args::default()).unwrap_err();
    assert_eq!(e.message(), "owner, repo, and title are required");
    let e = call("create_issue", Args { title: s("t"), repo: s("r"), ..Default::default() })
        .unwrap_err();
    assert_eq!(e, ToolError::MissingArguments(vec![Field::Owner]));
    let e = call("get_pr", owner_repo()).unwrap_err();
    assert_eq!(e.message(), "number is required");
    let e = call("get_pr", Args { number: s("42"), ..Default::default() }).unwrap_err();
    assert_eq!(e.message(), "owner and repo are required");
    let e = call("get_file", Args { owner: s("o"), ..Default::default() }).unwrap_err();
    assert_eq!(e.message(), "repo and path are required");
    let e = call("get_file", owner_repo()).unwrap_err();
    assert_eq!(e.message(), "path is required");
    let e = call("search_code", Args { query: s(""), ..Default::default() }).unwrap_err();
    assert_eq!(e.message(), "query is required");
}

#[test]
fn missing_argument_messages_for_any_list() {
    assert_eq!(ToolError::MissingArguments(vec![]).message(), "required arguments are missing");
    let four = vec![Field::Owner, Field::Repo, Field::Path, Field::Query];
    assert_eq!(
        ToolError::MissingArguments(four).message(),
        "owner, repo, path, and query are required"
    );
}

#[test]
fn empty_string_number_is_missing() {
    let args = Args { number: s("\"\""), ..owner_repo() };
    let e = call("get_pr", args).unwrap_err();
    assert_eq!(e, ToolError::MissingArguments(vec![Field::Number]));
    assert_eq!(e.message(), "number is required");
}

#[test]
fn list_repos_targets_user_or_owner() {
    assert_eq!(
        url_of("list_repos", Args::default()),
        "https://api.github.com/user/repos?per_page=30&sort=updated"
    );
    assert_eq!(
        url_of("list_repos", Args { owner: s(""), ..Default::default() }),
        "https://api.github.com/user/repos?per_page=30&sort=updated"
    );
    assert_eq!(
        url_of("list_repos", Args { owner: s("acme"), ..Default::default() }),
        "https://api.github.com/users/acme/repos?per_page=30&sort=updated"
    );
}

#[test]
fn get_repo_path() {
    let r = call("get_repo", owner_repo()).unwrap();
    assert_eq!(r.url, "https://api.github.com/repos/o/r");
    assert_eq!(r.method, Method::Get);
    assert_eq!(r.body, None);
}

#[test]
fn list_state_defaults_to_open() {
    assert_eq!(
        url_of("list_issues", owner_repo()),
        "https://api.github.com/repos/o/r/issues?state=open&per_page=30"
    );
    assert_eq!(
        url_of("list_issues", Args { state: s("closed"), ..owner_repo() }),
        "https://api.github.com/repos/o/r/issues?state=closed&per_page=30"
    );
    assert_eq!(
        url_of("list_prs", owner_repo()),
        "https://api.github.com/repos/o/r/pulls?state=open&per_page=30"
    );
    assert_eq!(
        url_of("list_prs", Args { state: s("all"), ..owner_repo() }),
        "https://api.github.com/repos/o/r/pulls?state=all&per_page=30"
    );
}

#[test]
fn get_pr_number_as_integer_or_string() {
    let as_int = url_of("get_pr", Args { number: s("42"), ..owner_repo() });
    let as_str = url_of("get_pr", Args { number: s("\"42\""), ..owner_repo() });
    assert_eq!(as_int, "https://api.github.com/repos/o/r/pulls/42");
    assert_eq!(as_int, as_str);
}

#[test]
fn get_file_branch_defaults_to_main() {
    let a = Args { path: s("src/lib.rs"), ..owner_repo() };
    assert_eq!(
        url_of("get_file", a.clone()),
        "https://api.github.com/repos/o/r/contents/src/lib.rs?ref=main"
    );
    assert_eq!(
        url_of("get_file", Args { branch: s("dev"), ..a }),
        "https://api.github.com/repos/o/r/contents/src/lib.rs?ref=dev"
    );
}

#[test]
fn search_code_encodes_spaces() {
    assert_eq!(
        url_of("search_code", Args { query: s("foo bar"), ..Default::default() }),
        "https://api.github.com/search/code?q=foo+bar&per_page=20"
    );
    assert_eq!(
        url_of("search_code", Args { query: s(" a  b "), ..Default::default() }),
        "https://api.github.com/search/code?q=+a++b+&per_page=20"
    );
}

#[test]
fn unknown_tool_is_reported() {
    let e = call("delete_repo", owner_repo()).unwrap_err();
    assert_eq!(e, ToolError::UnknownTool("delete_repo".to_string()));
    assert_eq!(e.message(), "unknown tool: delete_repo");
    let e = call("", Args::default()).unwrap_err();
    assert_eq!(e.message(), "unknown tool: ");
}

#[test]
fn create_issue_posts_json_body() {
    let args = Args { title: s("Bug"), ..owner_repo() };
    let r = call("create_issue", args).unwrap();
    assert_eq!(r.method, Method::Post);
    assert_eq!(r.url, "https://api.github.com/repos/o/r/issues");
    assert_eq!(r.body.as_deref(), Some("{\"body\":\"\",\"title\":\"Bug\"}"));
    assert_eq!(r.headers.len(), 5);
    assert_eq!(
        r.headers[4],
        Header { name: "Content-Type".to_string(), value: "application/json".to_string() }
    );
}

#[test]
fn create_issue_escapes_text() {
    let args = Args { title: s("say \"hi\""), body: s("a\nb"), ..owner_repo() };
    let r = call("create_issue", args).unwrap();
    assert_eq!(r.body.as_deref(), Some("{\"body\":\"a\\nb\",\"title\":\"say \\\"hi\\\"\"}"));
}

#[test]
fn requests_carry_the_token_and_api_headers() {
    let r = call("get_repo", owner_repo()).unwrap();
    let pairs: Vec<(String, String)> =
        r.headers.iter().map(|h| (h.name.clone(), h.value.clone())).collect();
    let expected = vec![
        ("Authorization".to_string(), "Bearer tok".to_string()),
        ("Accept".to_string(), "application/vnd.github+json".to_string()),
        ("User-Agent".to_string(), "magi-github-plugin/0.1".to_string()),
        ("X-GitHub-Api-Version".to_string(), "2022-11-28".to_string()),
    ];
    assert_eq!(pairs, expected);
    let r = process("get_repo", &owner_repo(), &Config::default()).unwrap();
    assert_eq!(r.headers[0].value, "Bearer ");
}

#[test]
fn absolute_urls_are_kept() {
    assert_eq!(request_url("https://example.com/x"), "https://example.com/x");
    assert_eq!(request_url("/user"), "https://api.github.com/user");
    assert_eq!(request_url("https:/"), "https://api.github.comhttps:/");
}

#[test]
fn field_names() {
    assert_eq!(Field::Owner.name(), "owner");
    assert_eq!(Field::required_by(Tool::GetFile), vec![Field::Owner, Field::Repo, Field::Path]);
    assert!(Field::required_by(Tool::ListRepos).is_empty());
}
