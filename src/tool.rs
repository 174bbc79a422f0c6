use vstd::prelude::*;

verus! {

/// The eight GitHub operations that the plugin exposes.
#[derive(Clone, Copy, Debug, PartialEq, Eq, Structural)]
pub enum Tool {
    ListRepos,
    GetRepo,
    ListIssues,
    CreateIssue,
    ListPrs,
    GetPr,
    GetFile,
    SearchCode,
}

/// The name under which a host invokes a tool.
pub open spec fn tool_name(t: Tool) -> Seq<char> {
    match t {
        Tool::ListRepos => "list_repos"@,
        Tool::GetRepo => "get_repo"@,
        Tool::ListIssues => "list_issues"@,
        Tool::CreateIssue => "create_issue"@,
        Tool::ListPrs => "list_prs"@,
        Tool::GetPr => "get_pr"@,
        Tool::GetFile => "get_file"@,
        Tool::SearchCode => "search_code"@,
    }
}

/// The description that the plugin descriptor gives a tool.
pub open spec fn tool_description(t: Tool) -> Seq<char> {
    match t {
        Tool::ListRepos => "List repositories for a user or org"@,
        Tool::GetRepo => "Get repository details"@,
        Tool::ListIssues => "List issues for a repository"@,
        Tool::CreateIssue => "Create a new issue"@,
        Tool::ListPrs => "List pull requests for a repository"@,
        Tool::GetPr => "Get pull request details"@,
        Tool::GetFile => "Get file contents from a repository"@,
        Tool::SearchCode => "Search code across repositories"@,
    }
}

/// Every tool, in the order in which the descriptor lists them.
pub open spec fn all_tools_spec() -> Seq<Tool> {
    seq![
        Tool::ListRepos,
        Tool::GetRepo,
        Tool::ListIssues,
        Tool::CreateIssue,
        Tool::ListPrs,
        Tool::GetPr,
        Tool::GetFile,
        Tool::SearchCode,
    ]
}

/// No two tools share a name.
pub proof fn lemma_tool_names_distinct(a: Tool, b: Tool)
    requires
        a != b,
    ensures
        tool_name(a) != tool_name(b),
{
    reveal_strlit("list_repos");
    reveal_strlit("get_repo");
    reveal_strlit("list_issues");
    reveal_strlit("create_issue");
    reveal_strlit("list_prs");
    reveal_strlit("get_pr");
    reveal_strlit("get_file");
    reveal_strlit("search_code");
    if tool_name(a) == tool_name(b) {
        let (x, y) = (tool_name(a), tool_name(b));
        assert(x.len() == y.len());
        assert(x[0] == y[0]);
        assert(x[4] == y[4]);
        assert(x[5] == y[5]);
    }
}

impl Tool {
    /// The name under which a host invokes this tool.
    pub fn name(&self) -> (r: &'static str)
        ensures
            r@ == tool_name(*self),
    {
        match self {
            Tool::ListRepos => "list_repos",
            Tool::GetRepo => "get_repo",
            Tool::ListIssues => "list_issues",
            Tool::CreateIssue => "create_issue",
            Tool::ListPrs => "list_prs",
            Tool::GetPr => "get_pr",
            Tool::GetFile => "get_file",
            Tool::SearchCode => "search_code",
        }
    }

    /// The tool's one-line description.
    pub fn description(&self) -> (r: &'static str)
        ensures
            r@ == tool_description(*self),
    {
        match self {
            Tool::ListRepos => "List repositories for a user or org",
            Tool::GetRepo => "Get repository details",
            Tool::ListIssues => "List issues for a repository",
            Tool::CreateIssue => "Create a new issue",
            Tool::ListPrs => "List pull requests for a repository",
            Tool::GetPr => "Get pull request details",
            Tool::GetFile => "Get file contents from a repository",
            Tool::SearchCode => "Search code across repositories",
        }
    }

    /// The tool whose name is exactly `name`, if any.
    pub fn from_name(name: &str) -> (r: Option<Tool>)
        ensures
            r matches Some(t) ==> tool_name(t) == name@,
            r is None ==> forall|t: Tool| tool_name(t) != name@,
    {
        let n = String::from_str(name);
        let all = Tool::all();
        let mut i: usize = 0;
        while i < all.len()
            invariant
                all@ == all_tools_spec(),
                n@ == name@,
                0 <= i <= all@.len(),
                forall|j: int| 0 <= j < i ==> tool_name(all@[j]) != name@,
            decreases all@.len() - i,
        {
            let t = all[i];
            if String::from_str(t.name()) == n {
                return Some(t);
            }
            i = i + 1;
        }
        proof {
            assert forall|t: Tool| tool_name(t) != name@ by {
                assert(all_tools_spec().contains(t)) by {
                    match t {
                        Tool::ListRepos => assert(all_tools_spec()[0] == t),
                        Tool::GetRepo => assert(all_tools_spec()[1] == t),
                        Tool::ListIssues => assert(all_tools_spec()[2] == t),
                        Tool::CreateIssue => assert(all_tools_spec()[3] == t),
                        Tool::ListPrs => assert(all_tools_spec()[4] == t),
                        Tool::GetPr => assert(all_tools_spec()[5] == t),
                        Tool::GetFile => assert(all_tools_spec()[6] == t),
                        Tool::SearchCode => assert(all_tools_spec()[7] == t),
                    }
                }
            }
        }
        None
    }

    /// Every tool, in the order in which the descriptor lists them.
    pub fn all() -> (r: Vec<Tool>)
        ensures
            r@ == all_tools_spec(),
    {
        let r = vec![
            Tool::ListRepos,
            Tool::GetRepo,
            Tool::ListIssues,
            Tool::CreateIssue,
            Tool::ListPrs,
            Tool::GetPr,
            Tool::GetFile,
            Tool::SearchCode,
        ];
        assert(r@ =~= all_tools_spec());
        r
    }
}

} // verus!
