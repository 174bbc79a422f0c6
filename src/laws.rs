use vstd::prelude::*;
use crate::args::{Args, Config};
use crate::error::{Field, required_fields};
use crate::plugin::{config_has, schema_spec};
use crate::route::{field_text, is_blank, missing_fields, repo_path, request_path};
use crate::text::{strip_leading_quotes, strip_trailing_quotes, trim_quotes};
use crate::tool::{Tool, all_tools_spec, lemma_tool_names_distinct, tool_name};

verus! {

/// The descriptor and the router agree: every tool appears in the
/// descriptor's list, and no two listed tools share a name, so each listed
/// name selects exactly its own tool.
pub proof fn lemma_descriptor_matches_router()
    ensures
        forall|t: Tool| all_tools_spec().contains(t),
        forall|i: int, j: int|
            0 <= i < all_tools_spec().len() && 0 <= j < all_tools_spec().len() && i != j
                ==> tool_name(all_tools_spec()[i]) != tool_name(all_tools_spec()[j]),
{
    assert forall|t: Tool| all_tools_spec().contains(t) by {
        let k: int = match t {
            Tool::ListRepos => 0,
            Tool::GetRepo => 1,
            Tool::ListIssues => 2,
            Tool::CreateIssue => 3,
            Tool::ListPrs => 4,
            Tool::GetPr => 5,
            Tool::GetFile => 6,
            Tool::SearchCode => 7,
        };
        assert(all_tools_spec()[k] == t);
    }
    assert forall|i: int, j: int|
        0 <= i < all_tools_spec().len() && 0 <= j < all_tools_spec().len() && i != j implies
            tool_name(all_tools_spec()[i]) != tool_name(all_tools_spec()[j]) by {
        lemma_tool_names_distinct(all_tools_spec()[i], all_tools_spec()[j]);
    }
}

/// The schema declares `github_token` required, and `init` accepts a
/// configuration exactly when it holds every field that the schema requires.
pub proof fn lemma_init_enforces_schema(c: Config)
    ensures
        exists|i: int| 0 <= i < schema_spec().len() && schema_spec()[i].0 == "github_token"@
            && schema_spec()[i].2,
        (c.github_token is Some) <==> (forall|i: int|
            0 <= i < schema_spec().len() && (#[trigger] schema_spec()[i]).2 ==> config_has(
                c,
                schema_spec()[i].0,
            )),
{
    assert(schema_spec()[0].0 == "github_token"@ && schema_spec()[0].2);
    if c.github_token is Some {
        assert forall|i: int|
            0 <= i < schema_spec().len() && (#[trigger] schema_spec()[i]).2 implies config_has(
                c,
                schema_spec()[i].0,
            ) by {
            assert(i == 0);
        }
    } else {
        assert(!config_has(c, schema_spec()[0].0));
    }
}

/// `list_issues` and `list_prs` ask for `state=open` when no state is given,
/// and put a given state into the query as it stands.
pub proof fn lemma_list_state(t: Tool, a: Args, b: Args)
    requires
        t == Tool::ListIssues || t == Tool::ListPrs,
        a.owner == b.owner,
        a.repo == b.repo,
        a.state is None,
        b.state matches Some(s) && s@ == "open"@,
    ensures
        request_path(t, a) == request_path(t, b),
        forall|c: Args| #[trigger] request_path(t, c) == repo_path(c) + (if t == Tool::ListIssues {
            "/issues?state="@
        } else {
            "/pulls?state="@
        }) + (match c.state {
            Some(s) => s@,
            None => "open"@,
        }) + "&per_page=30"@,
{
}

/// `get_file` reads branch `main` when no branch is given, and the given
/// branch as it stands otherwise.
pub proof fn lemma_file_branch(a: Args, b: Args)
    requires
        a.owner == b.owner,
        a.repo == b.repo,
        a.path == b.path,
        a.branch is None,
        b.branch matches Some(s) && s@ == "main"@,
    ensures
        request_path(Tool::GetFile, a) == request_path(Tool::GetFile, b),
        forall|c: Args| #[trigger] request_path(Tool::GetFile, c) == repo_path(c) + "/contents/"@
            + field_text(c, Field::Path) + "?ref="@ + (match c.branch {
            Some(s) => s@,
            None => "main"@,
        }),
{
}

proof fn lemma_filter_same_on_elements(
    s: Seq<Field>,
    p: spec_fn(Field) -> bool,
    q: spec_fn(Field) -> bool,
)
    requires
        forall|i: int| 0 <= i < s.len() ==> p(s[i]) == q(s[i]),
    ensures
        s.filter(p) == s.filter(q),
    decreases s.len(),
{
    reveal(Seq::filter);
    if s.len() > 0 {
        assert(s.last() == s[s.len() - 1]);
        lemma_filter_same_on_elements(s.drop_last(), p, q);
    }
}

/// Text made of decimal digits only.
pub open spec fn is_digits(s: Seq<char>) -> bool {
    s.len() > 0 && forall|i: int| 0 <= i < s.len() ==> '0' <= #[trigger] s[i] <= '9'
}

proof fn lemma_trim_digits(x: Seq<char>)
    requires
        is_digits(x),
    ensures
        trim_quotes(x) == x,
        trim_quotes(seq!['"'] + x + seq!['"']) == x,
{
    assert(x[0] != '"');
    assert(x.last() != '"') by {
        assert(x.last() == x[x.len() - 1]);
    }
    let q = seq!['"'] + x + seq!['"'];
    assert(q.drop_first() =~= x + seq!['"']);
    assert((x + seq!['"'])[0] == x[0]);
    assert(q[0] == '"');
    assert(strip_leading_quotes(q) == strip_leading_quotes(x + seq!['"']));
    assert(strip_leading_quotes(q) == x + seq!['"']);
    assert((x + seq!['"']).drop_last() =~= x);
    assert(strip_trailing_quotes(x + seq!['"']) == strip_trailing_quotes(x));
}

/// `get_pr` makes the same request for a pull request number given as a JSON
/// integer (`42`) and as a JSON string (`"42"`), and finds the same
/// arguments missing.
pub proof fn lemma_number_forms_agree(a: Args, b: Args)
    requires
        a.owner == b.owner,
        a.repo == b.repo,
        a.number matches Some(x) && is_digits(x@),
        b.number matches Some(y) && y@ == seq!['"'] + a.number->0@ + seq!['"'],
    ensures
        request_path(Tool::GetPr, a) == request_path(Tool::GetPr, b),
        request_path(Tool::GetPr, a) == repo_path(a) + "/pulls/"@ + a.number->0@,
        missing_fields(Tool::GetPr, a) == missing_fields(Tool::GetPr, b),
{
    lemma_trim_digits(a.number->0@);
    assert(field_text(a, Field::Number) == field_text(b, Field::Number));
    let fs = required_fields(Tool::GetPr);
    assert forall|i: int| 0 <= i < fs.len() implies is_blank(a, fs[i]) == is_blank(b, fs[i]) by {
        assert(fs[i] == Field::Owner || fs[i] == Field::Repo || fs[i] == Field::Number);
    }
    lemma_filter_same_on_elements(fs, |f: Field| is_blank(a, f), |f: Field| is_blank(b, f));
}

} // verus!
