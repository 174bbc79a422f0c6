use vstd::prelude::*;
use crate::args::Config;
use crate::error::ToolError;
use crate::tool::{Tool, all_tools_spec};

verus! {

/// What the plugin tells its host about itself.
#[derive(Clone, Debug)]
pub struct Descriptor {
    pub name: String,
    pub version: String,
    pub description: String,
    pub label: String,
    pub tools: Vec<Tool>,
}

/// One string field of the plugin's configuration schema.
#[derive(Clone, Debug)]
pub struct ConfigField {
    pub name: String,
    pub description: String,
    pub required: bool,
}

/// A schema field as (name, description, required).
pub open spec fn config_field_view(f: ConfigField) -> (Seq<char>, Seq<char>, bool) {
    (f.name@, f.description@, f.required)
}

/// The configuration schema: `github_token` is required, `default_owner` is not.
pub open spec fn schema_spec() -> Seq<(Seq<char>, Seq<char>, bool)> {
    seq![
        ("github_token"@, "GitHub personal access token"@, true),
        ("default_owner"@, "Default repository owner (user or org)"@, false),
    ]
}

/// Whether configuration `c` holds a string under the key `name`.
pub open spec fn config_has(c: Config, name: Seq<char>) -> bool {
    if name == "github_token"@ {
        c.github_token is Some
    } else if name == "default_owner"@ {
        c.default_owner is Some
    } else {
        false
    }
}

/// The plugin's descriptor: its name, version, description, label and tools.
pub fn describe() -> (r: Descriptor)
    ensures
        r.name@ == "github"@,
        r.version@ == "0.1.0"@,
        r.description@ == "GitHub API integration for repos, issues, PRs, and code search"@,
        r.label@ == "mcp"@,
        r.tools@ == all_tools_spec(),
{
    Descriptor {
        name: String::from_str("github"),
        version: String::from_str("0.1.0"),
        description: String::from_str(
            "GitHub API integration for repos, issues, PRs, and code search",
        ),
        label: String::from_str("mcp"),
        tools: Tool::all(),
    }
}

fn config_field(name: &str, description: &str, required: bool) -> (r: ConfigField)
    ensures
        config_field_view(r) == (name@, description@, required),
{
    ConfigField {
        name: String::from_str(name),
        description: String::from_str(description),
        required,
    }
}

/// The string fields of the configuration schema.
pub fn config_schema() -> (r: Vec<ConfigField>)
    ensures
        r@.map_values(|f: ConfigField| config_field_view(f)) == schema_spec(),
{
    let r = vec![
        config_field("github_token", "GitHub personal access token", true),
        config_field("default_owner", "Default repository owner (user or org)", false),
    ];
    assert(r@.map_values(|f: ConfigField| config_field_view(f)) =~= schema_spec());
    r
}

/// Checks a configuration at set-up: it must hold a `github_token` string.
pub fn init(config: &Config) -> (r: Result<(), ToolError>)
    ensures
        r is Ok <==> config.github_token is Some,
        r is Err ==> r->Err_0 == ToolError::MissingToken,
{
    match config.github_token {
        Some(_) => Ok(()),
        None => Err(ToolError::MissingToken),
    }
}

} // verus!
