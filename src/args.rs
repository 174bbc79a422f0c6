use vstd::prelude::*;

verus! {

/// What the router reads from a tool's argument bundle. A text field is
/// `Some` when the bundle holds a JSON string under that key; `number` holds
/// the JSON text of whatever value stands under "number" (`42` or `"42"`).
#[derive(Clone, Debug, Default)]
pub struct Args {
    pub owner: Option<String>,
    pub repo: Option<String>,
    pub state: Option<String>,
    pub title: Option<String>,
    pub body: Option<String>,
    pub number: Option<String>,
    pub path: Option<String>,
    pub branch: Option<String>,
    pub query: Option<String>,
}

/// The plugin's configuration, as the host's store holds it: each field is
/// `Some` when the store has a string under that key.
#[derive(Clone, Debug, Default)]
pub struct Config {
    pub github_token: Option<String>,
    pub default_owner: Option<String>,
}

/// The text of an optional argument, or `d` where it is absent.
pub open spec fn text_or(o: Option<String>, d: Seq<char>) -> Seq<char> {
    match o {
        Some(s) => s@,
        None => d,
    }
}

/// The text of an optional argument, or `d` where it is absent.
pub fn arg_or<'a>(o: &'a Option<String>, d: &'a str) -> (r: &'a str)
    ensures
        r@ == text_or(*o, d@),
{
    match o {
        Some(s) => s.as_str(),
        None => d,
    }
}

} // verus!
