//! The command-line dispatch protocol: a request is the prefix
//! `trove-action:` followed by the request's JSON.

use vstd::prelude::*;

use crate::actions::{
    description_text, workbench_action_description, ActionDispatchOptions, ActionOutcome, ActionSource,
    WorkbenchAction,
};

verus! {

pub const TROVE_ACTION_PREFIX: &'static str = "trove-action:";

pub open spec fn prefix_text() -> Seq<char> {
    "trove-action:"@
}

pub struct CliDispatchRequest {
    pub action: WorkbenchAction,
    pub options: ActionDispatchOptions,
    pub response_path: Option<String>,
}

impl CliDispatchRequest {
    /// The options of a request made on the command line.
    pub fn cli_options(dry_run: bool) -> (r: ActionDispatchOptions)
        ensures
            r.source == ActionSource::Cli,
            r.dry_run == dry_run,
    {
        ActionDispatchOptions { source: ActionSource::Cli, dry_run }
    }
}

/// `s` begins with `p`.
pub open spec fn starts_with(s: Seq<char>, p: Seq<char>) -> bool {
    p.len() <= s.len() && s.take(p.len() as int) == p
}

fn has_prefix(s: &str, p: &str) -> (r: bool)
    ensures
        r == starts_with(s@, p@),
{
    let x = crate::chars::chars_of(s);
    let y = crate::chars::chars_of(p);
    if y.len() > x.len() {
        return false;
    }
    let mut i: usize = 0;
    while i < y.len()
        invariant
            y@.len() <= x@.len(),
            i <= y@.len(),
            x@ == s@,
            y@ == p@,
            forall|k: int| 0 <= k < i ==> x@[k] == y@[k],
        decreases y@.len() - i,
    {
        if x[i] != y[i] {
            assert(x@.take(y@.len() as int)[i as int] != y@[i as int]);
            return false;
        }
        i = i + 1;
    }
    assert(x@.take(y@.len() as int) =~= y@);
    true
}

/// Whether a program argument carries a dispatch request.
pub fn is_cli_action_arg(arg: &str) -> (r: bool)
    ensures
        r == starts_with(arg@, prefix_text()),
{
    has_prefix(arg, TROVE_ACTION_PREFIX)
}

/// A request's JSON framed for the command line.
pub fn frame_request(json: &str) -> (r: String)
    ensures
        r@ == prefix_text() + json@,
{
    let mut out = TROVE_ACTION_PREFIX.to_string();
    out.append(json);
    out
}

/// The JSON of a framed request; an argument without the prefix is
/// refused.
pub fn unframe_request(raw: &str) -> (r: Result<String, String>)
    ensures
        r is Ok <==> starts_with(raw@, prefix_text()),
        r matches Ok(json) ==> raw@ == prefix_text() + json@,
        r matches Err(m) ==> m@ == "缺少 trove-action: 前缀"@,
{
    if !has_prefix(raw, TROVE_ACTION_PREFIX) {
        return Err("缺少 trove-action: 前缀".to_string());
    }
    let v = crate::chars::chars_of(raw);
    let n = crate::chars::chars_of(TROVE_ACTION_PREFIX).len();
    let mut out: Vec<char> = Vec::new();
    let mut i = n;
    while i < v.len()
        invariant
            n <= i <= v@.len(),
            n == prefix_text().len(),
            out@ =~= v@.subrange(n as int, i as int),
        decreases v@.len() - i,
    {
        out.push(v[i]);
        i = i + 1;
    }
    let json = crate::chars::string_of(out.as_slice());
    assert(raw@ =~= raw@.take(n as int) + v@.subrange(n as int, v@.len() as int));
    Ok(json)
}

/// A framed request is recognized, and unframing it gives back exactly the
/// JSON that was framed.
pub proof fn frame_roundtrip(json: Seq<char>)
    ensures
        starts_with(prefix_text() + json, prefix_text()),
        forall|other: Seq<char>| prefix_text() + json == prefix_text() + other ==> other == json,
{
    assert((prefix_text() + json).take(prefix_text().len() as int) =~= prefix_text());
    assert forall|other: Seq<char>| prefix_text() + json == prefix_text() + other implies other == json by {
        assert(other =~= (prefix_text() + other).skip(prefix_text().len() as int));
        assert(json =~= (prefix_text() + json).skip(prefix_text().len() as int));
    }
}

/// What a dry run answers: a description of the action, nothing done.
pub fn dry_run_outcome(action: &WorkbenchAction) -> (r: ActionOutcome)
    ensures
        r matches ActionOutcome::DryRun { description } && description@ == description_text(*action),
{
    ActionOutcome::DryRun { description: workbench_action_description(action) }
}

} // verus!
