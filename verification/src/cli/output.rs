//! Choosing between JSON and human-readable output.
use vstd::prelude::*;

use crate::text::str_eq;

verus! {

/// JSON is asked for by the command's own `--json`, by `--output json`, or by the
/// global `--json`.
pub open spec fn wants_json(per_cmd_json: bool, output: Option<&str>, force_json: bool) -> bool {
    per_cmd_json || (output matches Some(o) && o@ == "json"@) || force_json
}

/// Whether the flags ask for JSON output. Whether standard output is a terminal
/// is not looked at here; a caller that finds no terminal uses JSON anyway.
pub fn resolve_use_json(per_cmd_json: bool, output: Option<&str>, force_json: bool) -> (r: bool)
    ensures
        r == wants_json(per_cmd_json, output, force_json),
{
    let by_output = match output {
        Some(o) => str_eq(o, "json"),
        None => false,
    };
    per_cmd_json || by_output || force_json
}

} // verus!
