//! `linear team`.
use vstd::prelude::*;

use crate::text::u64_decimal;

verus! {

/// The arguments of `linear team`.
#[derive(Debug)]
pub struct TeamCommand {
    pub subcommand: TeamSubcommand,
}

/// The arguments of `linear team list`.
#[derive(Debug)]
pub struct ListArgs {
    pub output: Option<String>,
    pub json: bool,
}

/// The subcommands of `linear team`.
#[derive(Debug)]
pub enum TeamSubcommand {
    List(ListArgs),
}

/// The human-readable summary of a team listing.
pub fn teams_summary(count: usize) -> (r: String)
    ensures
        r@ == "Teams: "@ + crate::text::decimal(count as nat),
{
    String::from_str("Teams: ").concat(u64_decimal(count as u64).as_str())
}

} // verus!
