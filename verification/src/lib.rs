//! Core of a skeletal on-chain program with a single instruction,
//! `initialize`, which mutates no state and emits one log line.
//!
//! The blockchain framework plumbing (entry point dispatch, account
//! deserialization, the log sink) lives outside this crate; here stands
//! the instruction's own logic: which accounts it constrains (none),
//! when it succeeds (always), and the exact log line it produces.

use vstd::prelude::*;
use vstd::string::StringExecFns;

verus! {

/// Account-validation context for the `initialize` instruction.
/// The instruction constrains no accounts, so the context carries none.
pub struct Initialize {}

/// The log line `initialize` emits when the program's identity renders
/// as `id`.
pub open spec fn greeting_of(id: Seq<char>) -> Seq<char> {
    "Greetings from: "@ + id
}

/// Base-58 rendering of the program's declared identity.
pub fn program_id() -> (s: &'static str)
    ensures
        s@ == "9reR31hCymxLfxjkTVskpgkhDurL2bhtF7BKcPjnX1rX"@,
{
    "9reR31hCymxLfxjkTVskpgkhDurL2bhtF7BKcPjnX1rX"
}

/// Builds the log line for a program identity rendered as `program_id`.
pub fn greeting(program_id: &str) -> (s: String)
    ensures
        s@ == greeting_of(program_id@),
{
    String::from_str("Greetings from: ").concat(program_id)
}

/// The `initialize` instruction handler: it reads no account data,
/// writes none, always succeeds, and yields the log line to emit for a
/// program identity rendered as `program_id`.
pub fn initialize(_accounts: &Initialize, program_id: &str) -> (r: Result<String, ()>)
    ensures
        r matches Ok(m) && m@ == greeting_of(program_id@),
{
    Ok(greeting(program_id))
}

} // verus!
