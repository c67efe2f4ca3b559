//! The `beta-program` subcommand: dispatch, the beta-build validation rule,
//! the single remote call each invocation plans, and the output line.
//!
//! One invocation is a straight line: validate (for `set` only), perform one
//! remote read or write, print one line. The remote call itself is outside
//! work; here it is reduced to a planned [`Action`], and a separate function
//! turns the call's outcome into the exact line to print. The surrounding
//! binary executes the action and does the printing.

use crate::policy::Policy;
use crate::text::contains_seq;
use crate::text::contains_substr;
use vstd::prelude::*;
use vstd::string::*;

verus! {

/// A parsed invocation of the subcommand: query the setting, or set it to a
/// valid policy. An invalid policy string is rejected during parsing and has
/// no representation here.
#[derive(Clone, Copy, Debug, PartialEq, Eq, Structural)]
pub enum Command {
    Get,
    SetPolicy(Policy),
}

/// The one remote call an invocation performs: read the settings, or write
/// the `show_beta_releases` flag with the given value.
#[derive(Clone, Copy, Debug, PartialEq, Eq, Structural)]
pub enum Action {
    ReadSettings,
    WriteShowBetaReleases(bool),
}

/// Why an invocation failed. A validation failure happens before any remote
/// call, so the remote state is untouched; a transport failure carries the
/// underlying error's description unchanged and means the remote state may
/// or may not have changed.
#[derive(Clone, Debug, PartialEq, Eq)]
pub enum CmdError {
    ValidationFailed,
    TransportFailed(String),
}

impl CmdError {
    /// The user-facing description of this error.
    pub fn message(&self) -> (m: String)
        ensures
            self is ValidationFailed ==> m@ == "The beta program must be enabled while running a beta version"@,
            self matches CmdError::TransportFailed(d) ==> m@ == d@,
    {
        match self {
            CmdError::ValidationFailed => String::from_str(
                "The beta program must be enabled while running a beta version",
            ),
            CmdError::TransportFailed(d) => d.clone(),
        }
    }
}

/// The product version denotes a beta build when it contains `"beta"`.
pub open spec fn is_beta_build(version: Seq<char>) -> bool {
    contains_seq(version, "beta"@)
}

/// The remote call a command leads to, or the validation error that stops it
/// first: `get` always reads; `set on` always writes `true`; `set off`
/// writes `false` unless the running build is a beta build, in which case
/// nothing is planned and the invocation fails.
pub open spec fn spec_plan(cmd: Command, version: Seq<char>) -> Result<Action, CmdError> {
    match cmd {
        Command::Get => Ok(Action::ReadSettings),
        Command::SetPolicy(p) => {
            if !p.spec_enabled() && is_beta_build(version) {
                Err(CmdError::ValidationFailed)
            } else {
                Ok(Action::WriteShowBetaReleases(p.spec_enabled()))
            }
        },
    }
}

/// The one line printed on success: `Beta program: on` when the flag is (or
/// was just set) enabled, `Beta program: off` otherwise.
pub open spec fn spec_status_line(enabled: bool) -> Seq<char> {
    "Beta program: "@ + (if enabled {
        "on"@
    } else {
        "off"@
    })
}

/// The remote `show_beta_releases` flag after an action runs against a
/// daemon holding `remote`: a read leaves it alone, a write replaces it.
pub open spec fn spec_apply(action: Action, remote: bool) -> bool {
    match action {
        Action::ReadSettings => remote,
        Action::WriteShowBetaReleases(b) => b,
    }
}

/// The `beta-program` subcommand of the management CLI.
pub struct BetaProgram;

impl BetaProgram {
    /// The stable token the outer CLI routes on.
    pub fn name(&self) -> (r: &'static str)
        ensures
            r@ == "beta-program"@,
    {
        "beta-program"
    }

    /// Decide what a command does before anything remote happens. Runs the
    /// beta-build validation rule for `set off` and otherwise maps the
    /// command to its single remote call; makes no remote call itself.
    pub fn plan(&self, cmd: &Command, product_version: &str) -> (r: Result<Action, CmdError>)
        ensures
            r == spec_plan(*cmd, product_version@),
    {
        match cmd {
            Command::Get => Ok(Action::ReadSettings),
            Command::SetPolicy(p) => {
                let enable = p.enabled();
                if !enable && contains_substr(product_version, "beta") {
                    Err(CmdError::ValidationFailed)
                } else {
                    Ok(Action::WriteShowBetaReleases(enable))
                }
            },
        }
    }

    /// The line reported after a successful `get`, from the flag the daemon
    /// returned, or after a successful `set`, from the value just written.
    pub fn report_status(&self, show_beta_releases: bool) -> (r: String)
        ensures
            r@ == spec_status_line(show_beta_releases),
    {
        let prefix = String::from_str("Beta program: ");
        let label = Policy::from_enabled(show_beta_releases).label();
        prefix.concat(label)
    }

    /// The line reported after a successful `set`: the requested policy is
    /// echoed back, not re-read from the daemon. Echoing agrees with the
    /// status line of the value the write carried.
    pub fn report_set(&self, policy: &Policy) -> (r: String)
        ensures
            r@ == "Beta program: "@ + policy.spec_label(),
            r@ == spec_status_line(policy.spec_enabled()),
    {
        let prefix = String::from_str("Beta program: ");
        prefix.concat(policy.label())
    }
}

/// A `get` performs exactly one read, on every build: it is never stopped by
/// validation and never writes.
pub proof fn lemma_get_reads_only(version: Seq<char>)
    ensures
        spec_plan(Command::Get, version) == Ok::<Action, CmdError>(Action::ReadSettings),
{
}

/// A `set on` plans a write of `true` on every build, beta or not, and the
/// line reported on success says `on`.
pub proof fn lemma_set_on_writes_true(version: Seq<char>)
    ensures
        spec_plan(Command::SetPolicy(Policy::On), version) == Ok::<Action, CmdError>(
            Action::WriteShowBetaReleases(true),
        ),
        spec_status_line(Policy::On.spec_enabled()) == "Beta program: "@ + "on"@,
{
}

/// On a build that is not a beta build, a `set off` plans a write of
/// `false`, and the line reported on success says `off`.
pub proof fn lemma_set_off_without_beta(version: Seq<char>)
    requires
        !is_beta_build(version),
    ensures
        spec_plan(Command::SetPolicy(Policy::Off), version) == Ok::<Action, CmdError>(
            Action::WriteShowBetaReleases(false),
        ),
        spec_status_line(Policy::Off.spec_enabled()) == "Beta program: "@ + "off"@,
{
}

/// On a beta build, a `set off` fails validation: no action is planned, so
/// no remote call is made and the remote state is untouched.
pub proof fn lemma_set_off_on_beta_build(version: Seq<char>)
    requires
        is_beta_build(version),
    ensures
        spec_plan(Command::SetPolicy(Policy::Off), version) == Err::<Action, CmdError>(
            CmdError::ValidationFailed,
        ),
{
}

/// Repeating a permitted `set` is idempotent: planning is a pure function of
/// the requested policy and the build version, so the second run plans the
/// same action and reports the same line as the first, and applying that
/// action a second time leaves the remote flag exactly where the first
/// application put it.
pub proof fn lemma_set_idempotent(p: Policy, version: Seq<char>, remote: bool)
    ensures
        spec_plan(Command::SetPolicy(p), version) matches Ok(a) ==> spec_apply(a, spec_apply(a, remote))
            == spec_apply(a, remote),
        spec_plan(Command::SetPolicy(p), version) matches Ok(a) ==> spec_apply(a, remote)
            == p.spec_enabled(),
{
}

} // verus!
