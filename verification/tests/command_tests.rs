use beta_program::command::{Action, BetaProgram, CmdError, Command};
use beta_program::policy::Policy;

/// A recording stand-in for the daemon: holds the flag and logs every write.
struct FakeDaemon {
    show_beta_releases: bool,
    writes: Vec<bool>,
}

impl FakeDaemon {
    fn new(show_beta_releases: bool) -> FakeDaemon {
        FakeDaemon { show_beta_releases, writes: Vec::new() }
    }

    /// Run one invocation the way the binary would: plan, perform the single
    /// planned call against this daemon, and return the printed line.
    fn run(&mut self, cmd: Command, product_version: &str) -> Result<String, CmdError> {
        let program = BetaProgram;
        let action = program.plan(&cmd, product_version)?;
        match action {
            Action::ReadSettings => Ok(program.report_status(self.show_beta_releases)),
            Action::WriteShowBetaReleases(enable) => {
                self.writes.push(enable);
                self.show_beta_releases = enable;
                Ok(program.report_status(enable))
            }
        }
    }
}

#[test]
fn subcommand_name_token() {
    assert_eq!(BetaProgram.name(), "beta-program");
}

#[test]
fn get_plans_exactly_one_read() {
    let program = BetaProgram;
    assert_eq!(program.plan(&Command::Get, "2023.1"), Ok(Action::ReadSettings));
    assert_eq!(program.plan(&Command::Get, "2023.1-beta1"), Ok(Action::ReadSettings));
}

#[test]
fn get_reports_remote_state() {
    let program = BetaProgram;
    assert_eq!(program.report_status(true), "Beta program: on");
    assert_eq!(program.report_status(false), "Beta program: off");
}

#[test]
fn set_echoes_requested_policy() {
    let program = BetaProgram;
    assert_eq!(program.report_set(&Policy::On), "Beta program: on");
    assert_eq!(program.report_set(&Policy::Off), "Beta program: off");
}

#[test]
fn set_on_plans_write_true_on_any_build() {
    let program = BetaProgram;
    assert_eq!(
        program.plan(&Command::SetPolicy(Policy::On), "2023.1"),
        Ok(Action::WriteShowBetaReleases(true))
    );
    assert_eq!(
        program.plan(&Command::SetPolicy(Policy::On), "2023.1-beta1"),
        Ok(Action::WriteShowBetaReleases(true))
    );
}

#[test]
fn set_off_plans_write_false_on_release_build() {
    let program = BetaProgram;
    assert_eq!(
        program.plan(&Command::SetPolicy(Policy::Off), "2023.1"),
        Ok(Action::WriteShowBetaReleases(false))
    );
}

#[test]
fn set_off_fails_validation_on_beta_build() {
    let program = BetaProgram;
    assert_eq!(
        program.plan(&Command::SetPolicy(Policy::Off), "2023.1-beta1"),
        Err(CmdError::ValidationFailed)
    );
}

#[test]
fn validation_error_message() {
    assert_eq!(
        CmdError::ValidationFailed.message(),
        "The beta program must be enabled while running a beta version"
    );
    assert_eq!(
        CmdError::TransportFailed(String::from("connection refused")).message(),
        "connection refused"
    );
}

#[test]
fn scenario_get_on_release_build_reports_off() {
    let mut daemon = FakeDaemon::new(false);
    let line = daemon.run(Command::Get, "2023.1").unwrap();
    assert_eq!(line, "Beta program: off");
    assert!(daemon.writes.is_empty());
}

#[test]
fn scenario_set_on_release_build() {
    let mut daemon = FakeDaemon::new(false);
    let line = daemon.run(Command::SetPolicy(Policy::On), "2023.1").unwrap();
    assert_eq!(line, "Beta program: on");
    assert_eq!(daemon.writes, vec![true]);
    assert!(daemon.show_beta_releases);
}

#[test]
fn scenario_set_off_release_build() {
    let mut daemon = FakeDaemon::new(true);
    let line = daemon.run(Command::SetPolicy(Policy::Off), "2023.1").unwrap();
    assert_eq!(line, "Beta program: off");
    assert_eq!(daemon.writes, vec![false]);
    assert!(!daemon.show_beta_releases);
}

#[test]
fn scenario_set_off_beta_build_makes_no_remote_call() {
    let mut daemon = FakeDaemon::new(true);
    let result = daemon.run(Command::SetPolicy(Policy::Off), "2023.1-beta1");
    assert_eq!(result, Err(CmdError::ValidationFailed));
    assert!(daemon.writes.is_empty());
    assert!(daemon.show_beta_releases);
}

#[test]
fn scenario_set_on_beta_build_succeeds() {
    let mut daemon = FakeDaemon::new(false);
    let line = daemon.run(Command::SetPolicy(Policy::On), "2023.1-beta1").unwrap();
    assert_eq!(line, "Beta program: on");
    assert_eq!(daemon.writes, vec![true]);
    assert!(daemon.show_beta_releases);
}

#[test]
fn repeated_set_on_is_idempotent() {
    let mut daemon = FakeDaemon::new(false);
    let first = daemon.run(Command::SetPolicy(Policy::On), "2023.1").unwrap();
    let state_after_first = daemon.show_beta_releases;
    let second = daemon.run(Command::SetPolicy(Policy::On), "2023.1").unwrap();
    assert_eq!(first, second);
    assert_eq!(state_after_first, daemon.show_beta_releases);
    assert_eq!(daemon.writes, vec![true, true]);
}

#[test]
fn repeated_set_off_is_idempotent_when_permitted() {
    let mut daemon = FakeDaemon::new(true);
    let first = daemon.run(Command::SetPolicy(Policy::Off), "2023.1").unwrap();
    let state_after_first = daemon.show_beta_releases;
    let second = daemon.run(Command::SetPolicy(Policy::Off), "2023.1").unwrap();
    assert_eq!(first, second);
    assert_eq!(state_after_first, daemon.show_beta_releases);
    assert_eq!(daemon.writes, vec![false, false]);
}
