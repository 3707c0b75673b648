//! Deployment plans.
//!
//! A plan is an ordered list of command specifications, loaded once from
//! configuration and immutable afterwards.  Executing it against a target
//! resolves the target's working directory and turns every specification,
//! in order, into one concrete step — an empty specification becomes a
//! diagnostic skip, never an error.  Planning is total: a step is produced
//! for every entry, so a failing command can never cut the entries after it
//! out of the run.  The surrounding process performs the steps one at a
//! time and reports each outcome on its own, without halting the rest.

use vstd::prelude::*;

verus! {

use crate::classify::Branch;

/// Error from validating the target configuration at startup.
#[derive(Clone, Copy, Debug, PartialEq, Eq)]
pub enum ConfigError {
    /// The primary target's working directory is empty.
    EmptyMasterDir,
    /// The secondary target's working directory is empty.
    EmptyDevDir,
}

/// The fixed mapping from deployment target to working directory,
/// validated once at startup and read-only afterwards.
pub struct TargetConfig {
    master_dir: String,
    dev_dir: String,
}

impl TargetConfig {
    /// Both directories are non-empty, validated paths.
    pub closed spec fn wf(self) -> bool {
        self.master_dir@.len() > 0 && self.dev_dir@.len() > 0
    }

    /// The working directory bound to a target.
    pub closed spec fn spec_dir_for(self, branch: Branch) -> Seq<char> {
        match branch {
            Branch::Master => self.master_dir@,
            Branch::Dev => self.dev_dir@,
        }
    }

    /// Validates the two working directories: each must be non-empty.
    pub fn new(master_dir: String, dev_dir: String) -> (r: Result<TargetConfig, ConfigError>)
        ensures
            match r {
                Ok(c) => {
                    &&& c.wf()
                    &&& c.spec_dir_for(Branch::Master) == master_dir@
                    &&& c.spec_dir_for(Branch::Dev) == dev_dir@
                },
                Err(ConfigError::EmptyMasterDir) => master_dir@.len() == 0,
                Err(ConfigError::EmptyDevDir) => master_dir@.len() > 0 && dev_dir@.len() == 0,
            },
    {
        if master_dir.as_str().unicode_len() == 0 {
            Err(ConfigError::EmptyMasterDir)
        } else if dev_dir.as_str().unicode_len() == 0 {
            Err(ConfigError::EmptyDevDir)
        } else {
            Ok(TargetConfig { master_dir, dev_dir })
        }
    }

    /// The working directory bound to `branch`.
    pub fn dir_for(&self, branch: &Branch) -> (r: &String)
        ensures
            r@ == self.spec_dir_for(*branch),
    {
        match branch {
            Branch::Master => &self.master_dir,
            Branch::Dev => &self.dev_dir,
        }
    }
}

/// One concrete step of a deployment run.
#[derive(Clone, Debug, PartialEq, Eq)]
pub enum CommandStep {
    /// The specification was empty: nothing to spawn, a diagnostic only.
    Skip,
    /// Run `program` with `args`, working directory set to `dir`.
    Run { dir: String, program: String, args: Vec<String> },
}

/// How one step must relate to the command specification it was planned
/// from: an empty specification skips; otherwise token 0 is the program,
/// the remaining tokens are its arguments, and the directory is the one
/// resolved for the target.
pub open spec fn step_matches(step: CommandStep, command: Seq<String>, dir: Seq<char>) -> bool {
    match step {
        CommandStep::Skip => command.len() == 0,
        CommandStep::Run { dir: d, program, args } => {
            &&& command.len() > 0
            &&& d@ == dir
            &&& program@ == command[0]@
            &&& args.len() == command.len() - 1
            &&& forall|j: int| 0 <= j < args.len() ==> args[j]@ == command[j + 1]@
        },
    }
}

/// An ordered collection of command specifications: token 0 of each entry
/// is the executable name, the remaining tokens are its arguments.
pub struct CommandFile {
    pub commands: Vec<Vec<String>>,
}

impl CommandFile {
    /// Plans one deployment run of this file against a target.
    ///
    /// Every entry yields exactly one step, in the file's order, against
    /// the directory configured for `branch`.  No entry is dropped for any
    /// content of its own or of its neighbours: whatever any command later
    /// does, every other entry keeps its step.
    pub fn execute(&self, branch: &Branch, config: &TargetConfig) -> (r: Vec<CommandStep>)
        ensures
            r.len() == self.commands.len(),
            forall|i: int|
                0 <= i < r.len() ==> step_matches(
                    #[trigger] r[i],
                    self.commands[i]@,
                    config.spec_dir_for(*branch),
                ),
    {
        let dir = config.dir_for(branch);
        let mut steps: Vec<CommandStep> = Vec::new();
        let mut i: usize = 0;
        while i < self.commands.len()
            invariant
                i <= self.commands.len(),
                steps.len() == i,
                forall|k: int|
                    0 <= k < i ==> step_matches(
                        #[trigger] steps[k],
                        self.commands[k]@,
                        config.spec_dir_for(*branch),
                    ),
                dir@ == config.spec_dir_for(*branch),
            decreases self.commands.len() - i,
        {
            let command = &self.commands[i];
            if command.len() == 0 {
                steps.push(CommandStep::Skip);
            } else {
                let program = command[0].clone();
                let mut args: Vec<String> = Vec::new();
                let mut j: usize = 1;
                while j < command.len()
                    invariant
                        1 <= j <= command.len(),
                        args.len() == j - 1,
                        forall|k: int| 0 <= k < args.len() ==> args[k]@ == command[k + 1]@,
                    decreases command.len() - j,
                {
                    args.push(command[j].clone());
                    j = j + 1;
                }
                steps.push(CommandStep::Run { dir: dir.clone(), program, args });
            }
            i = i + 1;
        }
        steps
    }
}

/// The reported outcome of one command, independently observable and
/// without influence on the steps after it.
#[derive(Clone, Copy, Debug, PartialEq, Eq)]
pub enum CommandOutcome {
    /// The specification was empty; nothing ran.
    Skipped,
    /// The executable could not be started at all.
    SpawnFailed,
    /// The process exited with the given non-zero code, or was ended
    /// without one.
    Failed(Option<i32>),
    /// The process exited with code zero.
    Succeeded,
}

/// The outcome an exit report classifies to: success is success, and a
/// failure keeps whatever exit code the process ended with.
pub open spec fn outcome_spec(success: bool, code: Option<i32>) -> CommandOutcome {
    if success {
        CommandOutcome::Succeeded
    } else {
        CommandOutcome::Failed(code)
    }
}

/// Classifies the exit report of one spawned command.
pub fn outcome_of_exit(success: bool, code: Option<i32>) -> (r: CommandOutcome)
    ensures
        r == outcome_spec(success, code),
{
    if success {
        CommandOutcome::Succeeded
    } else {
        CommandOutcome::Failed(code)
    }
}

/// The outcome one planned step reports: a skipped step never spawned, a
/// spawn that could not start says so, and an exit report is classified by
/// `outcome_spec`.  `exit` is `None` when the executable could not be
/// started at all.
pub open spec fn step_outcome_spec(skipped: bool, exit: Option<(bool, Option<i32>)>) -> CommandOutcome {
    if skipped {
        CommandOutcome::Skipped
    } else {
        match exit {
            None => CommandOutcome::SpawnFailed,
            Some((success, code)) => outcome_spec(success, code),
        }
    }
}

/// Classifies what one planned step came to, as `step_outcome_spec` lays
/// out.
pub fn step_outcome(skipped: bool, exit: Option<(bool, Option<i32>)>) -> (r: CommandOutcome)
    ensures
        r == step_outcome_spec(skipped, exit),
{
    if skipped {
        CommandOutcome::Skipped
    } else {
        match exit {
            None => CommandOutcome::SpawnFailed,
            Some((success, code)) => outcome_of_exit(success, code),
        }
    }
}

} // verus!
