use deploy::Branch;
use deploy::CommandFile;
use deploy::CommandOutcome;
use deploy::CommandStep;
use deploy::ConfigError;
use deploy::TargetConfig;
use deploy::outcome_of_exit;
use deploy::step_outcome;

fn config() -> TargetConfig {
    TargetConfig::new(String::from("/srv/prod"), String::from("/srv/dev")).unwrap()
}

fn command(tokens: &[&str]) -> Vec<String> {
    tokens.iter().map(|t| String::from(*t)).collect()
}

#[test]
fn a_failing_command_does_not_cut_the_plan_short() {
    let file = CommandFile {
        commands: vec![command(&["false"]), command(&["echo", "hi"])],
    };
    let steps = file.execute(&Branch::Master, &config());
    assert_eq!(steps.len(), 2);
    assert_eq!(
        steps[0],
        CommandStep::Run {
            dir: String::from("/srv/prod"),
            program: String::from("false"),
            args: vec![],
        }
    );
    assert_eq!(
        steps[1],
        CommandStep::Run {
            dir: String::from("/srv/prod"),
            program: String::from("echo"),
            args: vec![String::from("hi")],
        }
    );
    // Each planned step's outcome is reported on its own: the first entry
    // failing and the second succeeding are both observable.
    assert_eq!(
        outcome_of_exit(false, Some(1)),
        CommandOutcome::Failed(Some(1))
    );
    assert_eq!(outcome_of_exit(true, Some(0)), CommandOutcome::Succeeded);
}

#[test]
fn empty_command_becomes_a_skip() {
    let file = CommandFile {
        commands: vec![command(&[]), command(&["git", "pull"])],
    };
    let steps = file.execute(&Branch::Dev, &config());
    assert_eq!(steps.len(), 2);
    assert_eq!(steps[0], CommandStep::Skip);
    assert_eq!(
        steps[1],
        CommandStep::Run {
            dir: String::from("/srv/dev"),
            program: String::from("git"),
            args: vec![String::from("pull")],
        }
    );
}

#[test]
fn empty_plan_yields_no_steps() {
    let file = CommandFile { commands: vec![] };
    assert_eq!(file.execute(&Branch::Master, &config()), vec![]);
}

#[test]
fn target_resolves_to_its_own_directory() {
    let file = CommandFile {
        commands: vec![command(&["git", "pull"])],
    };
    let master_steps = file.execute(&Branch::Master, &config());
    let dev_steps = file.execute(&Branch::Dev, &config());
    match (&master_steps[0], &dev_steps[0]) {
        (
            CommandStep::Run { dir: master_dir, .. },
            CommandStep::Run { dir: dev_dir, .. },
        ) => {
            assert_eq!(master_dir, "/srv/prod");
            assert_eq!(dev_dir, "/srv/dev");
        }
        _ => panic!("both steps must run"),
    }
}

#[test]
fn empty_directories_are_refused_at_startup() {
    assert_eq!(
        TargetConfig::new(String::new(), String::from("/srv/dev")).err(),
        Some(ConfigError::EmptyMasterDir)
    );
    assert_eq!(
        TargetConfig::new(String::from("/srv/prod"), String::new()).err(),
        Some(ConfigError::EmptyDevDir)
    );
    assert!(TargetConfig::new(String::from("p"), String::from("d")).is_ok());
}

#[test]
fn exit_reports_classify_exactly() {
    assert_eq!(outcome_of_exit(true, None), CommandOutcome::Succeeded);
    assert_eq!(
        outcome_of_exit(false, Some(127)),
        CommandOutcome::Failed(Some(127))
    );
    assert_eq!(outcome_of_exit(false, None), CommandOutcome::Failed(None));
}

#[test]
fn step_reports_cover_the_whole_taxonomy() {
    assert_eq!(step_outcome(true, None), CommandOutcome::Skipped);
    assert_eq!(step_outcome(false, None), CommandOutcome::SpawnFailed);
    assert_eq!(
        step_outcome(false, Some((false, Some(2)))),
        CommandOutcome::Failed(Some(2))
    );
    assert_eq!(
        step_outcome(false, Some((true, Some(0)))),
        CommandOutcome::Succeeded
    );
}
