use pulld::forge::StatusState;
use pulld::runner::{
    GitError, JobExit, JobStage, RunOutcome, RunState, Runner, RunnerError, StatusUpdate,
};
use pulld::workflow::{ConfigError, Job, JobTemplate, WorkflowConfig};

fn job(hosts: &[&str], script: &[&str]) -> Job {
    Job {
        hosts: hosts.iter().map(|s| s.to_string()).collect(),
        script: Some(script.iter().map(|s| s.to_string()).collect()),
        extends: None,
    }
}

fn one_job(name: &str, script: &[&str]) -> WorkflowConfig {
    WorkflowConfig { jobs: vec![(name.to_string(), job(&["h1"], script))], job_templates: None }
}

fn check(u: &StatusUpdate, sha: &str, job: usize, state: StatusState, context: &str, description: &str) {
    assert_eq!(u.sha, sha);
    assert_eq!(u.job, job);
    assert_eq!(u.status.state, state);
    assert_eq!(u.status.context, context);
    assert_eq!(u.status.description.as_deref(), Some(description));
    assert_eq!(u.status.target_url, None);
}

#[test]
fn happy_path_reports_waiting_running_success() {
    let mut runner = Runner::new();
    let step = runner.start_run("C", "h1", Ok(one_job("build", &["echo hello"]))).ok().unwrap();
    assert_eq!(step.updates.len(), 2);
    check(&step.updates[0], "C", 0, StatusState::Pending, "pulld/build/h1", "Job build on host h1 is waiting...");
    check(&step.updates[1], "C", 0, StatusState::Pending, "pulld/build/h1", "Job build on host h1 is running...");
    assert_eq!(step.updates[0].stage, JobStage::Waiting);
    assert_eq!(step.updates[1].stage, JobStage::Running);
    let launch = step.launch.unwrap();
    assert_eq!(launch.job, 0);
    assert_eq!(launch.name, "build");
    assert_eq!(launch.script, "echo '+ echo hello'\necho hello\n");
    assert!(!step.kill);
    assert!(runner.is_running());

    let step = runner.job_exited(JobExit::Success);
    assert_eq!(step.updates.len(), 1);
    check(&step.updates[0], "C", 0, StatusState::Success, "pulld/build/h1", "Job build on host h1 was successful");
    assert!(step.launch.is_none());
    assert!(!runner.is_running());
    assert_eq!(runner.state(), Some(RunState::Terminal(RunOutcome::Success)));
}

#[test]
fn jobs_run_one_after_another() {
    let cfg = WorkflowConfig {
        jobs: vec![
            ("b".to_string(), job(&["h1"], &["echo b"])),
            ("a".to_string(), job(&["h1"], &["echo a"])),
        ],
        job_templates: None,
    };
    let mut runner = Runner::new();
    let step = runner.start_run("C", "h1", Ok(cfg)).ok().unwrap();
    assert_eq!(step.updates.len(), 3);
    check(&step.updates[0], "C", 0, StatusState::Pending, "pulld/a/h1", "Job a on host h1 is waiting...");
    check(&step.updates[1], "C", 1, StatusState::Pending, "pulld/b/h1", "Job b on host h1 is waiting...");
    check(&step.updates[2], "C", 0, StatusState::Pending, "pulld/a/h1", "Job a on host h1 is running...");
    assert_eq!(step.launch.unwrap().name, "a");

    let step = runner.job_exited(JobExit::Success);
    assert_eq!(step.updates.len(), 2);
    check(&step.updates[0], "C", 0, StatusState::Success, "pulld/a/h1", "Job a on host h1 was successful");
    check(&step.updates[1], "C", 1, StatusState::Pending, "pulld/b/h1", "Job b on host h1 is running...");
    let launch = step.launch.unwrap();
    assert_eq!(launch.name, "b");
    assert_eq!(launch.script, "echo '+ echo b'\necho b\n");
    assert_eq!(runner.state(), Some(RunState::Running(1)));
}

#[test]
fn failing_job_halts_run() {
    let cfg = WorkflowConfig {
        jobs: vec![
            ("a".to_string(), job(&["h1"], &["false"])),
            ("b".to_string(), job(&["h1"], &["echo b"])),
        ],
        job_templates: None,
    };
    let mut runner = Runner::new();
    let step = runner.start_run("C", "h1", Ok(cfg)).ok().unwrap();
    assert_eq!(step.updates.len(), 3);
    let step = runner.job_exited(JobExit::Failure);
    assert_eq!(step.updates.len(), 1);
    check(&step.updates[0], "C", 0, StatusState::Failure, "pulld/a/h1", "Job a on host h1 failed");
    assert!(step.launch.is_none());
    assert!(!runner.is_running());
    assert_eq!(runner.state(), Some(RunState::Terminal(RunOutcome::Failed(0))));
}

#[test]
fn new_commit_cancels_running_job() {
    let cfg = WorkflowConfig {
        jobs: vec![
            ("a".to_string(), job(&["h1"], &["sleep 60"])),
            ("b".to_string(), job(&["h1"], &["echo b"])),
        ],
        job_templates: None,
    };
    let mut runner = Runner::new();
    runner.start_run("C1", "h1", Ok(cfg)).ok().unwrap();
    let step = runner.cancel_run();
    assert!(step.kill);
    assert!(step.updates.is_empty());
    assert!(step.launch.is_none());
    assert_eq!(runner.state(), Some(RunState::Cancelling(0)));
    assert!(runner.is_running());

    let again = runner.cancel_run();
    assert!(!again.kill);

    let step = runner.job_exited(JobExit::Failure);
    assert_eq!(step.updates.len(), 1);
    check(&step.updates[0], "C1", 0, StatusState::Error, "pulld/a/h1", "Job a on host h1 was canceled");
    assert!(step.launch.is_none());
    assert!(!runner.is_running());
    assert_eq!(runner.state(), Some(RunState::Terminal(RunOutcome::Cancelled(0))));

    let step = runner.start_run("C2", "h1", Ok(one_job("build", &["sleep 60"]))).ok().unwrap();
    assert_eq!(step.updates[0].sha, "C2");
    assert!(step.launch.is_some());
    let step = runner.job_exited(JobExit::Success);
    check(&step.updates[0], "C2", 0, StatusState::Success, "pulld/build/h1", "Job build on host h1 was successful");
}

#[test]
fn cancel_without_run_does_nothing() {
    let mut runner = Runner::new();
    let step = runner.cancel_run();
    assert!(!step.kill);
    assert!(runner.state().is_none());
    assert!(!runner.is_running());
}

#[test]
fn empty_workflow_ends_run_at_once() {
    let cfg = WorkflowConfig {
        jobs: vec![("deploy".to_string(), job(&["other"], &["echo x"]))],
        job_templates: None,
    };
    let mut runner = Runner::new();
    let step = runner.start_run("C", "h1", Ok(cfg)).ok().unwrap();
    assert!(step.updates.is_empty());
    assert!(step.launch.is_none());
    assert!(!runner.is_running());
    assert_eq!(runner.state(), Some(RunState::Terminal(RunOutcome::Success)));
}

#[test]
fn missing_template_fails_start() {
    let cfg = WorkflowConfig {
        jobs: vec![(
            "j".to_string(),
            Job { hosts: vec!["h1".to_string()], script: None, extends: Some("t".to_string()) },
        )],
        job_templates: Some(vec![("u".to_string(), JobTemplate { script: None })]),
    };
    let mut runner = Runner::new();
    match runner.start_run("C", "h1", Ok(cfg)) {
        Err(RunnerError::Config(ConfigError::MissingTemplate { job, template })) => {
            assert_eq!(job, "j");
            assert_eq!(template, "t");
        }
        _ => panic!("expected a config error"),
    }
    assert!(runner.state().is_none());
    assert!(!runner.is_running());
}

#[test]
fn failed_checkout_fails_start() {
    let mut runner = Runner::new();
    let err = RunnerError::Git(GitError { message: "reset failed".to_string() });
    match runner.start_run("C", "h1", Err(err)) {
        Err(RunnerError::Git(e)) => assert_eq!(e.message, "reset failed"),
        _ => panic!("expected the git error"),
    }
    assert!(runner.state().is_none());
    let err = RunnerError::Config(ConfigError::NotFound("deploy.yaml".to_string()));
    assert!(matches!(runner.start_run("C", "h1", Err(err)), Err(RunnerError::Config(ConfigError::NotFound(_)))));
    assert!(!runner.is_running());
}

#[test]
fn job_without_script_runs_empty_script() {
    let cfg = WorkflowConfig {
        jobs: vec![("j".to_string(), Job { hosts: vec!["h1".to_string()], script: None, extends: None })],
        job_templates: None,
    };
    let mut runner = Runner::new();
    let step = runner.start_run("C", "h1", Ok(cfg)).ok().unwrap();
    assert_eq!(step.launch.unwrap().script, "");
}
