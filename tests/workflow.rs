use pulld::workflow::{get_jobs_for_host, ConfigError, Job, JobTemplate, WorkflowConfig};

fn strings(v: &[&str]) -> Vec<String> {
    v.iter().map(|s| s.to_string()).collect()
}

fn job(hosts: &[&str], script: Option<&[&str]>, extends: Option<&str>) -> Job {
    Job {
        hosts: strings(hosts),
        script: script.map(strings),
        extends: extends.map(|s| s.to_string()),
    }
}

fn names(jobs: &[(String, Job)]) -> Vec<String> {
    jobs.iter().map(|(n, _)| n.clone()).collect()
}

#[test]
fn matching_host_selects_job() {
    let cfg = WorkflowConfig {
        jobs: vec![("build".to_string(), job(&["h1"], Some(&["echo hello"]), None))],
        job_templates: None,
    };
    let jobs = get_jobs_for_host(&cfg, "h1").ok().unwrap();
    assert_eq!(names(&jobs), vec!["build"]);
    assert_eq!(jobs[0].1.script, Some(strings(&["echo hello"])));
    assert_eq!(jobs[0].1.hosts, strings(&["h1"]));
}

#[test]
fn non_matching_host_gives_no_jobs() {
    let cfg = WorkflowConfig {
        jobs: vec![("deploy".to_string(), job(&["other"], Some(&["echo x"]), None))],
        job_templates: None,
    };
    let jobs = get_jobs_for_host(&cfg, "h1").ok().unwrap();
    assert!(jobs.is_empty());
}

#[test]
fn template_script_is_inherited() {
    let cfg = WorkflowConfig {
        jobs: vec![("j".to_string(), job(&["h1"], None, Some("t")))],
        job_templates: Some(vec![(
            "t".to_string(),
            JobTemplate { script: Some(strings(&["echo t"])) },
        )]),
    };
    let jobs = get_jobs_for_host(&cfg, "h1").ok().unwrap();
    assert_eq!(names(&jobs), vec!["j"]);
    assert_eq!(jobs[0].1.script, Some(strings(&["echo t"])));
    assert_eq!(jobs[0].1.extends, Some("t".to_string()));
}

#[test]
fn own_script_wins_over_template() {
    let cfg = WorkflowConfig {
        jobs: vec![("j".to_string(), job(&["h1"], Some(&["echo own"]), Some("t")))],
        job_templates: Some(vec![(
            "t".to_string(),
            JobTemplate { script: Some(strings(&["echo t"])) },
        )]),
    };
    let jobs = get_jobs_for_host(&cfg, "h1").ok().unwrap();
    assert_eq!(jobs[0].1.script, Some(strings(&["echo own"])));
}

#[test]
fn missing_template_is_a_config_error() {
    let cfg = WorkflowConfig {
        jobs: vec![
            ("a".to_string(), job(&["h1"], None, None)),
            ("b".to_string(), job(&["other"], None, Some("nope"))),
        ],
        job_templates: None,
    };
    match get_jobs_for_host(&cfg, "h1") {
        Err(ConfigError::MissingTemplate { job, template }) => {
            assert_eq!(job, "b");
            assert_eq!(template, "nope");
        }
        _ => panic!("expected a missing template error"),
    }
}

#[test]
fn jobs_come_sorted_by_name() {
    let cfg = WorkflowConfig {
        jobs: vec![
            ("deploy".to_string(), job(&["h1"], None, None)),
            ("build".to_string(), job(&["h1", "h2"], None, None)),
            ("check".to_string(), job(&["h2"], None, None)),
            ("b".to_string(), job(&["h1"], None, None)),
            ("Zeta".to_string(), job(&["h1"], None, None)),
        ],
        job_templates: None,
    };
    let jobs = get_jobs_for_host(&cfg, "h1").ok().unwrap();
    assert_eq!(names(&jobs), vec!["Zeta", "b", "build", "deploy"]);
}

#[test]
fn resolving_twice_gives_the_same_jobs() {
    let cfg = WorkflowConfig {
        jobs: vec![
            ("z".to_string(), job(&["h1"], None, Some("t"))),
            ("a".to_string(), job(&["h1"], Some(&["true"]), None)),
        ],
        job_templates: Some(vec![("t".to_string(), JobTemplate { script: Some(strings(&["echo t"])) })]),
    };
    let first = get_jobs_for_host(&cfg, "h1").ok().unwrap();
    let second = get_jobs_for_host(&cfg, "h1").ok().unwrap();
    assert_eq!(names(&first), names(&second));
    assert_eq!(names(&first), vec!["a", "z"]);
    for (x, y) in first.iter().zip(second.iter()) {
        assert_eq!(x.1.script, y.1.script);
        assert_eq!(x.1.hosts, y.1.hosts);
    }
}

#[test]
fn empty_workflow_gives_no_jobs() {
    let cfg = WorkflowConfig { jobs: vec![], job_templates: None };
    assert!(get_jobs_for_host(&cfg, "h1").ok().unwrap().is_empty());
}
