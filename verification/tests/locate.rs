use php_build_flags::error::BuildError;
use php_build_flags::host::{Answer, HostFacts, ProcessOutput, Request, Step};
use php_build_flags::provider::{exit_verdict, Provider, RuntimeDescription};
use php_build_flags::snapshot::Snapshot;

fn answer(request: &Request, path_exists: bool, on_search_path: bool) -> Answer {
    match request {
        Request::ReadVariable { name } => {
            assert_eq!(name, "PHP_CONFIG");
            Answer::Variable(None)
        }
        Request::ProbePath { .. } => Answer::Exists(path_exists),
        Request::SearchPath { name } => {
            assert_eq!(name, "php-config");
            Answer::Found(if on_search_path { Some(format!("/usr/bin/{}", name)) } else { None })
        }
        Request::Run { program, argument } => {
            assert_eq!(program, "/usr/bin/php-config");
            assert_eq!(argument, "--includes");
            Answer::Ran(Ok(ProcessOutput {
                success: true,
                stdout: b"-I/inc".to_vec(),
                stderr: vec![],
            }))
        }
    }
}

#[test]
fn find_bin_reads_the_override_first() {
    let info = RuntimeDescription::CommandBacked;
    let provider = Provider::from_info(&info);
    assert_eq!(
        provider.find_bin(&HostFacts::new()),
        Step::Need(Request::ReadVariable { name: "PHP_CONFIG".to_string() })
    );
}

#[test]
fn find_bin_probes_the_configured_path() {
    let info = RuntimeDescription::CommandBacked;
    let provider = Provider::from_info(&info);
    let mut facts = HostFacts::new();
    facts.override_variable = Some(Some("/opt/php/bin/php-config".to_string()));
    assert_eq!(
        provider.find_bin(&facts),
        Step::Need(Request::ProbePath { path: "/opt/php/bin/php-config".to_string() })
    );
}

#[test]
fn find_bin_returns_an_existing_configured_path() {
    let info = RuntimeDescription::CommandBacked;
    let provider = Provider::from_info(&info);
    let mut facts = HostFacts::new();
    facts.override_variable = Some(Some("relative/php-config".to_string()));
    facts.override_exists = Some(true);
    assert_eq!(provider.find_bin(&facts), Step::Done(Ok("relative/php-config".to_string())));
}

#[test]
fn find_bin_fails_on_a_missing_configured_path() {
    let info = RuntimeDescription::CommandBacked;
    let provider = Provider::from_info(&info);
    let mut facts = HostFacts::new();
    facts.override_variable = Some(Some("/nowhere/php-config".to_string()));
    facts.override_exists = Some(false);
    let step = provider.find_bin(&facts);
    assert_eq!(
        step,
        Step::Done(Err(BuildError::ConfiguredPathNotFound {
            path: "/nowhere/php-config".to_string(),
        }))
    );
    match step {
        Step::Done(Err(error)) => assert!(error.message().contains("/nowhere/php-config")),
        _ => unreachable!(),
    }
}

#[test]
fn find_bin_never_falls_back_from_a_wrong_override() {
    let info = RuntimeDescription::CommandBacked;
    let provider = Provider::from_info(&info);
    let mut facts = HostFacts::new();
    facts.override_variable = Some(Some("/nowhere/php-config".to_string()));
    facts.override_exists = Some(false);
    facts.search_result = Some(Some("/usr/bin/php-config".to_string()));
    assert_eq!(
        provider.find_bin(&facts),
        Step::Done(Err(BuildError::ConfiguredPathNotFound {
            path: "/nowhere/php-config".to_string(),
        }))
    );
}

#[test]
fn find_bin_searches_when_the_override_is_unset() {
    let info = RuntimeDescription::CommandBacked;
    let provider = Provider::from_info(&info);
    let mut facts = HostFacts::new();
    facts.override_variable = Some(None);
    assert_eq!(
        provider.find_bin(&facts),
        Step::Need(Request::SearchPath { name: "php-config".to_string() })
    );
    facts.search_result = Some(Some("/usr/local/bin/php-config".to_string()));
    assert_eq!(provider.find_bin(&facts), Step::Done(Ok("/usr/local/bin/php-config".to_string())));
}

#[test]
fn find_bin_fails_when_the_search_finds_nothing() {
    let info = RuntimeDescription::CommandBacked;
    let provider = Provider::from_info(&info);
    let mut facts = HostFacts::new();
    facts.override_variable = Some(None);
    facts.search_result = Some(None);
    assert_eq!(provider.find_bin(&facts), Step::Done(Err(BuildError::ExecutableNotFound)));
}

#[test]
fn find_bin_does_not_depend_on_the_description() {
    let mut snapshot = Snapshot::new();
    snapshot.insert("includes".to_string(), "/a".to_string());
    let info = RuntimeDescription::SnapshotBacked(snapshot);
    let provider = Provider::from_info(&info);
    let mut facts = HostFacts::new();
    facts.override_variable = Some(None);
    facts.search_result = Some(None);
    assert_eq!(provider.find_bin(&facts), Step::Done(Err(BuildError::ExecutableNotFound)));
}

#[test]
fn php_config_locates_then_runs() {
    let info = RuntimeDescription::CommandBacked;
    let provider = Provider::from_info(&info);
    let mut facts = HostFacts::new();
    assert_eq!(
        provider.php_config("--version", &facts),
        Step::Need(Request::ReadVariable { name: "PHP_CONFIG".to_string() })
    );
    facts.override_variable = Some(Some("/opt/php-config".to_string()));
    assert_eq!(
        provider.php_config("--version", &facts),
        Step::Need(Request::ProbePath { path: "/opt/php-config".to_string() })
    );
    facts.override_exists = Some(true);
    assert_eq!(
        provider.php_config("--version", &facts),
        Step::Need(Request::Run {
            program: "/opt/php-config".to_string(),
            argument: "--version".to_string(),
        })
    );
    facts.run = Some(Ok(ProcessOutput {
        success: true,
        stdout: b"8.3.1\n".to_vec(),
        stderr: b"ignored".to_vec(),
    }));
    assert_eq!(provider.php_config("--version", &facts), Step::Done(Ok("8.3.1\n".to_string())));
}

#[test]
fn php_config_decodes_both_streams_permissively() {
    let info = RuntimeDescription::CommandBacked;
    let provider = Provider::from_info(&info);
    let mut facts = HostFacts::new();
    facts.override_variable = Some(None);
    facts.search_result = Some(Some("/usr/bin/php-config".to_string()));
    facts.run = Some(Ok(ProcessOutput {
        success: false,
        stdout: vec![b'o', 0x80, b'k'],
        stderr: vec![0xf0, 0x9f, 0x98, 0x80, 0xc0],
    }));
    let step = provider.php_config("--includes", &facts);
    assert_eq!(
        step,
        Step::Done(Err(BuildError::NonZeroExit {
            stdout: "o\u{FFFD}k".to_string(),
            stderr: "\u{1F600}\u{FFFD}".to_string(),
        }))
    );
    facts.run = Some(Ok(ProcessOutput { success: true, stdout: vec![0xff, 0xfe], stderr: vec![] }));
    assert_eq!(
        provider.php_config("--includes", &facts),
        Step::Done(Ok("\u{FFFD}\u{FFFD}".to_string()))
    );
}

#[test]
fn php_config_tells_a_failed_launch_from_a_failed_run() {
    let info = RuntimeDescription::CommandBacked;
    let provider = Provider::from_info(&info);
    let mut facts = HostFacts::new();
    facts.override_variable = Some(None);
    facts.search_result = Some(Some("/usr/bin/php-config".to_string()));
    facts.run = Some(Err("No such file or directory (os error 2)".to_string()));
    assert_eq!(
        provider.php_config("--includes", &facts),
        Step::Done(Err(BuildError::SpawnFailure {
            reason: "No such file or directory (os error 2)".to_string(),
        }))
    );
    facts.run = Some(Ok(ProcessOutput { success: false, stdout: vec![], stderr: vec![] }));
    assert_eq!(
        provider.php_config("--includes", &facts),
        Step::Done(Err(BuildError::NonZeroExit { stdout: String::new(), stderr: String::new() }))
    );
}

#[test]
fn php_config_stops_at_a_failed_search() {
    let info = RuntimeDescription::CommandBacked;
    let provider = Provider::from_info(&info);
    let mut facts = HostFacts::new();
    facts.override_variable = Some(None);
    facts.search_result = Some(None);
    facts.run = Some(Ok(ProcessOutput { success: true, stdout: b"-I/a".to_vec(), stderr: vec![] }));
    assert_eq!(
        provider.php_config("--includes", &facts),
        Step::Done(Err(BuildError::ExecutableNotFound))
    );
}

#[test]
fn exit_verdict_is_the_output_or_both_streams() {
    assert_eq!(exit_verdict(true, "out".to_string(), "err".to_string()), Ok("out".to_string()));
    assert_eq!(
        exit_verdict(false, "out".to_string(), "err".to_string()),
        Err(BuildError::NonZeroExit { stdout: "out".to_string(), stderr: "err".to_string() })
    );
}

#[test]
fn answering_each_request_reaches_the_result() {
    let info = RuntimeDescription::CommandBacked;
    let provider = Provider::from_info(&info);
    let mut facts = HostFacts::new();
    let mut asked = 0;
    let result = loop {
        match provider.get_includes(&facts) {
            Step::Need(request) => {
                asked += 1;
                assert!(asked <= 4);
                facts.record(answer(&request, true, true));
            }
            Step::Done(result) => break result,
        }
    };
    assert_eq!(asked, 3);
    assert_eq!(result, Ok(vec!["/inc".to_string()]));
}

#[test]
fn answering_each_request_reaches_the_failure() {
    let info = RuntimeDescription::CommandBacked;
    let provider = Provider::from_info(&info);
    let mut facts = HostFacts::new();
    let mut asked = 0;
    let result = loop {
        match provider.get_includes(&facts) {
            Step::Need(request) => {
                asked += 1;
                assert!(asked <= 4);
                facts.record(answer(&request, true, false));
            }
            Step::Done(result) => break result,
        }
    };
    assert_eq!(asked, 2);
    assert_eq!(result, Err(BuildError::ExecutableNotFound));
}

#[test]
fn new_facts_hold_no_answer() {
    let facts = HostFacts::new();
    assert_eq!(facts.override_variable, None);
    assert_eq!(facts.override_exists, None);
    assert_eq!(facts.search_result, None);
    assert_eq!(facts.run, None);
}

#[test]
fn record_fills_the_place_of_the_answer() {
    let mut facts = HostFacts::new();
    facts.record(Answer::Variable(Some("/opt/php-config".to_string())));
    assert_eq!(facts.override_variable, Some(Some("/opt/php-config".to_string())));
    assert_eq!(facts.override_exists, None);
    facts.record(Answer::Exists(false));
    assert_eq!(facts.override_exists, Some(false));
    facts.record(Answer::Found(None));
    assert_eq!(facts.search_result, Some(None));
    assert_eq!(facts.run, None);
    facts.record(Answer::Ran(Err("no".to_string())));
    assert_eq!(facts.run, Some(Err("no".to_string())));
    assert_eq!(facts.override_variable, Some(Some("/opt/php-config".to_string())));
    facts.record(Answer::Variable(None));
    assert_eq!(facts.override_variable, Some(None));
}

#[test]
fn a_configured_path_is_probed_and_never_searched() {
    let info = RuntimeDescription::CommandBacked;
    let provider = Provider::from_info(&info);
    let mut facts = HostFacts::new();
    let mut requests = vec![];
    let result = loop {
        match provider.find_bin(&facts) {
            Step::Need(request) => {
                let reply = match &request {
                    Request::ReadVariable { .. } => Answer::Variable(Some("/opt/php-config".to_string())),
                    Request::ProbePath { .. } => Answer::Exists(true),
                    Request::SearchPath { .. } => Answer::Found(None),
                    Request::Run { .. } => Answer::Ran(Err("not expected".to_string())),
                };
                requests.push(request);
                facts.record(reply);
            }
            Step::Done(result) => break result,
        }
    };
    assert_eq!(result, Ok("/opt/php-config".to_string()));
    assert_eq!(
        requests,
        vec![
            Request::ReadVariable { name: "PHP_CONFIG".to_string() },
            Request::ProbePath { path: "/opt/php-config".to_string() },
        ]
    );
}
