use zapret_ux::error::{BindingError, Operation, OperationError};
use zapret_ux::nfqws::binding::{by_name, pgrep, pkill};
use zapret_ux::nfqws::{
    BypassSoftware, FilterMode, Nfqws, NfqwsBinding, NfqwsCmd, NfqwsCmdFactory, Platform,
};
use zapret_ux::process::ProcessResult;

fn ended(code: Option<i32>, stdout: &str, stderr: &str) -> ProcessResult {
    ProcessResult::Exited {
        code,
        stdout: stdout.as_bytes().to_vec(),
        stderr: stderr.as_bytes().to_vec(),
    }
}

fn supervisor(mark_supported: bool, filter_mode: FilterMode) -> Nfqws {
    Nfqws::new("/tmp/nfqws", "/usr/bin/pgrep", "/usr/bin/pkill", mark_supported, filter_mode)
}

fn strings(items: &[&str]) -> Vec<String> {
    items.iter().map(|s| s.to_string()).collect()
}

const FIXED: [&str; 7] = ["--debug", "1", "--daemon", "--qnum", "200", "--uid", "0:0"];

#[test]
fn start_without_options_has_the_fixed_arguments() {
    let nfqws = supervisor(false, FilterMode::Disabled);
    let inv = nfqws.run_command(&vec![]).invocation();
    assert_eq!(inv.program, "/tmp/nfqws");
    assert_eq!(inv.args, FIXED);
}

#[test]
fn start_with_mark_overrides_the_fwmark() {
    let nfqws = supervisor(true, FilterMode::Disabled);
    let mut expected = strings(&FIXED);
    expected.extend(strings(&["--dpi-desync-fwmark", "0x40000000"]));
    assert_eq!(nfqws.run_command(&vec![]).invocation().args, expected);
}

#[test]
fn start_hands_options_through_verbatim() {
    let nfqws = supervisor(false, FilterMode::HostFile);
    let opt = strings(&["--dpi-desync=fake", "--dpi-desync-ttl", "5", "<filter_mode>", ""]);
    let mut expected = strings(&FIXED);
    expected.extend(opt.clone());
    assert_eq!(nfqws.run_command(&opt).invocation().args, expected);
}

#[test]
fn placeholder_gives_way_to_the_auto_host_lists() {
    let nfqws = supervisor(true, FilterMode::AutoHostFile);
    let opt = strings(&["--a", "<FILTER_MODE>", "--b"]);
    let mut expected = strings(&FIXED);
    expected.extend(strings(&[
        "--dpi-desync-fwmark",
        "0x40000000",
        "--a",
        "--hostlist",
        "/opt/zapret-ux/hosts.txt",
        "--hostlist-exclude",
        "/opt/zapret-ux/hosts-exclude.txt",
        "--hostlist-auto",
        "/opt/zapret-ux/hosts-auto.txt",
        "--hostlist-auto-fail-threshold",
        "3",
        "--hostlist-auto-fail-time",
        "60",
        "--hostlist-auto-retrans-threshold",
        "3",
        "--b",
    ]));
    assert_eq!(nfqws.run_command(&opt).invocation().args, expected);
}

#[test]
fn placeholder_gives_way_to_the_host_lists() {
    let nfqws = supervisor(false, FilterMode::HostFile);
    let opt = strings(&["<FILTER_MODE>"]);
    let mut expected = strings(&FIXED);
    expected.extend(strings(&[
        "--hostlist",
        "/opt/zapret-ux/hosts.txt",
        "--hostlist-exclude",
        "/opt/zapret-ux/hosts-exclude.txt",
    ]));
    assert_eq!(nfqws.run_command(&opt).invocation().args, expected);
}

#[test]
fn placeholder_gives_way_to_nothing_without_a_filter() {
    let nfqws = supervisor(false, FilterMode::Disabled);
    let opt = strings(&["--a", "<FILTER_MODE>", "--b"]);
    let mut expected = strings(&FIXED);
    expected.extend(strings(&["--a", "--b"]));
    let args = nfqws.run_command(&opt).invocation().args;
    assert_eq!(args, expected);
    assert!(!args.iter().any(|a| a == "<FILTER_MODE>"));
}

#[test]
fn placeholder_is_replaced_each_time_it_occurs() {
    let nfqws = supervisor(false, FilterMode::HostFile);
    let opt = strings(&["<FILTER_MODE>", "--new", "<FILTER_MODE>"]);
    let lists = strings(&[
        "--hostlist",
        "/opt/zapret-ux/hosts.txt",
        "--hostlist-exclude",
        "/opt/zapret-ux/hosts-exclude.txt",
    ]);
    let mut expected = strings(&FIXED);
    expected.extend(lists.clone());
    expected.push("--new".to_string());
    expected.extend(lists);
    assert_eq!(nfqws.run_command(&opt).invocation().args, expected);
}

#[test]
fn host_lists_are_kept_elsewhere_on_android() {
    let nfqws = supervisor(false, FilterMode::AutoHostFile).on_platform(Platform::Android);
    let mut binding = NfqwsCmd::new("nfqws");
    nfqws.parse_opt(&mut binding, &strings(&["<FILTER_MODE>"]));
    assert_eq!(
        binding.invocation().args,
        vec![
            "--hostlist",
            "/data/adb/zapret-ux/hosts.txt",
            "--hostlist-exclude",
            "/data/adb/zapret-ux/hosts-exclude.txt",
            "--hostlist-auto",
            "/data/adb/zapret-ux/hosts-auto.txt",
            "--hostlist-auto-fail-threshold",
            "3",
            "--hostlist-auto-fail-time",
            "60",
            "--hostlist-auto-retrans-threshold",
            "3",
        ]
    );
}

#[test]
fn parse_opt_adds_behind_what_is_there() {
    let nfqws = supervisor(false, FilterMode::Disabled);
    let mut binding = NfqwsCmd::new("nfqws");
    binding.daemon();
    nfqws.parse_opt(&mut binding, &strings(&["x", "<FILTER_MODE>", "y"]));
    assert_eq!(binding.invocation().args, vec!["--daemon", "x", "y"]);
    nfqws.parse_opt(&mut binding, &vec![]);
    assert_eq!(binding.invocation().args, vec!["--daemon", "x", "y"]);
}

#[test]
fn start_succeeds_when_the_process_exits_with_zero() {
    let nfqws = supervisor(false, FilterMode::Disabled);
    let binding = nfqws.run_command(&vec![]);
    assert_eq!(nfqws.run(binding, ended(Some(0), "", "noise")), Ok(()));
}

#[test]
fn start_failure_is_put_under_the_name_of_the_start() {
    let nfqws = supervisor(false, FilterMode::Disabled);
    let binding = nfqws.run_command(&vec![]);
    assert_eq!(
        nfqws.run(binding, ended(Some(1), "", " cannot bind \n")),
        Err(OperationError {
            operation: Operation::StartProcess,
            cause: BindingError::Unknown { stderr: "cannot bind".to_string(), stdout: String::new() },
        })
    );
    let binding = nfqws.run_command(&vec![]);
    assert_eq!(
        nfqws.run(binding, ProcessResult::SpawnFailed { error: "no such file".to_string() }),
        Err(OperationError {
            operation: Operation::StartProcess,
            cause: BindingError::UnknownIO { error: "no such file".to_string() },
        })
    );
}

#[test]
fn kill_signals_the_processor_by_name() {
    let nfqws = supervisor(false, FilterMode::Disabled);
    let inv = nfqws.kill_command();
    assert_eq!(inv.program, "/usr/bin/pkill");
    assert_eq!(inv.args, vec!["nfqws"]);
}

#[test]
fn kill_succeeds_on_exit_code_zero_only() {
    let nfqws = supervisor(false, FilterMode::Disabled);
    assert_eq!(nfqws.kill(ended(Some(0), "", "")), Ok(()));
    for code in [Some(1), Some(2), Some(3), Some(-1), None] {
        assert_eq!(
            nfqws.kill(ended(code, " o ", " e ")),
            Err(OperationError {
                operation: Operation::KillProcess,
                cause: BindingError::Unknown { stderr: "e".to_string(), stdout: "o".to_string() },
            })
        );
    }
}

#[test]
fn kill_of_an_absent_process_is_a_failure() {
    let nfqws = supervisor(false, FilterMode::Disabled);
    assert!(nfqws.kill(ended(Some(1), "", "")).is_err());
}

#[test]
fn kill_does_not_read_the_error_text() {
    let nfqws = supervisor(false, FilterMode::Disabled);
    assert_eq!(
        nfqws.kill(ended(Some(1), "", "No chain/target/match by that name")),
        Err(OperationError {
            operation: Operation::KillProcess,
            cause: BindingError::Unknown {
                stderr: "No chain/target/match by that name".to_string(),
                stdout: String::new(),
            },
        })
    );
}

#[test]
fn search_looks_for_the_processor_by_name() {
    let nfqws = supervisor(false, FilterMode::Disabled);
    let inv = nfqws.is_running_command();
    assert_eq!(inv.program, "/usr/bin/pgrep");
    assert_eq!(inv.args, vec!["nfqws"]);
}

#[test]
fn is_running_is_true_on_exit_code_zero() {
    let nfqws = supervisor(false, FilterMode::Disabled);
    assert_eq!(nfqws.is_running(ended(Some(0), "1234\n", "")), Ok(true));
    assert_eq!(nfqws.is_running(ended(Some(0), "", "")), Ok(true));
}

#[test]
fn is_running_is_false_on_exit_code_one() {
    let nfqws = supervisor(false, FilterMode::Disabled);
    assert_eq!(nfqws.is_running(ended(Some(1), "", "")), Ok(false));
    assert_eq!(nfqws.is_running(ended(Some(1), "", "whatever")), Ok(false));
}

#[test]
fn is_running_fails_on_any_other_exit_code() {
    let nfqws = supervisor(false, FilterMode::Disabled);
    for code in [Some(2), Some(3), Some(-1), Some(127), Some(256), None] {
        assert_eq!(
            nfqws.is_running(ended(code, "", " syntax error \n")),
            Err(OperationError {
                operation: Operation::SearchProcess,
                cause: BindingError::Unknown {
                    stderr: "syntax error".to_string(),
                    stdout: String::new(),
                },
            })
        );
    }
}

#[test]
fn is_running_fails_when_the_utility_did_not_start() {
    let nfqws = supervisor(false, FilterMode::Disabled);
    assert_eq!(
        nfqws.is_running(ProcessResult::SpawnFailed { error: "no pgrep".to_string() }),
        Err(OperationError {
            operation: Operation::SearchProcess,
            cause: BindingError::UnknownIO { error: "no pgrep".to_string() },
        })
    );
    assert_eq!(
        nfqws.kill(ProcessResult::SpawnFailed { error: "no pkill".to_string() }),
        Err(OperationError {
            operation: Operation::KillProcess,
            cause: BindingError::UnknownIO { error: "no pkill".to_string() },
        })
    );
}

#[test]
fn utilities_are_read_without_a_supervisor_too() {
    assert_eq!(pgrep(ended(Some(0), "", "")), Ok(true));
    assert_eq!(pgrep(ended(Some(1), "", "")), Ok(false));
    assert!(pgrep(ended(Some(2), "", "")).is_err());
    assert_eq!(pkill(ended(Some(0), "", "")), Ok(()));
    assert!(pkill(ended(Some(1), "", "")).is_err());
    let inv = by_name("pgrep", "nfqws");
    assert_eq!(inv.program, "pgrep");
    assert_eq!(inv.args, vec!["nfqws"]);
}

#[test]
fn operations_keep_no_state_between_calls() {
    let nfqws = supervisor(true, FilterMode::HostFile);
    assert_eq!(nfqws.is_running(ended(Some(0), "", "")), Ok(true));
    assert_eq!(nfqws.is_running(ended(Some(1), "", "")), Ok(false));
    assert_eq!(nfqws.is_running(ended(Some(0), "", "")), Ok(true));
    let first = nfqws.run_command(&strings(&["<FILTER_MODE>"])).invocation();
    let second = nfqws.run_command(&strings(&["<FILTER_MODE>"])).invocation();
    assert_eq!(first, second);
}

#[test]
fn supervisor_with_a_given_factory_builds_the_same_command_lines() {
    let given = Nfqws::with_factory(
        NfqwsCmdFactory,
        "/tmp/nfqws",
        "/usr/bin/pgrep",
        "/usr/bin/pkill",
        true,
        FilterMode::HostFile,
    );
    let plain = supervisor(true, FilterMode::HostFile);
    let opt = strings(&["<FILTER_MODE>", "--x"]);
    assert_eq!(given.run_command(&opt).invocation(), plain.run_command(&opt).invocation());
    assert_eq!(given.kill_command(), plain.kill_command());
    assert_eq!(given.is_running_command(), plain.is_running_command());
}
