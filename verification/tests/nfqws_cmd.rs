use zapret_ux::error::BindingError;
use zapret_ux::nfqws::{NfqwsBinding, NfqwsBindingFactory, NfqwsCmd, NfqwsCmdFactory};
use zapret_ux::process::ProcessResult;

fn nfqws_args(cmd: &NfqwsCmd) -> Vec<String> {
    cmd.invocation().args
}

#[test]
fn new_nfqws_command_has_the_path_and_no_argument() {
    let cmd = NfqwsCmd::new("/tmp/nfqws");
    let inv = cmd.invocation();
    assert_eq!(inv.program, "/tmp/nfqws");
    assert!(inv.args.is_empty());
    let made = NfqwsCmdFactory.create("/opt/nfqws");
    assert_eq!(made.invocation().program, "/opt/nfqws");
    assert!(made.invocation().args.is_empty());
}

#[test]
fn each_option_adds_its_tokens() {
    let mut cmd = NfqwsCmd::new("nfqws");
    cmd.debug("1");
    assert_eq!(nfqws_args(&cmd), vec!["--debug", "1"]);
    let mut cmd = NfqwsCmd::new("nfqws");
    cmd.daemon();
    assert_eq!(nfqws_args(&cmd), vec!["--daemon"]);
    let mut cmd = NfqwsCmd::new("nfqws");
    cmd.qnum(200);
    assert_eq!(nfqws_args(&cmd), vec!["--qnum", "200"]);
    let mut cmd = NfqwsCmd::new("nfqws");
    cmd.uid("0:0");
    assert_eq!(nfqws_args(&cmd), vec!["--uid", "0:0"]);
    let mut cmd = NfqwsCmd::new("nfqws");
    cmd.dpi_desync_fwmark("0x40000000");
    assert_eq!(nfqws_args(&cmd), vec!["--dpi-desync-fwmark", "0x40000000"]);
    let mut cmd = NfqwsCmd::new("nfqws");
    cmd.hostlist("/h");
    assert_eq!(nfqws_args(&cmd), vec!["--hostlist", "/h"]);
    let mut cmd = NfqwsCmd::new("nfqws");
    cmd.hostlist_exclude("/e");
    assert_eq!(nfqws_args(&cmd), vec!["--hostlist-exclude", "/e"]);
    let mut cmd = NfqwsCmd::new("nfqws");
    cmd.hostlist_auto("/a");
    assert_eq!(nfqws_args(&cmd), vec!["--hostlist-auto", "/a"]);
    let mut cmd = NfqwsCmd::new("nfqws");
    cmd.hostlist_auto_fail_threshold(3);
    assert_eq!(nfqws_args(&cmd), vec!["--hostlist-auto-fail-threshold", "3"]);
    let mut cmd = NfqwsCmd::new("nfqws");
    cmd.hostlist_auto_fail_time(60);
    assert_eq!(nfqws_args(&cmd), vec!["--hostlist-auto-fail-time", "60"]);
    let mut cmd = NfqwsCmd::new("nfqws");
    cmd.hostlist_auto_retrans_threshold(4294967295);
    assert_eq!(nfqws_args(&cmd), vec!["--hostlist-auto-retrans-threshold", "4294967295"]);
}

#[test]
fn custom_args_are_added_verbatim_and_in_order() {
    let mut cmd = NfqwsCmd::new("nfqws");
    cmd.daemon().custom_args(&vec![
        "--dpi-desync=fake".to_string(),
        "".to_string(),
        "--daemon".to_string(),
        "x y".to_string(),
    ]);
    assert_eq!(nfqws_args(&cmd), vec!["--daemon", "--dpi-desync=fake", "", "--daemon", "x y"]);
    let mut cmd = NfqwsCmd::new("nfqws");
    cmd.custom_args(&vec![]).qnum(1);
    assert_eq!(nfqws_args(&cmd), vec!["--qnum", "1"]);
}

#[test]
fn options_follow_the_order_of_the_calls() {
    let mut cmd = NfqwsCmd::new("nfqws");
    cmd.uid("1:1").debug("0").daemon().uid("2:2");
    assert_eq!(nfqws_args(&cmd), vec!["--uid", "1:1", "--debug", "0", "--daemon", "--uid", "2:2"]);
}

#[test]
fn nfqws_run_classifies_what_the_process_returned() {
    let cmd = NfqwsCmd::new("nfqws");
    assert_eq!(
        cmd.run(ProcessResult::Exited { code: Some(0), stdout: vec![], stderr: b"warn".to_vec() }),
        Ok(())
    );
    let cmd = NfqwsCmd::new("nfqws");
    assert_eq!(
        cmd.run(ProcessResult::Exited {
            code: Some(1),
            stdout: b" started \n".to_vec(),
            stderr: b"can't open queue\n".to_vec(),
        }),
        Err(BindingError::Unknown {
            stderr: "can't open queue".to_string(),
            stdout: "started".to_string(),
        })
    );
    let cmd = NfqwsCmd::new("nfqws");
    assert_eq!(
        cmd.run(ProcessResult::SpawnFailed { error: "not found".to_string() }),
        Err(BindingError::UnknownIO { error: "not found".to_string() })
    );
}
