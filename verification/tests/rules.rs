use zapret_ux::error::{BindingError, Operation, OperationError};
use zapret_ux::iptables::{
    CleanStage, CleanStep, FirewallProvider, Iptables, IptablesBinding, IptablesCmdFactory, Port,
    PortSpec, Protocol, SetupStage, SetupStep,
};

fn not_found() -> BindingError {
    BindingError::NotFoundByThatName {
        stderr: "iptables: No chain/target/match by that name.".to_string(),
        stdout: String::new(),
    }
}

fn chain_exists() -> BindingError {
    BindingError::ChainAlreadyExists {
        stderr: "iptables: Chain already exists.".to_string(),
        stdout: String::new(),
    }
}

fn unknown() -> BindingError {
    BindingError::Unknown { stderr: "something else".to_string(), stdout: String::new() }
}

fn not_empty() -> BindingError {
    BindingError::DirectoryNotEmpty {
        stderr: "iptables: Directory not empty.".to_string(),
        stdout: String::new(),
    }
}

fn install(
    fw: &Iptables,
    ports: Vec<PortSpec>,
    answers: Vec<Result<(), BindingError>>,
) -> (Vec<Vec<String>>, Option<Result<(), OperationError>>) {
    let mut issued = Vec::new();
    let mut answers = answers.into_iter();
    let mut step = fw.setup_rules(ports);
    loop {
        match step {
            SetupStep::Done(outcome) => return (issued, Some(outcome)),
            SetupStep::Invoke(state, binding) => {
                let inv = binding.invocation();
                assert_eq!(inv.program, "/usr/bin/iptables");
                issued.push(inv.args);
                match answers.next() {
                    None => return (issued, None),
                    Some(answer) => step = fw.setup_next(state, answer),
                }
            }
        }
    }
}

fn remove(
    fw: &Iptables,
    answers: Vec<Result<(), BindingError>>,
) -> (Vec<Vec<String>>, Option<Result<(), OperationError>>) {
    let mut issued = Vec::new();
    let mut answers = answers.into_iter();
    let mut step = fw.clean_rules();
    loop {
        match step {
            CleanStep::Done(outcome) => return (issued, Some(outcome)),
            CleanStep::Invoke(stage, binding) => {
                let inv = binding.invocation();
                assert_eq!(inv.program, "/usr/bin/iptables");
                issued.push(inv.args);
                match answers.next() {
                    None => return (issued, None),
                    Some(answer) => step = fw.clean_next(stage, answer),
                }
            }
        }
    }
}

fn three_ports() -> Vec<PortSpec> {
    vec![
        PortSpec::new(Port::Single(80), Protocol::Tcp),
        PortSpec::new(Port::Single(443), Protocol::Udp),
        PortSpec::new(Port::Range(50000, 50099), Protocol::Udp),
    ]
}

const CREATE_CHAIN: [&str; 4] = ["--table", "mangle", "--new", "ZAPRET_UX"];
const ADD_JUMP: [&str; 6] = ["--table", "mangle", "--insert", "POSTROUTING", "--jump", "ZAPRET_UX"];
const DELETE_JUMP: [&str; 6] =
    ["--table", "mangle", "--delete", "POSTROUTING", "--jump", "ZAPRET_UX"];
const FLUSH_CHAIN: [&str; 4] = ["--table", "mangle", "--flush", "ZAPRET_UX"];
const DELETE_CHAIN: [&str; 4] = ["--table", "mangle", "--delete-chain", "ZAPRET_UX"];

#[test]
fn install_of_three_ports_with_mark_issues_five_invocations() {
    let fw = Iptables::new("/usr/bin/iptables", true, false);
    let (issued, outcome) = install(&fw, three_ports(), vec![Ok(()), Ok(()), Ok(()), Ok(()), Ok(())]);
    assert_eq!(outcome, Some(Ok(())));
    assert_eq!(issued.len(), 5);
    assert_eq!(issued[0], CREATE_CHAIN);
    assert_eq!(issued[1], ADD_JUMP);
    for rule in &issued[2..] {
        let mark = rule.iter().position(|a| a == "--mark").expect("a mark clause");
        assert_eq!(rule[mark - 1], "!");
        assert_eq!(rule[mark + 1], "0x40000000/0x40000000");
        assert!(!rule.iter().any(|a| a.starts_with("--connbytes")));
        assert!(!rule.iter().any(|a| a == "connbytes"));
    }
    assert_eq!(
        issued[2],
        vec![
            "--table", "mangle", "--insert", "ZAPRET_UX", "--protocol", "tcp", "--match", "tcp",
            "--dport", "80", "--jump", "NFQUEUE", "--queue-num", "200", "--queue-bypass",
            "--match", "mark", "!", "--mark", "0x40000000/0x40000000",
        ]
    );
    assert_eq!(
        issued[3],
        vec![
            "--table", "mangle", "--insert", "ZAPRET_UX", "--protocol", "udp", "--match", "udp",
            "--dport", "443", "--jump", "NFQUEUE", "--queue-num", "200", "--queue-bypass",
            "--match", "mark", "!", "--mark", "0x40000000/0x40000000",
        ]
    );
    assert_eq!(
        issued[4],
        vec![
            "--table", "mangle", "--insert", "ZAPRET_UX", "--protocol", "udp", "--match", "udp",
            "--dport", "50000:50099", "--jump", "NFQUEUE", "--queue-num", "200",
            "--queue-bypass", "--match", "mark", "!", "--mark", "0x40000000/0x40000000",
        ]
    );
}

#[test]
fn port_rule_without_optional_matches() {
    let fw = Iptables::new("/usr/bin/iptables", false, false);
    let rule = fw.add_port_rule(&PortSpec::new(Port::Single(80), Protocol::Tcp));
    assert_eq!(
        rule.invocation().args,
        vec![
            "--table", "mangle", "--insert", "ZAPRET_UX", "--protocol", "tcp", "--match", "tcp",
            "--dport", "80", "--jump", "NFQUEUE", "--queue-num", "200", "--queue-bypass",
        ]
    );
}

#[test]
fn port_rule_with_connbytes_only() {
    let fw = Iptables::new("/usr/bin/iptables", false, true);
    let rule = fw.add_port_rule(&PortSpec::new(Port::Range(1, 1024), Protocol::Udp));
    assert_eq!(
        rule.invocation().args,
        vec![
            "--table", "mangle", "--insert", "ZAPRET_UX", "--protocol", "udp", "--match", "udp",
            "--dport", "1:1024", "--jump", "NFQUEUE", "--queue-num", "200", "--queue-bypass",
            "--match", "connbytes", "--connbytes", "1:6", "--connbytes-dir", "origin",
            "--connbytes-mode", "packets",
        ]
    );
}

#[test]
fn port_rule_with_mark_and_connbytes() {
    let fw = Iptables::new("/usr/bin/iptables", true, true);
    let rule = fw.add_port_rule(&PortSpec::new(Port::Single(443), Protocol::Tcp));
    assert_eq!(
        rule.invocation().args,
        vec![
            "--table", "mangle", "--insert", "ZAPRET_UX", "--protocol", "tcp", "--match", "tcp",
            "--dport", "443", "--jump", "NFQUEUE", "--queue-num", "200", "--queue-bypass",
            "--match", "mark", "!", "--mark", "0x40000000/0x40000000", "--match", "connbytes",
            "--connbytes", "1:6", "--connbytes-dir", "origin", "--connbytes-mode", "packets",
        ]
    );
}

#[test]
fn single_command_lines_of_the_rule_set() {
    let fw = Iptables::new("/usr/bin/iptables", true, true);
    assert_eq!(fw.create_chain().invocation().args, CREATE_CHAIN);
    assert_eq!(fw.add_jump_rule().invocation().args, ADD_JUMP);
    assert_eq!(fw.delete_jump_rule().invocation().args, DELETE_JUMP);
    assert_eq!(fw.flush_chain().invocation().args, FLUSH_CHAIN);
    assert_eq!(fw.delete_chain().invocation().args, DELETE_CHAIN);
    assert_eq!(fw.create_chain().invocation().program, "/usr/bin/iptables");
}

#[test]
fn install_without_ports_creates_chain_and_jump_only() {
    let fw = Iptables::new("/usr/bin/iptables", true, true);
    let (issued, outcome) = install(&fw, vec![], vec![Ok(()), Ok(())]);
    assert_eq!(outcome, Some(Ok(())));
    assert_eq!(issued, vec![CREATE_CHAIN.to_vec(), ADD_JUMP.to_vec()]);
}

#[test]
fn install_waits_for_each_answer() {
    let fw = Iptables::new("/usr/bin/iptables", true, true);
    let (issued, outcome) = install(&fw, three_ports(), vec![Ok(()), Ok(()), Ok(())]);
    assert_eq!(outcome, None);
    assert_eq!(issued.len(), 4);
}

#[test]
fn install_over_an_existing_chain_aborts_at_once() {
    let fw = Iptables::new("/usr/bin/iptables", true, false);
    let (issued, outcome) =
        install(&fw, three_ports(), vec![Err(chain_exists()), Ok(()), Ok(()), Ok(()), Ok(())]);
    assert_eq!(issued, vec![CREATE_CHAIN.to_vec()]);
    assert_eq!(
        outcome,
        Some(Err(OperationError { operation: Operation::CreateChain, cause: chain_exists() }))
    );
}

#[test]
fn install_aborts_when_the_chain_cannot_be_created_for_any_reason() {
    let fw = Iptables::new("/usr/bin/iptables", false, false);
    for cause in [not_found(), unknown(), not_empty()] {
        let (issued, outcome) = install(&fw, three_ports(), vec![Err(cause.clone())]);
        assert_eq!(issued.len(), 1);
        assert_eq!(
            outcome,
            Some(Err(OperationError { operation: Operation::CreateChain, cause }))
        );
    }
}

#[test]
fn install_aborts_when_the_jump_fails() {
    let fw = Iptables::new("/usr/bin/iptables", false, false);
    let (issued, outcome) = install(&fw, three_ports(), vec![Ok(()), Err(unknown()), Ok(())]);
    assert_eq!(issued, vec![CREATE_CHAIN.to_vec(), ADD_JUMP.to_vec()]);
    assert_eq!(
        outcome,
        Some(Err(OperationError { operation: Operation::AddJumpRule, cause: unknown() }))
    );
}

#[test]
fn install_reports_the_port_that_failed_and_stops_there() {
    let fw = Iptables::new("/usr/bin/iptables", false, false);
    let (issued, outcome) =
        install(&fw, three_ports(), vec![Ok(()), Ok(()), Ok(()), Err(unknown()), Ok(())]);
    assert_eq!(issued.len(), 4);
    assert_eq!(
        outcome,
        Some(Err(OperationError {
            operation: Operation::AddPortRule(PortSpec::new(Port::Single(443), Protocol::Udp)),
            cause: unknown(),
        }))
    );
}

#[test]
fn install_reports_the_last_port_when_it_fails() {
    let fw = Iptables::new("/usr/bin/iptables", false, false);
    let (issued, outcome) =
        install(&fw, three_ports(), vec![Ok(()), Ok(()), Ok(()), Ok(()), Err(not_found())]);
    assert_eq!(issued.len(), 5);
    assert_eq!(
        outcome,
        Some(Err(OperationError {
            operation: Operation::AddPortRule(PortSpec::new(
                Port::Range(50000, 50099),
                Protocol::Udp
            )),
            cause: not_found(),
        }))
    );
}

#[test]
fn install_twice_surfaces_the_existing_chain() {
    let fw = Iptables::new("/usr/bin/iptables", true, false);
    let (first, outcome) = install(&fw, three_ports(), vec![Ok(()); 5]);
    assert_eq!(first.len(), 5);
    assert_eq!(outcome, Some(Ok(())));
    let (second, outcome) = install(&fw, three_ports(), vec![Err(chain_exists())]);
    assert_eq!(second, vec![CREATE_CHAIN.to_vec()]);
    match outcome {
        Some(Err(OperationError {
            operation: Operation::CreateChain,
            cause: BindingError::ChainAlreadyExists { .. },
        })) => {}
        other => panic!("unexpected outcome: {:?}", other),
    }
}

#[test]
fn install_stages_follow_the_ports() {
    let fw = Iptables::new("/usr/bin/iptables", false, false);
    let mut stages = Vec::new();
    let mut step = fw.setup_rules(three_ports());
    while let SetupStep::Invoke(state, _) = step {
        stages.push(state.stage());
        step = fw.setup_next(state, Ok(()));
    }
    assert_eq!(
        stages,
        vec![
            SetupStage::CreateChain,
            SetupStage::JumpRule,
            SetupStage::PortRule(0),
            SetupStage::PortRule(1),
            SetupStage::PortRule(2),
        ]
    );
}

#[test]
fn remove_of_nothing_issues_two_invocations() {
    let fw = Iptables::new("/usr/bin/iptables", true, false);
    let (issued, outcome) = remove(&fw, vec![Err(not_found()), Err(not_found())]);
    assert_eq!(issued, vec![DELETE_JUMP.to_vec(), FLUSH_CHAIN.to_vec()]);
    assert_eq!(outcome, Some(Ok(())));
}

#[test]
fn remove_of_a_full_install_issues_three_invocations() {
    let fw = Iptables::new("/usr/bin/iptables", true, false);
    let (issued, outcome) = remove(&fw, vec![Ok(()), Ok(()), Ok(())]);
    assert_eq!(
        issued,
        vec![DELETE_JUMP.to_vec(), FLUSH_CHAIN.to_vec(), DELETE_CHAIN.to_vec()]
    );
    assert_eq!(outcome, Some(Ok(())));
}

#[test]
fn remove_goes_on_when_the_jump_is_not_there() {
    let fw = Iptables::new("/usr/bin/iptables", true, false);
    let (issued, outcome) = remove(&fw, vec![Err(not_found()), Ok(()), Ok(())]);
    assert_eq!(issued.len(), 3);
    assert_eq!(outcome, Some(Ok(())));
}

#[test]
fn remove_skips_the_deletion_when_the_chain_is_not_there() {
    let fw = Iptables::new("/usr/bin/iptables", true, false);
    let (issued, outcome) = remove(&fw, vec![Ok(()), Err(not_found()), Ok(())]);
    assert_eq!(issued, vec![DELETE_JUMP.to_vec(), FLUSH_CHAIN.to_vec()]);
    assert_eq!(outcome, Some(Ok(())));
}

#[test]
fn remove_takes_a_chain_gone_at_deletion_for_done() {
    let fw = Iptables::new("/usr/bin/iptables", true, false);
    let (issued, outcome) = remove(&fw, vec![Ok(()), Ok(()), Err(not_found())]);
    assert_eq!(issued.len(), 3);
    assert_eq!(outcome, Some(Ok(())));
}

#[test]
fn remove_aborts_on_any_other_failure_of_the_jump_deletion() {
    let fw = Iptables::new("/usr/bin/iptables", true, false);
    for cause in [unknown(), chain_exists(), not_empty()] {
        let (issued, outcome) = remove(&fw, vec![Err(cause.clone()), Ok(()), Ok(())]);
        assert_eq!(issued, vec![DELETE_JUMP.to_vec()]);
        assert_eq!(
            outcome,
            Some(Err(OperationError { operation: Operation::RemoveJumpRule, cause }))
        );
    }
}

#[test]
fn remove_aborts_on_any_other_failure_of_the_flush() {
    let fw = Iptables::new("/usr/bin/iptables", true, false);
    let (issued, outcome) = remove(&fw, vec![Ok(()), Err(unknown()), Ok(())]);
    assert_eq!(issued.len(), 2);
    assert_eq!(
        outcome,
        Some(Err(OperationError { operation: Operation::FlushChain, cause: unknown() }))
    );
}

#[test]
fn remove_aborts_on_any_other_failure_of_the_chain_deletion() {
    let fw = Iptables::new("/usr/bin/iptables", true, false);
    let (issued, outcome) = remove(&fw, vec![Ok(()), Ok(()), Err(not_empty())]);
    assert_eq!(issued.len(), 3);
    assert_eq!(
        outcome,
        Some(Err(OperationError { operation: Operation::DeleteChain, cause: not_empty() }))
    );
}

#[test]
fn remove_twice_succeeds_both_times() {
    let fw = Iptables::new("/usr/bin/iptables", true, false);
    let (first, outcome) = remove(&fw, vec![Ok(()), Ok(()), Ok(())]);
    assert_eq!(first.len(), 3);
    assert_eq!(outcome, Some(Ok(())));
    let (second, outcome) = remove(&fw, vec![Err(not_found()), Err(not_found())]);
    assert_eq!(second, vec![DELETE_JUMP.to_vec(), FLUSH_CHAIN.to_vec()]);
    assert_eq!(outcome, Some(Ok(())));
}

#[test]
fn remove_stages_are_handed_out_in_order() {
    let fw = Iptables::new("/usr/bin/iptables", true, false);
    let mut stages = Vec::new();
    let mut step = fw.clean_rules();
    while let CleanStep::Invoke(stage, _) = step {
        stages.push(stage);
        step = fw.clean_next(stage, Ok(()));
    }
    assert_eq!(
        stages,
        vec![CleanStage::DeleteJump, CleanStage::FlushChain, CleanStage::DeleteChain]
    );
}

#[test]
fn remove_never_adds_anything() {
    let fw = Iptables::new("/usr/bin/iptables", true, true);
    let (issued, _) = remove(&fw, vec![Ok(()), Ok(()), Ok(())]);
    for args in issued {
        assert!(!args.iter().any(|a| a == "--insert" || a == "--new"));
    }
}

#[test]
fn manager_with_a_given_factory_builds_the_same_command_lines() {
    let given = Iptables::with_factory(IptablesCmdFactory, "/usr/bin/iptables", true, true);
    let plain = Iptables::new("/usr/bin/iptables", true, true);
    let spec = PortSpec::new(Port::Single(8443), Protocol::Tcp);
    assert_eq!(given.add_port_rule(&spec).invocation(), plain.add_port_rule(&spec).invocation());
    assert_eq!(given.create_chain().invocation(), plain.create_chain().invocation());
}
