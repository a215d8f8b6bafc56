use zapret_ux::error::{BindingError, Operation, OperationError};
use zapret_ux::iptables::{Port, PortSpec, Protocol};

#[test]
fn binding_errors_render_with_both_texts() {
    let e = BindingError::DirectoryNotEmpty { stderr: "E".to_string(), stdout: "O".to_string() };
    assert_eq!(e.to_string(), "Directory not empty. stderr: 'E' stdout: 'O'");
    let e = BindingError::ChainAlreadyExists { stderr: "E".to_string(), stdout: "O".to_string() };
    assert_eq!(e.to_string(), "Chain already exists. stderr: 'E' stdout: 'O'");
    let e = BindingError::NotFoundByThatName { stderr: "E".to_string(), stdout: "O".to_string() };
    assert_eq!(
        e.to_string(),
        "Not found chain/target/match by that name. stderr: 'E' stdout: 'O'"
    );
    let e = BindingError::Unknown { stderr: "".to_string(), stdout: "".to_string() };
    assert_eq!(e.to_string(), "Unknown iptables error. stderr: '' stdout: ''");
}

#[test]
fn io_failure_renders_with_the_system_message() {
    let e = BindingError::UnknownIO { error: "No such file or directory (os error 2)".to_string() };
    assert_eq!(
        e.to_string(),
        "Unknown iptables error (IO). error: No such file or directory (os error 2)"
    );
}

#[test]
fn operations_say_what_failed() {
    assert_eq!(Operation::CreateChain.to_string(), "Failed to create chain ZAPRET_UX");
    assert_eq!(
        Operation::AddJumpRule.to_string(),
        "Failed to add jump rule from POSTROUTING to ZAPRET_UX"
    );
    assert_eq!(
        Operation::AddPortRule(PortSpec::new(Port::Single(443), Protocol::Tcp)).to_string(),
        "Failed to add port rule for tcp/443"
    );
    assert_eq!(
        Operation::AddPortRule(PortSpec::new(Port::Range(50000, 50099), Protocol::Udp))
            .to_string(),
        "Failed to add port rule for udp/50000:50099"
    );
    assert_eq!(Operation::RemoveJumpRule.to_string(), "Failed to remove jump rule");
    assert_eq!(Operation::FlushChain.to_string(), "Failed to flush target chain");
    assert_eq!(Operation::DeleteChain.to_string(), "Failed to delete target chain");
    assert_eq!(Operation::StartProcess.to_string(), "Failed to start nfqws process");
    assert_eq!(Operation::KillProcess.to_string(), "Failed to kill nfqws process");
    assert_eq!(Operation::SearchProcess.to_string(), "Failed to search nfqws process");
}

#[test]
fn operation_error_renders_the_operation_then_the_cause() {
    let e = OperationError {
        operation: Operation::AddPortRule(PortSpec::new(Port::Single(80), Protocol::Tcp)),
        cause: BindingError::Unknown { stderr: "bad".to_string(), stdout: "".to_string() },
    };
    assert_eq!(
        e.to_string(),
        "Failed to add port rule for tcp/80: Unknown iptables error. stderr: 'bad' stdout: ''"
    );
}
