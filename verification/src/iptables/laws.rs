//! What holds of every install and every removal, whatever the rule tool
//! answers.
//!
//! An operation is followed here from outside: the caller executes each command
//! line that is handed out and hands back the outcome, and `outcomes` lists
//! what the rule tool answered, invocation by invocation. What the rule tool's
//! own state is after that is not modelled.

use crate::error::{BindingErrorView, OperationErrorView};
use crate::iptables::enums::PortSpec;
use crate::iptables::lifecycle::{
    clean_after, clean_clauses, clean_operation, setup_after, setup_clauses, setup_operation,
    CleanPlan, CleanStage, SetupPlan, SetupStage,
};
use crate::iptables::rules::{
    connbytes_clauses, mark_clauses, port_rule_clauses, redirect_clauses, MARK_VALUE,
};
use crate::iptables::traits::Clause;
use vstd::prelude::*;

verus! {

/// An operation as its caller sees it: the command lines executed, each as its
/// clauses, and what the operation came to; nothing yet where the answers
/// given do not reach its end.
pub struct Run {
    pub invocations: Seq<Seq<Clause>>,
    pub outcome: Option<Result<(), OperationErrorView>>,
}

/// The rest of an install from the invocation of `stage` on, where the rule
/// tool answers with `outcomes`.
pub open spec fn setup_from(
    ports: Seq<PortSpec>,
    stage: SetupStage,
    mark_supported: bool,
    connbytes_supported: bool,
    outcomes: Seq<Result<(), BindingErrorView>>,
) -> Run
    decreases outcomes.len(),
{
    let issued = seq![setup_clauses(ports, stage, mark_supported, connbytes_supported)];
    if outcomes.len() == 0 {
        Run { invocations: issued, outcome: None }
    } else {
        match setup_after(ports, stage, outcomes[0]) {
            SetupPlan::Done(outcome) => Run { invocations: issued, outcome: Some(outcome) },
            SetupPlan::Invoke(next) => {
                let rest = setup_from(
                    ports,
                    next,
                    mark_supported,
                    connbytes_supported,
                    outcomes.drop_first(),
                );
                Run { invocations: issued + rest.invocations, outcome: rest.outcome }
            },
        }
    }
}

/// An install of `ports`, where the rule tool answers with `outcomes`.
pub open spec fn setup_run(
    ports: Seq<PortSpec>,
    mark_supported: bool,
    connbytes_supported: bool,
    outcomes: Seq<Result<(), BindingErrorView>>,
) -> Run {
    setup_from(ports, SetupStage::CreateChain, mark_supported, connbytes_supported, outcomes)
}

/// The rest of a removal from the invocation of `stage` on, where the rule tool
/// answers with `outcomes`.
pub open spec fn clean_from(stage: CleanStage, outcomes: Seq<Result<(), BindingErrorView>>) -> Run
    decreases outcomes.len(),
{
    let issued = seq![clean_clauses(stage)];
    if outcomes.len() == 0 {
        Run { invocations: issued, outcome: None }
    } else {
        match clean_after(stage, outcomes[0]) {
            CleanPlan::Done(outcome) => Run { invocations: issued, outcome: Some(outcome) },
            CleanPlan::Invoke(next) => {
                let rest = clean_from(next, outcomes.drop_first());
                Run { invocations: issued + rest.invocations, outcome: rest.outcome }
            },
        }
    }
}

/// A removal, where the rule tool answers with `outcomes`.
pub open spec fn clean_run(outcomes: Seq<Result<(), BindingErrorView>>) -> Run {
    clean_from(CleanStage::DeleteJump, outcomes)
}

/// The stage of the invocation at `index` of an install: the chain, the jump,
/// then the port specifications in their order.
pub open spec fn setup_stage(index: nat) -> SetupStage {
    if index == 0 {
        SetupStage::CreateChain
    } else if index == 1 {
        SetupStage::JumpRule
    } else {
        SetupStage::PortRule((index - 2) as usize)
    }
}

/// The rule tool did not find what it was to remove.
pub open spec fn found_nothing(outcome: Result<(), BindingErrorView>) -> bool {
    outcome matches Err(BindingErrorView::NotFoundByThatName { .. })
}

/// The rule tool removed what it was to remove, or did not find it.
pub open spec fn gone(outcome: Result<(), BindingErrorView>) -> bool {
    outcome is Ok || found_nothing(outcome)
}

proof fn lemma_setup_from(
    ports: Seq<PortSpec>,
    mark_supported: bool,
    connbytes_supported: bool,
    first: nat,
    outcomes: Seq<Result<(), BindingErrorView>>,
    good: nat,
)
    requires
        ports.len() <= usize::MAX,
        first + good <= ports.len() + 2,
        first < ports.len() + 2,
        good <= outcomes.len(),
        forall|i: int| 0 <= i < good ==> outcomes[i] is Ok,
        first + good < ports.len() + 2 ==> outcomes.len() == good || outcomes[good as int] is Err,
    ensures
        ({
            let run = setup_from(
                ports,
                setup_stage(first),
                mark_supported,
                connbytes_supported,
                outcomes,
            );
            let last = first + good;
            &&& run.invocations.len() == if last < ports.len() + 2 {
                good + 1
            } else {
                good
            }
            &&& forall|i: int|
                0 <= i < run.invocations.len() ==> run.invocations[i] == setup_clauses(
                    ports,
                    setup_stage((first + i) as nat),
                    mark_supported,
                    connbytes_supported,
                )
            &&& run.outcome == if last == ports.len() + 2 {
                Some(Ok::<(), OperationErrorView>(()))
            } else if outcomes.len() == good {
                None
            } else {
                Some(
                    Err(
                        OperationErrorView {
                            operation: setup_operation(ports, setup_stage(last)),
                            cause: outcomes[good as int]->Err_0,
                        },
                    ),
                )
            }
        }),
    decreases outcomes.len(),
{
    let stage = setup_stage(first);
    if outcomes.len() > 0 && good > 0 {
        let rest = outcomes.drop_first();
        if first + 1 < ports.len() + 2 {
            assert(setup_after(ports, stage, outcomes[0]) == SetupPlan::Invoke(
                setup_stage(first + 1),
            ));
            lemma_setup_from(
                ports,
                mark_supported,
                connbytes_supported,
                first + 1,
                rest,
                (good - 1) as nat,
            );
            let tail = setup_from(
                ports,
                setup_stage(first + 1),
                mark_supported,
                connbytes_supported,
                rest,
            );
            let run = setup_from(ports, stage, mark_supported, connbytes_supported, outcomes);
            assert forall|i: int| 0 <= i < run.invocations.len() implies run.invocations[i]
                == setup_clauses(
                ports,
                setup_stage((first + i) as nat),
                mark_supported,
                connbytes_supported,
            ) by {
                if i > 0 {
                    assert(run.invocations[i] == tail.invocations[i - 1]);
                }
            }
        } else {
            assert(setup_after(ports, stage, outcomes[0]) == SetupPlan::Done(Ok(())));
        }
    }
}

/// An install ends at the first failure. Where the rule tool answers the
/// invocation at `failed` with a failure and all before it with success, the
/// install has made the first `failed + 1` of its invocations and no other, and
/// comes to that failure under the name of the operation that made it.
pub proof fn lemma_setup_ends_at_first_failure(
    ports: Seq<PortSpec>,
    mark_supported: bool,
    connbytes_supported: bool,
    outcomes: Seq<Result<(), BindingErrorView>>,
    failed: nat,
)
    requires
        ports.len() <= usize::MAX,
        failed < outcomes.len(),
        failed < ports.len() + 2,
        forall|i: int| 0 <= i < failed ==> outcomes[i] is Ok,
        outcomes[failed as int] is Err,
    ensures
        ({
            let run = setup_run(ports, mark_supported, connbytes_supported, outcomes);
            &&& run.invocations.len() == failed + 1
            &&& forall|i: int|
                0 <= i <= failed ==> run.invocations[i] == setup_clauses(
                    ports,
                    setup_stage(i as nat),
                    mark_supported,
                    connbytes_supported,
                )
            &&& run.outcome == Some(
                Err::<(), OperationErrorView>(
                    OperationErrorView {
                        operation: setup_operation(ports, setup_stage(failed)),
                        cause: outcomes[failed as int]->Err_0,
                    },
                ),
            )
        }),
{
    lemma_setup_from(ports, mark_supported, connbytes_supported, 0, outcomes, failed);
}

/// An install over a chain that exists is not retried and touches nothing
/// else. Where the rule tool answers the creation of the chain with a failure,
/// as it does with "Chain already exists" after an install without a removal,
/// that creation is the only invocation made, and the install comes to that
/// failure.
pub proof fn lemma_setup_aborts_at_the_chain(
    ports: Seq<PortSpec>,
    mark_supported: bool,
    connbytes_supported: bool,
    outcomes: Seq<Result<(), BindingErrorView>>,
)
    requires
        outcomes.len() > 0,
        outcomes[0] is Err,
    ensures
        ({
            let run = setup_run(ports, mark_supported, connbytes_supported, outcomes);
            &&& run.invocations == seq![crate::iptables::rules::create_chain_clauses()]
            &&& run.outcome == Some(
                Err::<(), OperationErrorView>(
                    OperationErrorView {
                        operation: crate::error::Operation::CreateChain,
                        cause: outcomes[0]->Err_0,
                    },
                ),
            )
        }),
{
}

/// An install that meets no failure makes one invocation for the chain, one
/// for the jump and one for each port specification, in that order, and comes
/// to success.
pub proof fn lemma_setup_succeeds(
    ports: Seq<PortSpec>,
    mark_supported: bool,
    connbytes_supported: bool,
    outcomes: Seq<Result<(), BindingErrorView>>,
)
    requires
        ports.len() <= usize::MAX,
        outcomes.len() >= ports.len() + 2,
        forall|i: int| 0 <= i < ports.len() + 2 ==> outcomes[i] is Ok,
    ensures
        ({
            let run = setup_run(ports, mark_supported, connbytes_supported, outcomes);
            &&& run.invocations.len() == ports.len() + 2
            &&& forall|i: int|
                0 <= i < ports.len() + 2 ==> run.invocations[i] == setup_clauses(
                    ports,
                    setup_stage(i as nat),
                    mark_supported,
                    connbytes_supported,
                )
            &&& run.outcome == Some(Ok::<(), OperationErrorView>(()))
        }),
{
    lemma_setup_from(
        ports,
        mark_supported,
        connbytes_supported,
        0,
        outcomes,
        (ports.len() + 2) as nat,
    );
}

/// The rule for a port specification matches on the packet mark exactly where
/// the mark is supported, and then with the match negated; it matches on the
/// packet count exactly where that is supported.
pub proof fn lemma_port_rule_options(
    port_spec: PortSpec,
    mark_supported: bool,
    connbytes_supported: bool,
)
    ensures
        ({
            let clauses = port_rule_clauses(port_spec, mark_supported, connbytes_supported);
            &&& mark_supported <==> clauses.contains(
                Clause::Mark { value: MARK_VALUE@, negated: true },
            )
            &&& forall|i: int|
                0 <= i < clauses.len() && clauses[i] is Mark ==> mark_supported
                    && clauses[i]->Mark_negated
            &&& connbytes_supported <==> exists|i: int|
                0 <= i < clauses.len() && clauses[i] is Connbytes
        }),
{
    let redirect = redirect_clauses(port_spec);
    let mark = mark_clauses(mark_supported);
    let connbytes = connbytes_clauses(connbytes_supported);
    let clauses = port_rule_clauses(port_spec, mark_supported, connbytes_supported);
    assert(redirect.len() == 8);
    if mark_supported {
        assert(clauses[9] == Clause::Mark { value: MARK_VALUE@, negated: true });
    }
    if connbytes_supported {
        assert(clauses[9 + mark.len() as int] is Connbytes);
    }
}

/// A removal takes absence for done. Where the rule tool answers each
/// invocation with success or with not having found what it was to remove, the
/// removal comes to success, after two invocations where it was the chain that
/// could not be emptied, and after three otherwise.
pub proof fn lemma_clean_takes_absence_for_done(outcomes: Seq<Result<(), BindingErrorView>>)
    requires
        outcomes.len() >= 3,
        forall|i: int| 0 <= i < 3 ==> gone(#[trigger] outcomes[i]),
    ensures
        ({
            let run = clean_run(outcomes);
            &&& run.outcome == Some(Ok::<(), OperationErrorView>(()))
            &&& run.invocations == if found_nothing(outcomes[1]) {
                seq![clean_clauses(CleanStage::DeleteJump), clean_clauses(CleanStage::FlushChain)]
            } else {
                seq![
                    clean_clauses(CleanStage::DeleteJump),
                    clean_clauses(CleanStage::FlushChain),
                    clean_clauses(CleanStage::DeleteChain),
                ]
            }
        }),
{
    reveal_with_fuel(clean_from, 4);
    let run = clean_run(outcomes);
    assert(gone(outcomes[0]) && gone(outcomes[1]) && gone(outcomes[2]));
    let second = outcomes.drop_first();
    let third = second.drop_first();
    assert(second[0] == outcomes[1]);
    assert(third[0] == outcomes[2]);
    if found_nothing(outcomes[1]) {
        assert(run.invocations =~= seq![
            clean_clauses(CleanStage::DeleteJump),
            clean_clauses(CleanStage::FlushChain),
        ]);
    } else {
        assert(run.invocations =~= seq![
            clean_clauses(CleanStage::DeleteJump),
            clean_clauses(CleanStage::FlushChain),
            clean_clauses(CleanStage::DeleteChain),
        ]);
    }
}

/// A removal where nothing was installed. Where the rule tool finds neither
/// the jump nor the chain, the removal makes exactly two invocations, the
/// deletion of the jump and the emptying of the chain, leaves the deletion of
/// the chain out, and comes to success.
pub proof fn lemma_clean_of_nothing(outcomes: Seq<Result<(), BindingErrorView>>)
    requires
        outcomes.len() >= 2,
        found_nothing(outcomes[0]),
        found_nothing(outcomes[1]),
    ensures
        clean_run(outcomes) == (Run {
            invocations: seq![
                clean_clauses(CleanStage::DeleteJump),
                clean_clauses(CleanStage::FlushChain),
            ],
            outcome: Some(Ok(())),
        }),
{
    reveal_with_fuel(clean_from, 3);
    let run = clean_run(outcomes);
    assert(outcomes.drop_first()[0] == outcomes[1]);
    assert(run.invocations =~= seq![
        clean_clauses(CleanStage::DeleteJump),
        clean_clauses(CleanStage::FlushChain),
    ]);
}

/// A removal can be repeated. Where a first removal met nothing but success
/// and absence, and a second one follows on what it left, where the rule tool
/// finds neither jump nor chain, both come to success, and the second makes
/// the two invocations of a removal where nothing is installed.
pub proof fn lemma_clean_twice(
    first: Seq<Result<(), BindingErrorView>>,
    second: Seq<Result<(), BindingErrorView>>,
)
    requires
        first.len() >= 3,
        forall|i: int| 0 <= i < 3 ==> gone(#[trigger] first[i]),
        second.len() >= 2,
        found_nothing(second[0]),
        found_nothing(second[1]),
    ensures
        clean_run(first).outcome == Some(Ok::<(), OperationErrorView>(())),
        clean_run(second).outcome == Some(Ok::<(), OperationErrorView>(())),
        clean_run(second).invocations == seq![
            clean_clauses(CleanStage::DeleteJump),
            clean_clauses(CleanStage::FlushChain),
        ],
{
    lemma_clean_takes_absence_for_done(first);
    lemma_clean_of_nothing(second);
}

/// A removal ends at the first failure other than absence, under the name of
/// the operation that made it.
pub proof fn lemma_clean_ends_at_failure(stage: CleanStage, cause: BindingErrorView)
    requires
        !(cause is NotFoundByThatName),
    ensures
        clean_after(stage, Err(cause)) == CleanPlan::Done(
            Err(OperationErrorView { operation: clean_operation(stage), cause }),
        ),
{
}

} // verus!
