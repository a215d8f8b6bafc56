//! The argument list of the rule tool read back into clauses: that the order
//! of the arguments is the order of the calls.

use crate::iptables::traits::{lemma_render_concat, render, Clause};
use crate::text::{decimal, decimal_value, lemma_decimal_value};
use vstd::prelude::*;

verus! {

/// The clause that a flag makes of the value behind it; none where the token
/// is no flag that takes a value.
pub open spec fn valued_clause(flag: Seq<char>, value: Seq<char>) -> Option<Clause> {
    if flag == "--match"@ {
        Some(Clause::Module(value))
    } else if flag == "--insert"@ {
        Some(Clause::Insert(value))
    } else if flag == "--new"@ {
        Some(Clause::NewChain(value))
    } else if flag == "--delete-chain"@ {
        Some(Clause::DeleteChain(value))
    } else if flag == "--delete"@ {
        Some(Clause::Delete(value))
    } else if flag == "--flush"@ {
        Some(Clause::Flush(value))
    } else if flag == "--table"@ {
        Some(Clause::Table(value))
    } else if flag == "--protocol"@ {
        Some(Clause::Protocol(value))
    } else if flag == "--jump"@ {
        Some(Clause::Jump(value))
    } else if flag == "--dport"@ {
        Some(Clause::Dport(value))
    } else if flag == "--mark"@ {
        Some(Clause::Mark { value, negated: false })
    } else if flag == "--connbytes"@ {
        Some(Clause::Connbytes { value, negated: false })
    } else if flag == "--connbytes-dir"@ {
        Some(Clause::ConnbytesDir(value))
    } else if flag == "--connbytes-mode"@ {
        Some(Clause::ConnbytesMode(value))
    } else if flag == "--queue-num"@ && decimal_value(value) <= u16::MAX && decimal(
        decimal_value(value),
    ) == value {
        Some(Clause::QueueNum(decimal_value(value) as u16))
    } else {
        None
    }
}

/// The clause that a negated flag makes of the value behind it; none where the
/// flag cannot be negated.
pub open spec fn negated_clause(flag: Seq<char>, value: Seq<char>) -> Option<Clause> {
    if flag == "--mark"@ {
        Some(Clause::Mark { value, negated: true })
    } else if flag == "--connbytes"@ {
        Some(Clause::Connbytes { value, negated: true })
    } else {
        None
    }
}

/// The clause that an argument list begins with; none where it begins with no
/// clause.
pub open spec fn first_clause(args: Seq<Seq<char>>) -> Option<Clause> {
    if args.len() >= 1 && args[0] == "--queue-bypass"@ {
        Some(Clause::QueueBypass)
    } else if args.len() >= 3 && args[0] == "!"@ {
        negated_clause(args[1], args[2])
    } else if args.len() >= 2 {
        valued_clause(args[0], args[1])
    } else {
        None
    }
}

/// The clauses that an argument list is made of, read from its start; none
/// where it is not made of clauses.
pub open spec fn clauses_of(args: Seq<Seq<char>>) -> Option<Seq<Clause>>
    decreases args.len(),
{
    if args.len() == 0 {
        Some(Seq::empty())
    } else {
        match first_clause(args) {
            None => None,
            Some(clause) => {
                let taken = clause.tokens().len();
                if 0 < taken <= args.len() {
                    match clauses_of(args.skip(taken as int)) {
                        None => None,
                        Some(rest) => Some(seq![clause] + rest),
                    }
                } else {
                    None
                }
            },
        }
    }
}

/// No two flags of the rule tool are the same token: they differ in their
/// length or in their third character.
proof fn lemma_flags_differ()
    ensures
        "!"@.len() == 1,
        "--match"@.len() == 7 && "--match"@[2] == 'm',
        "--insert"@.len() == 8 && "--insert"@[2] == 'i',
        "--new"@.len() == 5 && "--new"@[2] == 'n',
        "--delete-chain"@.len() == 14 && "--delete-chain"@[2] == 'd',
        "--delete"@.len() == 8 && "--delete"@[2] == 'd',
        "--flush"@.len() == 7 && "--flush"@[2] == 'f',
        "--table"@.len() == 7 && "--table"@[2] == 't',
        "--protocol"@.len() == 10 && "--protocol"@[2] == 'p',
        "--jump"@.len() == 6 && "--jump"@[2] == 'j',
        "--dport"@.len() == 7 && "--dport"@[2] == 'd',
        "--mark"@.len() == 6 && "--mark"@[2] == 'm',
        "--connbytes"@.len() == 11 && "--connbytes"@[2] == 'c',
        "--connbytes-dir"@.len() == 15 && "--connbytes-dir"@[2] == 'c',
        "--connbytes-mode"@.len() == 16 && "--connbytes-mode"@[2] == 'c',
        "--queue-num"@.len() == 11 && "--queue-num"@[2] == 'q',
        "--queue-bypass"@.len() == 14 && "--queue-bypass"@[2] == 'q',
{
    reveal_strlit("!");
    reveal_strlit("--match");
    reveal_strlit("--insert");
    reveal_strlit("--new");
    reveal_strlit("--delete-chain");
    reveal_strlit("--delete");
    reveal_strlit("--flush");
    reveal_strlit("--table");
    reveal_strlit("--protocol");
    reveal_strlit("--jump");
    reveal_strlit("--dport");
    reveal_strlit("--mark");
    reveal_strlit("--connbytes");
    reveal_strlit("--connbytes-dir");
    reveal_strlit("--connbytes-mode");
    reveal_strlit("--queue-num");
    reveal_strlit("--queue-bypass");
}

/// An argument list that starts with the tokens of a clause is read as
/// starting with that clause, whatever follows.
pub proof fn lemma_first_clause(clause: Clause, rest: Seq<Seq<char>>)
    ensures
        first_clause(clause.tokens() + rest) == Some(clause),
{
    lemma_flags_differ();
    let args = clause.tokens() + rest;
    match clause {
        Clause::QueueNum(value) => {
            lemma_decimal_value(value as nat);
            assert(args[0] == "--queue-num"@);
            assert(args[1] == decimal(value as nat));
        },
        Clause::QueueBypass => {
            assert(args[0] == "--queue-bypass"@);
        },
        Clause::Mark { value, negated } => {
            if negated {
                assert(args[0] == "!"@ && args[1] == "--mark"@ && args[2] == value);
            } else {
                assert(args[0] == "--mark"@ && args[1] == value);
            }
        },
        Clause::Connbytes { value, negated } => {
            if negated {
                assert(args[0] == "!"@ && args[1] == "--connbytes"@ && args[2] == value);
            } else {
                assert(args[0] == "--connbytes"@ && args[1] == value);
            }
        },
        _ => {
            assert(args[0] == clause.tokens()[0]);
            assert(args[1] == clause.tokens()[1]);
        },
    }
}

/// The order of the arguments is the order of the calls. The argument list
/// that a sequence of appender calls leaves can be read back in one way only,
/// and gives the calls, each with what it was given, in the order in which they
/// were made.
pub proof fn lemma_arguments_give_back_the_calls(clauses: Seq<Clause>)
    ensures
        clauses_of(render(clauses)) == Some(clauses),
    decreases clauses.len(),
{
    if clauses.len() == 0 {
    } else {
        let first = clauses[0];
        let rest = clauses.drop_first();
        assert(clauses =~= seq![first] + rest);
        lemma_render_concat(seq![first], rest);
        assert(render(seq![first]) =~= first.tokens()) by {
            reveal_with_fuel(render, 2);
        }
        let args = render(clauses);
        assert(args == first.tokens() + render(rest));
        lemma_first_clause(first, render(rest));
        assert(args.skip(first.tokens().len() as int) =~= render(rest));
        lemma_arguments_give_back_the_calls(rest);
    }
}

/// Two sequences of calls that leave the same argument list are the same
/// sequence.
pub proof fn lemma_calls_are_told_apart(first: Seq<Clause>, second: Seq<Clause>)
    requires
        render(first) == render(second),
    ensures
        first == second,
{
    lemma_arguments_give_back_the_calls(first);
    lemma_arguments_give_back_the_calls(second);
}

} // verus!
