//! The argument list of the queue processor read back into options: that the
//! order of the arguments is the order of the calls.

use crate::nfqws::traits::{lemma_render_concat, render, Flag};
use crate::text::{decimal, decimal_value, lemma_decimal_value};
use vstd::prelude::*;

verus! {

/// The token is the decimal rendering of a number up to `max`.
pub open spec fn is_number(token: Seq<char>, max: nat) -> bool {
    decimal_value(token) <= max && decimal(decimal_value(token)) == token
}

/// The option that an argument list begins with; none where it begins with
/// none of the options that have a name.
pub open spec fn first_flag(args: Seq<Seq<char>>) -> Option<Flag> {
    if args.len() >= 1 && args[0] == "--daemon"@ {
        Some(Flag::Daemon)
    } else if args.len() < 2 {
        None
    } else if args[0] == "--debug"@ {
        Some(Flag::Debug(args[1]))
    } else if args[0] == "--qnum"@ && is_number(args[1], u16::MAX as nat) {
        Some(Flag::Qnum(decimal_value(args[1]) as u16))
    } else if args[0] == "--uid"@ {
        Some(Flag::Uid(args[1]))
    } else if args[0] == "--dpi-desync-fwmark"@ {
        Some(Flag::DpiDesyncFwmark(args[1]))
    } else if args[0] == "--hostlist"@ {
        Some(Flag::Hostlist(args[1]))
    } else if args[0] == "--hostlist-exclude"@ {
        Some(Flag::HostlistExclude(args[1]))
    } else if args[0] == "--hostlist-auto"@ {
        Some(Flag::HostlistAuto(args[1]))
    } else if args[0] == "--hostlist-auto-fail-threshold"@ && is_number(args[1], u32::MAX as nat) {
        Some(Flag::HostlistAutoFailThreshold(decimal_value(args[1]) as u32))
    } else if args[0] == "--hostlist-auto-fail-time"@ && is_number(args[1], u32::MAX as nat) {
        Some(Flag::HostlistAutoFailTime(decimal_value(args[1]) as u32))
    } else if args[0] == "--hostlist-auto-retrans-threshold"@ && is_number(
        args[1],
        u32::MAX as nat,
    ) {
        Some(Flag::HostlistAutoRetransThreshold(decimal_value(args[1]) as u32))
    } else {
        None
    }
}

/// The named options that an argument list is made of, read from its start;
/// none where it is not made of them.
pub open spec fn flags_of(args: Seq<Seq<char>>) -> Option<Seq<Flag>>
    decreases args.len(),
{
    if args.len() == 0 {
        Some(Seq::empty())
    } else {
        match first_flag(args) {
            None => None,
            Some(flag) => {
                let taken = flag.tokens().len();
                if 0 < taken <= args.len() {
                    match flags_of(args.skip(taken as int)) {
                        None => None,
                        Some(rest) => Some(seq![flag] + rest),
                    }
                } else {
                    None
                }
            },
        }
    }
}

/// No two names of options are the same token: they differ in their length.
proof fn lemma_names_differ()
    ensures
        "--debug"@.len() == 7,
        "--daemon"@.len() == 8,
        "--qnum"@.len() == 6,
        "--uid"@.len() == 5,
        "--dpi-desync-fwmark"@.len() == 19,
        "--hostlist"@.len() == 10,
        "--hostlist-exclude"@.len() == 18,
        "--hostlist-auto"@.len() == 15,
        "--hostlist-auto-fail-threshold"@.len() == 30,
        "--hostlist-auto-fail-time"@.len() == 25,
        "--hostlist-auto-retrans-threshold"@.len() == 33,
{
    reveal_strlit("--debug");
    reveal_strlit("--daemon");
    reveal_strlit("--qnum");
    reveal_strlit("--uid");
    reveal_strlit("--dpi-desync-fwmark");
    reveal_strlit("--hostlist");
    reveal_strlit("--hostlist-exclude");
    reveal_strlit("--hostlist-auto");
    reveal_strlit("--hostlist-auto-fail-threshold");
    reveal_strlit("--hostlist-auto-fail-time");
    reveal_strlit("--hostlist-auto-retrans-threshold");
}

/// An argument list that starts with the tokens of a named option is read as
/// starting with that option, whatever follows.
pub proof fn lemma_first_flag(flag: Flag, rest: Seq<Seq<char>>)
    requires
        !(flag is Custom),
    ensures
        first_flag(flag.tokens() + rest) == Some(flag),
{
    lemma_names_differ();
    let args = flag.tokens() + rest;
    assert(args[0] == flag.tokens()[0]);
    match flag {
        Flag::Daemon => {},
        Flag::Qnum(value) => {
            lemma_decimal_value(value as nat);
            assert(args[1] == decimal(value as nat));
        },
        Flag::HostlistAutoFailThreshold(value) => {
            lemma_decimal_value(value as nat);
            assert(args[1] == decimal(value as nat));
        },
        Flag::HostlistAutoFailTime(value) => {
            lemma_decimal_value(value as nat);
            assert(args[1] == decimal(value as nat));
        },
        Flag::HostlistAutoRetransThreshold(value) => {
            lemma_decimal_value(value as nat);
            assert(args[1] == decimal(value as nat));
        },
        _ => {
            assert(args[1] == flag.tokens()[1]);
        },
    }
}

/// The order of the arguments is the order of the calls. The argument list
/// that a sequence of calls of the named appenders leaves can be read back in
/// one way only, and gives the calls, each with what it was given, in the order
/// in which they were made. Tokens handed through as they are stand in the
/// list where the call put them, but cannot be told from options: sequences
/// with such a call are left out here.
pub proof fn lemma_arguments_give_back_the_calls(flags: Seq<Flag>)
    requires
        forall|i: int| 0 <= i < flags.len() ==> !(#[trigger] flags[i] is Custom),
    ensures
        flags_of(render(flags)) == Some(flags),
    decreases flags.len(),
{
    if flags.len() == 0 {
    } else {
        let first = flags[0];
        let rest = flags.drop_first();
        assert(flags =~= seq![first] + rest);
        lemma_render_concat(seq![first], rest);
        assert(render(seq![first]) =~= first.tokens()) by {
            reveal_with_fuel(render, 2);
        }
        let args = render(flags);
        assert(args == first.tokens() + render(rest));
        lemma_first_flag(first, render(rest));
        assert(args.skip(first.tokens().len() as int) =~= render(rest));
        assert forall|i: int| 0 <= i < rest.len() implies !(#[trigger] rest[i] is Custom) by {
            assert(rest[i] == flags[i + 1]);
        }
        lemma_arguments_give_back_the_calls(rest);
    }
}

} // verus!
