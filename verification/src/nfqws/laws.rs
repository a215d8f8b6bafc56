//! What holds of every command line that starts the queue processor.

use crate::nfqws::enums::{FilterMode, Platform};
use crate::nfqws::supervisor::{
    fixed_flags, hostlist_flags, option_flags, options_flags, start_flags,
    FILTER_MODE_PLACEHOLDER,
};
use crate::nfqws::traits::{lemma_render_concat, render};
use crate::text::decimal;
use vstd::prelude::*;

verus! {

/// What the caller's tokens come to on the command line: the tokens of the
/// options that they stand for.
pub open spec fn options_args(
    opts: Seq<Seq<char>>,
    filter_mode: FilterMode,
    platform: Platform,
) -> Seq<Seq<char>> {
    render(options_flags(opts, filter_mode, platform))
}

/// One more token from the caller adds what it stands for behind what the
/// tokens before it came to.
pub proof fn lemma_options_args_push(
    opts: Seq<Seq<char>>,
    opt: Seq<char>,
    filter_mode: FilterMode,
    platform: Platform,
)
    ensures
        options_args(opts.push(opt), filter_mode, platform) == options_args(
            opts,
            filter_mode,
            platform,
        ) + render(option_flags(opt, filter_mode, platform)),
{
    assert(opts.push(opt).drop_last() =~= opts);
    lemma_render_concat(
        options_flags(opts, filter_mode, platform),
        option_flags(opt, filter_mode, platform),
    );
}

/// Tokens are handed through as they are. Where the caller's tokens hold no
/// placeholder, they stand on the command line unchanged and in their order.
pub proof fn lemma_options_are_handed_through(
    opts: Seq<Seq<char>>,
    filter_mode: FilterMode,
    platform: Platform,
)
    requires
        !opts.contains(FILTER_MODE_PLACEHOLDER@),
    ensures
        options_args(opts, filter_mode, platform) == opts,
    decreases opts.len(),
{
    if opts.len() == 0 {
        assert(options_args(opts, filter_mode, platform) =~= opts);
    } else {
        let before = opts.drop_last();
        let opt = opts.last();
        assert(opts =~= before.push(opt));
        assert(opts[opts.len() - 1] == opt);
        assert forall|i: int| 0 <= i < before.len() implies before[i]
            != FILTER_MODE_PLACEHOLDER@ by {
            assert(opts[i] == before[i]);
        }
        lemma_options_are_handed_through(before, filter_mode, platform);
        lemma_options_args_push(before, opt, filter_mode, platform);
        assert(render(option_flags(opt, filter_mode, platform)) =~= seq![opt]) by {
            reveal_with_fuel(render, 2);
        }
    }
}

/// No token that the host lists of a filter mode put on the command line is
/// the placeholder.
proof fn lemma_hostlists_hold_no_placeholder(filter_mode: FilterMode, platform: Platform)
    ensures
        !render(hostlist_flags(filter_mode, platform)).contains(FILTER_MODE_PLACEHOLDER@),
{
    reveal_with_fuel(render, 7);
    reveal_with_fuel(decimal, 2);
    reveal_strlit("<FILTER_MODE>");
    reveal_strlit("--hostlist");
    reveal_strlit("--hostlist-exclude");
    reveal_strlit("--hostlist-auto");
    reveal_strlit("--hostlist-auto-fail-threshold");
    reveal_strlit("--hostlist-auto-fail-time");
    reveal_strlit("--hostlist-auto-retrans-threshold");
    reveal_strlit("/data/adb/zapret-ux/hosts.txt");
    reveal_strlit("/data/adb/zapret-ux/hosts-exclude.txt");
    reveal_strlit("/data/adb/zapret-ux/hosts-auto.txt");
    reveal_strlit("/opt/zapret-ux/hosts.txt");
    reveal_strlit("/opt/zapret-ux/hosts-exclude.txt");
    reveal_strlit("/opt/zapret-ux/hosts-auto.txt");
    let args = render(hostlist_flags(filter_mode, platform));
    assert forall|i: int| 0 <= i < args.len() implies args[i].len() != 13 by {}
    assert(FILTER_MODE_PLACEHOLDER@.len() == 13);
}

/// No token that every start begins with is the placeholder.
proof fn lemma_fixed_flags_hold_no_placeholder(mark_supported: bool)
    ensures
        !render(fixed_flags(mark_supported)).contains(FILTER_MODE_PLACEHOLDER@),
{
    reveal_with_fuel(render, 6);
    reveal_with_fuel(decimal, 3);
    reveal_strlit("<FILTER_MODE>");
    reveal_strlit("--debug");
    reveal_strlit("1");
    reveal_strlit("--daemon");
    reveal_strlit("--qnum");
    reveal_strlit("--uid");
    reveal_strlit("0:0");
    reveal_strlit("--dpi-desync-fwmark");
    reveal_strlit("0x40000000");
    let args = render(fixed_flags(mark_supported));
    assert forall|i: int| 0 <= i < args.len() implies args[i].len() != 13 by {}
    assert(FILTER_MODE_PLACEHOLDER@.len() == 13);
}

proof fn lemma_options_hold_no_placeholder(
    opts: Seq<Seq<char>>,
    filter_mode: FilterMode,
    platform: Platform,
)
    ensures
        !options_args(opts, filter_mode, platform).contains(FILTER_MODE_PLACEHOLDER@),
    decreases opts.len(),
{
    if opts.len() == 0 {
    } else {
        let before = opts.drop_last();
        let opt = opts.last();
        assert(opts =~= before.push(opt));
        lemma_options_hold_no_placeholder(before, filter_mode, platform);
        lemma_options_args_push(before, opt, filter_mode, platform);
        let added = render(option_flags(opt, filter_mode, platform));
        if opt == FILTER_MODE_PLACEHOLDER@ {
            lemma_hostlists_hold_no_placeholder(filter_mode, platform);
        } else {
            assert(added =~= seq![opt]) by {
                reveal_with_fuel(render, 2);
            }
        }
        let args = options_args(before, filter_mode, platform) + added;
        assert forall|i: int| 0 <= i < args.len() implies args[i]
            != FILTER_MODE_PLACEHOLDER@ by {
            if i < options_args(before, filter_mode, platform).len() {
                assert(options_args(before, filter_mode, platform).contains(args[i]));
            } else {
                assert(added.contains(
                    added[i - options_args(before, filter_mode, platform).len()],
                ));
            }
        }
    }
}

/// The placeholder gives way and is never handed through: whatever the caller
/// asks for, no argument of the command line that starts the processor is the
/// placeholder.
pub proof fn lemma_placeholder_gives_way(
    mark_supported: bool,
    opts: Seq<Seq<char>>,
    filter_mode: FilterMode,
    platform: Platform,
)
    ensures
        !render(start_flags(mark_supported, opts, filter_mode, platform)).contains(
            FILTER_MODE_PLACEHOLDER@,
        ),
{
    lemma_fixed_flags_hold_no_placeholder(mark_supported);
    lemma_options_hold_no_placeholder(opts, filter_mode, platform);
    lemma_render_concat(fixed_flags(mark_supported), options_flags(opts, filter_mode, platform));
    let fixed = render(fixed_flags(mark_supported));
    let given = options_args(opts, filter_mode, platform);
    let args = fixed + given;
    assert forall|i: int| 0 <= i < args.len() implies args[i] != FILTER_MODE_PLACEHOLDER@ by {
        if i < fixed.len() {
            assert(fixed.contains(args[i]));
        } else {
            assert(given.contains(given[i - fixed.len()]));
        }
    }
}

/// Without a filter the placeholder stands for nothing: it leaves no trace on
/// the command line.
pub proof fn lemma_no_filter_no_host_lists(platform: Platform)
    ensures
        render(option_flags(FILTER_MODE_PLACEHOLDER@, FilterMode::Disabled, platform))
            == Seq::<Seq<char>>::empty(),
{
}

/// Every start begins with the same options, whatever the caller asks for.
pub proof fn lemma_start_begins_with_the_fixed_options(
    mark_supported: bool,
    opts: Seq<Seq<char>>,
    filter_mode: FilterMode,
    platform: Platform,
)
    ensures
        render(start_flags(mark_supported, opts, filter_mode, platform)) == render(
            fixed_flags(mark_supported),
        ) + options_args(opts, filter_mode, platform),
{
    lemma_render_concat(fixed_flags(mark_supported), options_flags(opts, filter_mode, platform));
}

} // verus!
