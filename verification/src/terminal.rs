//! The default human-readable terminal output.

use vstd::prelude::*;

use crate::model::{
    is_failure_status, network_name_text, project_type_name, surface_name, CompatibilityResult,
    Status, Surface,
};
use crate::report::{
    any_failure, any_on_surface, count_status, count_with_status, has_failure, has_surface, heading, overall, surface_heading,
    NetworkSummary, ReportInput, ReportStatus, SkipSummary,
};
use crate::text::{contains_text, decimal, lemma_contains_middle, lemma_contains_middle_pieces, owned, pad_right, push_decimal, push_padded};

verus! {

/// The horizontal rule that frames the report.
pub open spec fn rule_text() -> Seq<char> {
    "────────────────────────────────────────"@
}

fn rule() -> (r: &'static str)
    ensures
        r@ == rule_text(),
{
    "────────────────────────────────────────"
}

/// The badge shown next to a single result.
pub open spec fn badge(s: Status) -> Seq<char> {
    match s {
        Status::Pass => "✓ PASS"@,
        Status::Fail => "❌ FAIL"@,
        Status::Warning => "⚠ WARN"@,
        Status::Error => "‼ ERROR"@,
        Status::Skipped => "− SKIPPED"@,
    }
}

fn status_badge(status: Status) -> (b: &'static str)
    ensures
        b@ == badge(status),
{
    match status {
        Status::Pass => "✓ PASS",
        Status::Fail => "❌ FAIL",
        Status::Warning => "⚠ WARN",
        Status::Error => "‼ ERROR",
        Status::Skipped => "− SKIPPED",
    }
}

/// The headline of the report for an overall status; a failing run reads
/// `NOT READY`.
pub open spec fn decision_text(s: ReportStatus) -> Seq<char> {
    match s {
        ReportStatus::Pass => "PASS"@,
        ReportStatus::Warning => "WARNING"@,
        ReportStatus::Fail => "NOT READY"@,
        ReportStatus::Error => "ERROR"@,
    }
}

fn decision_label(input: &ReportInput) -> (l: &'static str)
    ensures
        l@ == decision_text(overall(input.results@, input.decision)),
{
    match input.overall_status() {
        ReportStatus::Pass => "PASS",
        ReportStatus::Warning => "WARNING",
        ReportStatus::Fail => "NOT READY",
        ReportStatus::Error => "ERROR",
    }
}

/// The network line of the header: the observed protocol, or that it was
/// not observed (with the error, when one is known); nothing for an
/// offline run.
pub open spec fn network_line(n: Option<NetworkSummary>) -> Seq<char> {
    match n {
        None => Seq::empty(),
        Some(net) => match net.observed_protocol {
            Some(p) => "Network: "@ + network_name_text(net.name) + " (observed protocol "@ + decimal(
                p.0 as nat,
            ) + ")\n"@,
            None => match net.error {
                Some(e) => "Network: "@ + network_name_text(net.name) + " (protocol not observed: "@
                    + e@ + ")\n"@,
                None => "Network: "@ + network_name_text(net.name) + " (protocol not observed)\n"@,
            },
        },
    }
}

/// How many results are on surface `s`.
pub open spec fn count_on(rs: Seq<CompatibilityResult>, s: Surface) -> nat
    decreases rs.len(),
{
    if rs.len() == 0 {
        0
    } else {
        count_on(rs.drop_last(), s) + if rs.last().surface == s { 1nat } else { 0nat }
    }
}

/// Whether every result on surface `s` passed.
pub open spec fn all_pass_on(rs: Seq<CompatibilityResult>, s: Surface) -> bool {
    forall|i: int| 0 <= i < rs.len() && (#[trigger] rs[i]).surface == s ==> rs[i].status == Status::Pass
}

/// One line per result on surface `s`: its id left-aligned in 28 columns
/// and its badge.
pub open spec fn result_rows(rs: Seq<CompatibilityResult>, s: Surface) -> Seq<char>
    decreases rs.len(),
{
    if rs.len() == 0 {
        Seq::empty()
    } else {
        result_rows(rs.drop_last(), s) + if rs.last().surface == s {
            "  "@ + pad_right(rs.last().test_id@, 28) + " "@ + badge(rs.last().status) + "\n"@
        } else {
            Seq::empty()
        }
    }
}

/// The block of a surface: its heading, then either the aggregate
/// `n/n PASS` line when everything passed or one line per result, then a
/// blank line; nothing for a surface without results.
pub open spec fn surface_block(rs: Seq<CompatibilityResult>, s: Surface) -> Seq<char> {
    if has_surface(rs, s) {
        heading(s) + "\n"@ + (if all_pass_on(rs, s) {
            "  "@ + decimal(count_on(rs, s)) + "/"@ + decimal(count_on(rs, s)) + " PASS\n"@
        } else {
            result_rows(rs, s)
        }) + "\n"@
    } else {
        Seq::empty()
    }
}

/// The line of one skipped fixture: its id, its surface and the reason.
pub open spec fn skip_line(s: SkipSummary) -> Seq<char> {
    "  "@ + s.fixture_id@ + " ("@ + surface_name(s.surface) + "): "@ + s.reason@ + "\n"@
}

/// One line per skipped fixture, in order.
pub open spec fn skip_lines(ss: Seq<SkipSummary>) -> Seq<char>
    decreases ss.len(),
{
    if ss.len() == 0 {
        Seq::empty()
    } else {
        skip_lines(ss.drop_last()) + skip_line(ss.last())
    }
}

/// The skipped-fixtures block: the count, and with `verbose` the reasons.
pub open spec fn skipped_block(ss: Seq<SkipSummary>, verbose: bool) -> Seq<char> {
    if ss.len() > 0 {
        "Skipped fixtures: "@ + decimal(ss.len()) + "\n"@ + (if verbose {
            skip_lines(ss)
        } else {
            Seq::empty()
        }) + "\n"@
    } else {
        Seq::empty()
    }
}

/// The block of one failing result: its id, summary and details.
pub open spec fn failure_block(r: CompatibilityResult) -> Seq<char> {
    "Failure:\n"@ + r.test_id@ + "\n"@ + "\n"@ + r.summary@ + "\n"@ + match r.details {
        Some(d) => "\n"@ + d@ + "\n"@,
        None => Seq::empty(),
    } + "\n"@
}

/// The blocks of the failing (`Fail` or `Error`) results, in order.
pub open spec fn failure_blocks(rs: Seq<CompatibilityResult>) -> Seq<char>
    decreases rs.len(),
{
    if rs.len() == 0 {
        Seq::empty()
    } else {
        failure_blocks(rs.drop_last()) + if is_failure_status(rs.last().status) {
            failure_block(rs.last())
        } else {
            Seq::empty()
        }
    }
}

/// The head of the terminal report: the title, the project, the target
/// protocol, the network line and a blank line.
pub open spec fn terminal_head(input: ReportInput) -> Seq<char> {
    "Stellar Protocol Canary\n"@ + rule_text() + "\n"@ + "\n"@ + "Project: "@ + input.project.name@
        + " ("@ + project_type_name(input.project.project_type) + ")\n"@ + "Target protocol: "@
        + decimal(input.target_protocol.0 as nat) + "\n"@ + network_line(input.network) + "\n"@
}

/// The foot of the terminal report: the count of passed checks, the
/// status, and the failure blocks when something failed.
pub open spec fn terminal_foot(input: ReportInput) -> Seq<char> {
    let rs = input.results@;
    rule_text() + "\n"@ + "\n"@ + decimal(count_status(rs, Status::Pass)) + "/"@ + decimal(rs.len())
        + " applicable checks passed.\n"@ + "\n"@ + "Status: "@ + decision_text(
        overall(rs, input.decision),
    ) + "\n"@ + (if has_failure(rs) {
        "\n"@ + failure_blocks(rs)
    } else {
        Seq::empty()
    })
}

/// The whole terminal report: the head, the XDR, RPC and Soroban blocks
/// in that order, the skipped block and the foot.
pub open spec fn terminal_text(input: ReportInput) -> Seq<char> {
    let rs = input.results@;
    terminal_head(input) + surface_block(rs, Surface::Xdr) + surface_block(rs, Surface::Rpc)
        + surface_block(rs, Surface::Soroban) + skipped_block(input.skipped@, input.verbose)
        + terminal_foot(input)
}

/// The report opens with its head, whose network line reads
/// `Network: <name> (observed protocol <p>)` when the protocol was
/// observed, `Network: <name> (protocol not observed: <error>)` or
/// `Network: <name> (protocol not observed)` when it was not, and is
/// absent for an offline run.
pub proof fn lemma_report_opens_with_its_head(input: ReportInput)
    ensures
        terminal_head(input).len() <= terminal_text(input).len(),
        terminal_text(input).take(terminal_head(input).len() as int) == terminal_head(input),
        input.network matches Some(n) ==> contains_text(terminal_text(input), network_line(input.network)),
        input.network is None ==> terminal_head(input) == "Stellar Protocol Canary\n"@ + rule_text()
            + "\n"@ + "\n"@ + "Project: "@ + input.project.name@ + " ("@ + project_type_name(
            input.project.project_type,
        ) + ")\n"@ + "Target protocol: "@ + decimal(input.target_protocol.0 as nat) + "\n"@ + "\n"@,
{
    let head = terminal_head(input);
    let rest = terminal_text(input).subrange(head.len() as int, terminal_text(input).len() as int);
    assert(terminal_text(input) =~= head + rest);
    assert(terminal_text(input).take(head.len() as int) =~= head);
    let pre = "Stellar Protocol Canary\n"@ + rule_text() + "\n"@ + "\n"@ + "Project: "@ + input.project.name@
        + " ("@ + project_type_name(input.project.project_type) + ")\n"@ + "Target protocol: "@
        + decimal(input.target_protocol.0 as nat) + "\n"@;
    assert(terminal_text(input) =~= pre + network_line(input.network) + ("\n"@ + rest));
    lemma_contains_middle(pre, network_line(input.network), "\n"@ + rest);
    if input.network is None {
        assert(network_line(input.network) =~= Seq::<char>::empty());
        assert(head =~= pre + "\n"@);
    }
}

/// Each surface has its block in the report, in the fixed order XDR, RPC,
/// Soroban whatever the order of the results: none for a surface without
/// results, `<heading>` and `  n/n PASS` when all `n` of its results
/// passed, and otherwise one row per result of that surface, in input
/// order.
pub proof fn lemma_surface_blocks_in_fixed_order(input: ReportInput, s: Surface)
    ensures
        terminal_text(input) == terminal_head(input) + surface_block(input.results@, Surface::Xdr)
            + surface_block(input.results@, Surface::Rpc) + surface_block(input.results@, Surface::Soroban)
            + skipped_block(input.skipped@, input.verbose) + terminal_foot(input),
        contains_text(terminal_text(input), surface_block(input.results@, s)),
        !has_surface(input.results@, s) ==> surface_block(input.results@, s) == Seq::<char>::empty(),
        has_surface(input.results@, s) && all_pass_on(input.results@, s) ==> surface_block(input.results@, s)
            == heading(s) + "\n"@ + "  "@ + decimal(count_on(input.results@, s)) + "/"@ + decimal(
            count_on(input.results@, s),
        ) + " PASS\n"@ + "\n"@,
        has_surface(input.results@, s) && !all_pass_on(input.results@, s) ==> surface_block(input.results@, s)
            == heading(s) + "\n"@ + result_rows(input.results@, s) + "\n"@,
{
    let rs = input.results@;
    lemma_contains_middle_pieces(
        terminal_head(input),
        surface_block(rs, Surface::Xdr),
        surface_block(rs, Surface::Rpc),
        surface_block(rs, Surface::Soroban),
        skipped_block(input.skipped@, input.verbose),
        terminal_foot(input),
    );
    let n = decimal(count_on(rs, s));
    assert(heading(s) + "\n"@ + ("  "@ + n + "/"@ + n + " PASS\n"@) + "\n"@ =~= heading(s) + "\n"@ + "  "@ + n
        + "/"@ + n + " PASS\n"@ + "\n"@);
}

/// The failure blocks of the given results, one after another.
pub open spec fn blocks_of(rs: Seq<CompatibilityResult>) -> Seq<char>
    decreases rs.len(),
{
    if rs.len() == 0 {
        Seq::empty()
    } else {
        blocks_of(rs.drop_last()) + failure_block(rs.last())
    }
}

/// The failure blocks of a report are those of its failing results (status
/// `Fail` or `Error`), one per such result, in order; no other result has
/// one.
pub proof fn lemma_failure_blocks_are_those_of_failing_results(rs: Seq<CompatibilityResult>)
    ensures
        failure_blocks(rs) == blocks_of(
            rs.filter(|r: CompatibilityResult| r.status == Status::Fail || r.status == Status::Error),
        ),
    decreases rs.len(),
{
    reveal(Seq::filter);
    let pred = |r: CompatibilityResult| r.status == Status::Fail || r.status == Status::Error;
    if rs.len() > 0 {
        lemma_failure_blocks_are_those_of_failing_results(rs.drop_last());
        let f = rs.drop_last().filter(pred);
        if pred(rs.last()) {
            assert(rs.filter(pred) == f.push(rs.last()));
            assert(f.push(rs.last()).drop_last() =~= f);
            assert(blocks_of(f.push(rs.last())) == blocks_of(f) + failure_block(rs.last()));
        } else {
            assert(rs.filter(pred) == f);
            assert(failure_blocks(rs) =~= failure_blocks(rs.drop_last()));
        }
    }
}

proof fn lemma_failure_block_among(rs: Seq<CompatibilityResult>, i: int) -> (parts: (Seq<char>, Seq<char>))
    requires
        0 <= i < rs.len(),
        rs[i].status == Status::Fail || rs[i].status == Status::Error,
    ensures
        failure_blocks(rs) == parts.0 + failure_block(rs[i]) + parts.1,
    decreases rs.len(),
{
    if i == rs.len() - 1 {
        assert(failure_blocks(rs) =~= failure_blocks(rs.drop_last()) + failure_block(rs[i]) + Seq::<char>::empty());
        (failure_blocks(rs.drop_last()), Seq::<char>::empty())
    } else {
        let (pre, post) = lemma_failure_block_among(rs.drop_last(), i);
        assert(rs.drop_last()[i] == rs[i]);
        let last = if is_failure_status(rs.last().status) { failure_block(rs.last()) } else { Seq::<char>::empty() };
        assert(failure_blocks(rs) =~= pre + failure_block(rs[i]) + (post + last));
        (pre, post + last)
    }
}

/// Every result that failed or hit an execution error has its failure
/// block, with its id, summary and details, in the terminal report.
pub proof fn lemma_every_failing_result_is_shown(input: ReportInput, i: int)
    requires
        0 <= i < input.results@.len(),
        input.results@[i].status == Status::Fail || input.results@[i].status == Status::Error,
    ensures
        contains_text(terminal_text(input), failure_block(input.results@[i])),
{
    let rs = input.results@;
    assert(has_failure(rs)) by {
        assert(is_failure_status(rs[i].status));
    }
    let (pre, post) = lemma_failure_block_among(rs, i);
    let body = terminal_head(input) + surface_block(rs, Surface::Xdr) + surface_block(rs, Surface::Rpc)
        + surface_block(rs, Surface::Soroban) + skipped_block(input.skipped@, input.verbose);
    let foot0 = rule_text() + "\n"@ + "\n"@ + decimal(count_status(rs, Status::Pass)) + "/"@ + decimal(rs.len())
        + " applicable checks passed.\n"@ + "\n"@ + "Status: "@ + decision_text(overall(rs, input.decision)) + "\n"@;
    assert(terminal_foot(input) == foot0 + ("\n"@ + failure_blocks(rs)));
    assert(terminal_text(input) == body + terminal_foot(input));
    let block = failure_block(rs[i]);
    assert(terminal_text(input) =~= (body + foot0 + "\n"@ + pre) + block + post);
    lemma_contains_middle(body + foot0 + "\n"@ + pre, block, post);
}

/// The line of the `i`-th skipped fixture occurs among the skip lines.
proof fn lemma_skip_line_among(ss: Seq<SkipSummary>, i: int) -> (parts: (Seq<char>, Seq<char>))
    requires
        0 <= i < ss.len(),
    ensures
        skip_lines(ss) == parts.0 + skip_line(ss[i]) + parts.1,
    decreases ss.len(),
{
    if i == ss.len() - 1 {
        assert(skip_lines(ss) =~= skip_lines(ss.drop_last()) + skip_line(ss[i]) + Seq::<char>::empty());
        (skip_lines(ss.drop_last()), Seq::<char>::empty())
    } else {
        let (pre, post) = lemma_skip_line_among(ss.drop_last(), i);
        assert(ss.drop_last()[i] == ss[i]);
        assert(skip_lines(ss) =~= pre + skip_line(ss[i]) + (post + skip_line(ss.last())));
        (pre, post + skip_line(ss.last()))
    }
}

/// When fixtures were skipped, the report gives their count, and with
/// `verbose` one line per skipped fixture with its id, surface and
/// reason; without `verbose` the skipped block holds the count alone.
pub proof fn lemma_skipped_fixtures_are_reported(input: ReportInput)
    requires
        input.skipped@.len() > 0,
    ensures
        contains_text(terminal_text(input), "Skipped fixtures: "@ + decimal(input.skipped@.len()) + "\n"@),
        input.verbose ==> forall|i: int| 0 <= i < input.skipped@.len() ==> contains_text(
            terminal_text(input),
            #[trigger] skip_line(input.skipped@[i]),
        ),
        !input.verbose ==> skipped_block(input.skipped@, input.verbose) == "Skipped fixtures: "@ + decimal(
            input.skipped@.len(),
        ) + "\n"@ + "\n"@,
{
    let rs = input.results@;
    let ss = input.skipped@;
    let before = terminal_head(input) + surface_block(rs, Surface::Xdr) + surface_block(rs, Surface::Rpc)
        + surface_block(rs, Surface::Soroban);
    let count = "Skipped fixtures: "@ + decimal(ss.len()) + "\n"@;
    let lines = if input.verbose { skip_lines(ss) } else { Seq::<char>::empty() };
    let after = "\n"@ + terminal_foot(input);
    assert(terminal_text(input) =~= before + count + (lines + after));
    lemma_contains_middle(before, count, lines + after);
    if input.verbose {
        assert forall|i: int| 0 <= i < ss.len() implies contains_text(terminal_text(input), #[trigger] skip_line(ss[i])) by {
            let (pre, post) = lemma_skip_line_among(ss, i);
            assert(terminal_text(input) =~= (before + count + pre) + skip_line(ss[i]) + (post + after));
            lemma_contains_middle(before + count + pre, skip_line(ss[i]), post + after);
        }
    } else {
        assert(skipped_block(ss, false) =~= count + "\n"@);
    }
}

fn push_network_line(out: &mut String, n: &Option<NetworkSummary>)
    ensures
        final(out)@ == old(out)@ + network_line(*n),
{
    let ghost start = out@;
    match n {
        None => {},
        Some(net) => {
            out.append("Network: ");
            let name = net.name.to_string();
            out.append(name.as_str());
            match net.observed_protocol {
                Some(p) => {
                    out.append(" (observed protocol ");
                    push_decimal(out, p.0 as u64);
                    out.append(")\n");
                },
                None => match &net.error {
                    Some(e) => {
                        out.append(" (protocol not observed: ");
                        out.append(e.as_str());
                        out.append(")\n");
                    },
                    None => {
                        out.append(" (protocol not observed)\n");
                    },
                },
            }
        },
    }
    assert(out@ =~= start + network_line(*n));
}

fn count_on_surface(results: &Vec<CompatibilityResult>, s: Surface) -> (n: usize)
    ensures
        n == count_on(results@, s),
{
    let mut n: usize = 0;
    let mut i: usize = 0;
    while i < results.len()
        invariant
            i <= results@.len(),
            n == count_on(results@.take(i as int), s),
            n <= i,
        decreases results@.len() - i,
    {
        assert(results@.take(i + 1).drop_last() =~= results@.take(i as int));
        if results[i].surface == s {
            n = n + 1;
        }
        i = i + 1;
    }
    assert(results@.take(i as int) =~= results@);
    n
}

fn all_passed_on(results: &Vec<CompatibilityResult>, s: Surface) -> (b: bool)
    ensures
        b == all_pass_on(results@, s),
{
    let mut i: usize = 0;
    while i < results.len()
        invariant
            i <= results@.len(),
            forall|j: int| 0 <= j < i && (#[trigger] results@[j]).surface == s ==> results@[j].status == Status::Pass,
        decreases results@.len() - i,
    {
        if results[i].surface == s && results[i].status != Status::Pass {
            assert(results@[i as int].surface == s);
            return false;
        }
        i = i + 1;
    }
    true
}

fn push_result_rows(out: &mut String, results: &Vec<CompatibilityResult>, s: Surface)
    ensures
        final(out)@ == old(out)@ + result_rows(results@, s),
{
    let ghost start = out@;
    let mut i: usize = 0;
    assert(start + result_rows(results@.take(0), s) =~= start);
    while i < results.len()
        invariant
            i <= results@.len(),
            out@ == start + result_rows(results@.take(i as int), s),
        decreases results@.len() - i,
    {
        assert(results@.take(i + 1).drop_last() =~= results@.take(i as int));
        assert(results@.take(i + 1).last() == results@[i as int]);
        let r = &results[i];
        if r.surface == s {
            out.append("  ");
            push_padded(out, r.test_id.as_str(), 28);
            out.append(" ");
            out.append(status_badge(r.status));
            out.append("\n");
        }
        assert(out@ =~= start + result_rows(results@.take(i + 1), s));
        i = i + 1;
    }
    assert(results@.take(i as int) =~= results@);
}

fn push_surface_block(out: &mut String, results: &Vec<CompatibilityResult>, s: Surface)
    ensures
        final(out)@ == old(out)@ + surface_block(results@, s),
{
    let ghost start = out@;
    if any_on_surface(results, s) {
        out.append(surface_heading(s));
        out.append("\n");
        let ghost mid = out@;
        if all_passed_on(results, s) {
            let n = count_on_surface(results, s);
            out.append("  ");
            push_decimal(out, n as u64);
            out.append("/");
            push_decimal(out, n as u64);
            out.append(" PASS\n");
        } else {
            push_result_rows(out, results, s);
        }
        out.append("\n");
    }
    assert(out@ =~= start + surface_block(results@, s));
}

fn push_skip_lines(out: &mut String, skipped: &Vec<SkipSummary>)
    ensures
        final(out)@ == old(out)@ + skip_lines(skipped@),
{
    let ghost start = out@;
    let mut i: usize = 0;
    assert(start + skip_lines(skipped@.take(0)) =~= start);
    while i < skipped.len()
        invariant
            i <= skipped@.len(),
            out@ == start + skip_lines(skipped@.take(i as int)),
        decreases skipped@.len() - i,
    {
        assert(skipped@.take(i + 1).drop_last() =~= skipped@.take(i as int));
        assert(skipped@.take(i + 1).last() == skipped@[i as int]);
        let sk = &skipped[i];
        out.append("  ");
        out.append(sk.fixture_id.as_str());
        out.append(" (");
        out.append(sk.surface.as_str());
        out.append("): ");
        out.append(sk.reason.as_str());
        out.append("\n");
        assert(out@ =~= start + skip_lines(skipped@.take(i + 1)));
        i = i + 1;
    }
    assert(skipped@.take(i as int) =~= skipped@);
}

fn push_skipped_block(out: &mut String, skipped: &Vec<SkipSummary>, verbose: bool)
    ensures
        final(out)@ == old(out)@ + skipped_block(skipped@, verbose),
{
    let ghost start = out@;
    if skipped.len() > 0 {
        out.append("Skipped fixtures: ");
        push_decimal(out, skipped.len() as u64);
        out.append("\n");
        let ghost mid = out@;
        if verbose {
            push_skip_lines(out, skipped);
        }
        out.append("\n");
    }
    assert(out@ =~= start + skipped_block(skipped@, verbose));
}

fn push_failure_block(out: &mut String, r: &CompatibilityResult)
    ensures
        final(out)@ == old(out)@ + failure_block(*r),
{
    let ghost start = out@;
    out.append("Failure:\n");
    out.append(r.test_id.as_str());
    out.append("\n");
    out.append("\n");
    out.append(r.summary.as_str());
    out.append("\n");
    match &r.details {
        Some(d) => {
            out.append("\n");
            out.append(d.as_str());
            out.append("\n");
        },
        None => {},
    }
    out.append("\n");
    assert(out@ =~= start + failure_block(*r));
}

fn push_failure_blocks(out: &mut String, results: &Vec<CompatibilityResult>)
    ensures
        final(out)@ == old(out)@ + failure_blocks(results@),
{
    let ghost start = out@;
    let mut i: usize = 0;
    assert(start + failure_blocks(results@.take(0)) =~= start);
    while i < results.len()
        invariant
            i <= results@.len(),
            out@ == start + failure_blocks(results@.take(i as int)),
        decreases results@.len() - i,
    {
        assert(results@.take(i + 1).drop_last() =~= results@.take(i as int));
        assert(results@.take(i + 1).last() == results@[i as int]);
        if results[i].is_required_failure() {
            push_failure_block(out, &results[i]);
        }
        assert(out@ =~= start + failure_blocks(results@.take(i + 1)));
        i = i + 1;
    }
    assert(results@.take(i as int) =~= results@);
}

/// Renders a report as the default terminal report.
pub struct TerminalReporter;

impl TerminalReporter {
    pub fn render(input: &ReportInput) -> (text: String)
        ensures
            text@ == terminal_text(*input),
    {
        let rs = &input.results;
        let mut out = owned("Stellar Protocol Canary\n");
        out.append(rule());
        out.append("\n");
        out.append("\n");
        out.append("Project: ");
        out.append(input.project.name.as_str());
        out.append(" (");
        out.append(input.project.project_type.as_str());
        out.append(")\n");
        out.append("Target protocol: ");
        push_decimal(&mut out, input.target_protocol.0 as u64);
        out.append("\n");
        push_network_line(&mut out, &input.network);
        out.append("\n");
        assert(out@ =~= terminal_head(*input));
        push_surface_block(&mut out, rs, Surface::Xdr);
        push_surface_block(&mut out, rs, Surface::Rpc);
        push_surface_block(&mut out, rs, Surface::Soroban);
        push_skipped_block(&mut out, &input.skipped, input.verbose);
        let ghost body = out@;
        out.append(rule());
        out.append("\n");
        out.append("\n");
        let passed = count_with_status(rs, Status::Pass);
        push_decimal(&mut out, passed as u64);
        out.append("/");
        push_decimal(&mut out, rs.len() as u64);
        out.append(" applicable checks passed.\n");
        out.append("\n");
        out.append("Status: ");
        out.append(decision_label(input));
        out.append("\n");
        assert(out@ =~= body + (rule_text() + "\n"@ + "\n"@ + decimal(count_status(rs@, Status::Pass)) + "/"@
            + decimal(rs@.len()) + " applicable checks passed.\n"@ + "\n"@ + "Status: "@ + decision_text(
            overall(rs@, input.decision),
        ) + "\n"@));
        let ghost before_failures = out@;
        if any_failure(rs) {
            out.append("\n");
            push_failure_blocks(&mut out, rs);
        }
        assert(out@ =~= before_failures + (if has_failure(rs@) {
            "\n"@ + failure_blocks(rs@)
        } else {
            Seq::empty()
        }));
        assert(out@ =~= body + terminal_foot(*input));
        out
    }
}

} // verus!
