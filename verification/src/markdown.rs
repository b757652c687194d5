//! GitHub-friendly Markdown output, suitable for a job summary.

use vstd::prelude::*;

use crate::model::{is_failure_status, surface_name, CompatibilityResult, Status, Surface};
use crate::report::{
    any_failure, any_on_surface, any_status_on, has_failure, has_status_on, has_surface, heading,
    overall, report_status_upper, surface_heading, ReportInput, SkipSummary,
};
use crate::text::{bullets, contains_text, decimal, lemma_contains_middle, lines_of, owned, push_decimal, push_line_bullets};

verus! {

/// The table cell of a surface: the worst status among its results, by
/// precedence error, then fail, then warning, else pass.
pub open spec fn cell_text(rs: Seq<CompatibilityResult>, s: Surface) -> Seq<char> {
    if has_status_on(rs, s, Status::Error) {
        "‼️ Error"@
    } else if has_status_on(rs, s, Status::Fail) {
        "❌ Fail"@
    } else if has_status_on(rs, s, Status::Warning) {
        "⚠️ Warning"@
    } else {
        "✅ Pass"@
    }
}

/// The table row of a surface, or nothing when it has no results.
pub open spec fn table_row(rs: Seq<CompatibilityResult>, s: Surface) -> Seq<char> {
    if has_surface(rs, s) {
        "| "@ + heading(s) + " | "@ + cell_text(rs, s) + " |\n"@
    } else {
        Seq::empty()
    }
}

/// One entry of the failures section: a blank line, the test id in bold
/// with its summary, then each line of the details as a nested bullet.
pub open spec fn failure_item(r: CompatibilityResult) -> Seq<char> {
    "\n"@ + "- **"@ + r.test_id@ + "**: "@ + r.summary@ + "\n"@ + match r.details {
        Some(d) => bullets(lines_of(d@)),
        None => Seq::empty(),
    }
}

/// The entries for the failing (`Fail` or `Error`) results, in order.
pub open spec fn failure_items(rs: Seq<CompatibilityResult>) -> Seq<char>
    decreases rs.len(),
{
    if rs.len() == 0 {
        Seq::empty()
    } else {
        failure_items(rs.drop_last()) + if is_failure_status(rs.last().status) {
            failure_item(rs.last())
        } else {
            Seq::empty()
        }
    }
}

/// One bullet per skipped fixture: its id, surface and reason.
pub open spec fn skip_reason_items(skipped: Seq<SkipSummary>) -> Seq<char>
    decreases skipped.len(),
{
    if skipped.len() == 0 {
        Seq::empty()
    } else {
        let k = skipped.last();
        skip_reason_items(skipped.drop_last()) + "- "@ + k.fixture_id@ + " ("@ + surface_name(k.surface) + "): "@
            + k.reason@ + "\n"@
    }
}

/// The note on skipped fixtures: their number, and in a verbose report
/// why each was skipped; nothing when none was.
pub open spec fn skipped_note(skipped: Seq<SkipSummary>, verbose: bool) -> Seq<char> {
    if skipped.len() > 0 {
        "\n"@ + "Skipped "@ + decimal(skipped.len() as nat) + " fixture(s).\n"@ + if verbose {
            skip_reason_items(skipped)
        } else {
            Seq::empty()
        }
    } else {
        Seq::empty()
    }
}

/// The whole Markdown report.
pub open spec fn markdown_text(input: ReportInput) -> Seq<char> {
    let rs = input.results@;
    "## Stellar Protocol Canary\n"@ + "\n"@ + "Protocol "@ + decimal(input.target_protocol.0 as nat)
        + " compatibility\n"@ + "\n"@ + "| Surface | Result |\n"@ + "|---|---|\n"@ + table_row(
        rs,
        Surface::Xdr,
    ) + table_row(rs, Surface::Rpc) + table_row(rs, Surface::Soroban) + "\n"@ + "**Result: "@
        + report_status_upper(overall(rs, input.decision)) + "**\n"@ + (if has_failure(rs) {
        "\n"@ + "### Failures\n"@ + failure_items(rs)
    } else {
        Seq::empty()
    }) + skipped_note(input.skipped@, input.verbose)
}

fn cell(results: &Vec<CompatibilityResult>, s: Surface) -> (c: &'static str)
    ensures
        c@ == cell_text(results@, s),
{
    if any_status_on(results, s, Status::Error) {
        "‼️ Error"
    } else if any_status_on(results, s, Status::Fail) {
        "❌ Fail"
    } else if any_status_on(results, s, Status::Warning) {
        "⚠️ Warning"
    } else {
        "✅ Pass"
    }
}

fn push_table_row(out: &mut String, results: &Vec<CompatibilityResult>, s: Surface)
    ensures
        final(out)@ == old(out)@ + table_row(results@, s),
{
    let ghost start = out@;
    if any_on_surface(results, s) {
        out.append("| ");
        out.append(surface_heading(s));
        out.append(" | ");
        out.append(cell(results, s));
        out.append(" |\n");
        assert(out@ =~= start + table_row(results@, s));
    } else {
        assert(out@ =~= start + table_row(results@, s));
    }
}

fn push_failure_item(out: &mut String, r: &CompatibilityResult)
    ensures
        final(out)@ == old(out)@ + failure_item(*r),
{
    let ghost start = out@;
    out.append("\n");
    out.append("- **");
    out.append(r.test_id.as_str());
    out.append("**: ");
    out.append(r.summary.as_str());
    out.append("\n");
    let ghost mid = out@;
    match &r.details {
        Some(d) => {
            push_line_bullets(out, d.as_str());
        },
        None => {},
    }
    assert(out@ =~= start + failure_item(*r));
}

fn push_failure_items(out: &mut String, results: &Vec<CompatibilityResult>)
    ensures
        final(out)@ == old(out)@ + failure_items(results@),
{
    let ghost start = out@;
    let mut i: usize = 0;
    assert(results@.take(0) =~= Seq::<CompatibilityResult>::empty());
    assert(start + failure_items(results@.take(0)) =~= start);
    while i < results.len()
        invariant
            i <= results@.len(),
            out@ == start + failure_items(results@.take(i as int)),
        decreases results@.len() - i,
    {
        let ghost before = out@;
        assert(results@.take(i + 1).drop_last() =~= results@.take(i as int));
        assert(results@.take(i + 1).last() == results@[i as int]);
        if results[i].is_required_failure() {
            push_failure_item(out, &results[i]);
        }
        assert(out@ =~= start + failure_items(results@.take(i + 1)));
        i = i + 1;
    }
    assert(results@.take(i as int) =~= results@);
}

fn push_skip_reasons(out: &mut String, skipped: &Vec<SkipSummary>)
    ensures
        final(out)@ == old(out)@ + skip_reason_items(skipped@),
{
    let ghost start = out@;
    let mut i: usize = 0;
    while i < skipped.len()
        invariant
            i <= skipped@.len(),
            out@ == start + skip_reason_items(skipped@.take(i as int)),
        decreases skipped@.len() - i,
    {
        proof {
            assert(skipped@.take(i + 1).drop_last() =~= skipped@.take(i as int));
        }
        let k = &skipped[i];
        out.append("- ");
        out.append(k.fixture_id.as_str());
        out.append(" (");
        out.append(k.surface.as_str());
        out.append("): ");
        out.append(k.reason.as_str());
        out.append("\n");
        i = i + 1;
    }
    proof {
        assert(skipped@.take(i as int) =~= skipped@);
    }
}

/// Renders a report as Markdown suitable for a GitHub job summary.
pub struct MarkdownReporter;

impl MarkdownReporter {
    pub fn render(input: &ReportInput) -> (text: String)
        ensures
            text@ == markdown_text(*input),
    {
        let rs = &input.results;
        let mut out = owned("## Stellar Protocol Canary\n");
        out.append("\n");
        out.append("Protocol ");
        push_decimal(&mut out, input.target_protocol.0 as u64);
        out.append(" compatibility\n");
        out.append("\n");
        out.append("| Surface | Result |\n");
        out.append("|---|---|\n");
        push_table_row(&mut out, rs, Surface::Xdr);
        push_table_row(&mut out, rs, Surface::Rpc);
        push_table_row(&mut out, rs, Surface::Soroban);
        out.append("\n");
        out.append("**Result: ");
        out.append(input.overall_status().as_upper_str());
        out.append("**\n");
        let ghost before_failures = out@;
        if any_failure(rs) {
            out.append("\n");
            out.append("### Failures\n");
            push_failure_items(&mut out, rs);
        }
        assert(out@ =~= before_failures + (if has_failure(rs@) {
            "\n"@ + "### Failures\n"@ + failure_items(rs@)
        } else {
            Seq::empty()
        }));
        let ghost before_skipped = out@;
        if input.skipped.len() > 0 {
            out.append("\n");
            out.append("Skipped ");
            push_decimal(&mut out, input.skipped.len() as u64);
            out.append(" fixture(s).\n");
            if input.verbose {
                push_skip_reasons(&mut out, &input.skipped);
            }
        }
        assert(out@ =~= before_skipped + skipped_note(input.skipped@, input.verbose));
        out
    }
}

/// The failure entries of the given results, one after another.
pub open spec fn items_of(rs: Seq<CompatibilityResult>) -> Seq<char>
    decreases rs.len(),
{
    if rs.len() == 0 {
        Seq::empty()
    } else {
        items_of(rs.drop_last()) + failure_item(rs.last())
    }
}

/// The failures section of a Markdown report lists exactly the failing
/// results (status `Fail` or `Error`), one entry each, in order.
pub proof fn lemma_failure_items_are_those_of_failing_results(rs: Seq<CompatibilityResult>)
    ensures
        failure_items(rs) == items_of(
            rs.filter(|r: CompatibilityResult| r.status == Status::Fail || r.status == Status::Error),
        ),
    decreases rs.len(),
{
    reveal(Seq::filter);
    let pred = |r: CompatibilityResult| r.status == Status::Fail || r.status == Status::Error;
    if rs.len() > 0 {
        lemma_failure_items_are_those_of_failing_results(rs.drop_last());
        let f = rs.drop_last().filter(pred);
        if pred(rs.last()) {
            assert(rs.filter(pred) == f.push(rs.last()));
            assert(f.push(rs.last()).drop_last() =~= f);
            assert(items_of(f.push(rs.last())) == items_of(f) + failure_item(rs.last()));
        } else {
            assert(rs.filter(pred) == f);
            assert(failure_items(rs) =~= failure_items(rs.drop_last()));
        }
    }
}

proof fn lemma_failure_item_among(rs: Seq<CompatibilityResult>, i: int) -> (parts: (Seq<char>, Seq<char>))
    requires
        0 <= i < rs.len(),
        rs[i].status == Status::Fail || rs[i].status == Status::Error,
    ensures
        failure_items(rs) == parts.0 + failure_item(rs[i]) + parts.1,
    decreases rs.len(),
{
    if i == rs.len() - 1 {
        assert(failure_items(rs) =~= failure_items(rs.drop_last()) + failure_item(rs[i]) + Seq::<char>::empty());
        (failure_items(rs.drop_last()), Seq::<char>::empty())
    } else {
        let (pre, post) = lemma_failure_item_among(rs.drop_last(), i);
        assert(rs.drop_last()[i] == rs[i]);
        let last = if is_failure_status(rs.last().status) { failure_item(rs.last()) } else { Seq::<char>::empty() };
        assert(failure_items(rs) =~= pre + failure_item(rs[i]) + (post + last));
        (pre, post + last)
    }
}

/// Every result that failed or hit an execution error has its entry, with
/// its id, summary and details, in the Markdown report.
pub proof fn lemma_every_failing_result_is_listed(input: ReportInput, i: int)
    requires
        0 <= i < input.results@.len(),
        input.results@[i].status == Status::Fail || input.results@[i].status == Status::Error,
    ensures
        contains_text(markdown_text(input), failure_item(input.results@[i])),
{
    let rs = input.results@;
    assert(has_failure(rs)) by {
        assert(is_failure_status(rs[i].status));
    }
    let (pre, post) = lemma_failure_item_among(rs, i);
    let head = "## Stellar Protocol Canary\n"@ + "\n"@ + "Protocol "@ + decimal(input.target_protocol.0 as nat)
        + " compatibility\n"@ + "\n"@ + "| Surface | Result |\n"@ + "|---|---|\n"@ + table_row(rs, Surface::Xdr)
        + table_row(rs, Surface::Rpc) + table_row(rs, Surface::Soroban) + "\n"@ + "**Result: "@
        + report_status_upper(overall(rs, input.decision)) + "**\n"@;
    let note = skipped_note(input.skipped@, input.verbose);
    assert(markdown_text(input) == head + ("\n"@ + "### Failures\n"@ + failure_items(rs)) + note);
    let item = failure_item(rs[i]);
    assert(markdown_text(input) =~= (head + "\n"@ + "### Failures\n"@ + pre) + item + (post + note));
    lemma_contains_middle(head + "\n"@ + "### Failures\n"@ + pre, item, post + note);
}

} // verus!
