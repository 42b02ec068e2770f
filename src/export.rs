//! Text export of an audit report, as Markdown.
use vstd::prelude::*;

use crate::audit::{Audit, audit_fits};
use crate::catalog::Catalog;
use crate::models::{
    AuditRecord, AuditResponse, CategoryScore, CheckStatus, CheckWithStatus, category_label, severity_name,
};
use crate::report::{badge_of, get_report, report_fits};

verus! {

/// One decimal digit.
pub open spec fn digit_text(d: nat) -> Seq<char> {
    if d == 0 {
        "0"@
    } else if d == 1 {
        "1"@
    } else if d == 2 {
        "2"@
    } else if d == 3 {
        "3"@
    } else if d == 4 {
        "4"@
    } else if d == 5 {
        "5"@
    } else if d == 6 {
        "6"@
    } else if d == 7 {
        "7"@
    } else if d == 8 {
        "8"@
    } else {
        "9"@
    }
}

/// Decimal digits of `n`, without leading zeros.
pub open spec fn decimal(n: nat) -> Seq<char>
    decreases n,
{
    if n < 10 {
        digit_text(n)
    } else {
        decimal(n / 10) + digit_text(n % 10)
    }
}

/// Decimal text of a signed number.
pub open spec fn signed_text(n: int) -> Seq<char> {
    if n < 0 { "-"@ + decimal((-n) as nat) } else { decimal(n as nat) }
}

/// A score in hundredths of a percent, written with two decimals.
pub open spec fn score_text(s: nat) -> Seq<char> {
    decimal(s / 100) + "."@ + digit_text((s % 100) / 10) + digit_text(s % 10)
}

/// Label of a check status.
pub open spec fn status_label(s: CheckStatus) -> Seq<char> {
    match s {
        CheckStatus::Passed => "PASSED"@,
        CheckStatus::Failed => "FAILED"@,
        CheckStatus::NotApplicable => "N/A"@,
        CheckStatus::Pending => "PENDING"@,
    }
}

/// Header of the document: audit metadata, and the overall score with its
/// passed and applicable weights.
pub open spec fn header_text(rec: AuditRecord) -> Seq<char> {
    "# Security Audit Report\n\nAudit: "@ + decimal(rec.id as nat) + "\nContract: "@ + decimal(
        rec.contract_id as nat,
    ) + "\nAuditor: "@ + rec.auditor@ + "\nDate (ms since epoch): "@ + signed_text(rec.audit_date as int)
        + "\nOverall score: "@ + score_text(rec.overall_score as nat) + " ("@ + badge_of(
        rec.overall_score as nat,
    ) + "), weight "@ + decimal(rec.overall_earned as nat) + "/"@ + decimal(rec.overall_possible as nat)
        + "\n"@
}

/// One line of the category section.
pub open spec fn category_line(cs: CategoryScore) -> Seq<char> {
    "- "@ + category_label(cs.category) + ": "@ + score_text(cs.score as nat) + ", weight "@ + decimal(
        cs.earned as nat,
    ) + "/"@ + decimal(cs.possible as nat) + " ("@ + decimal(cs.passed as nat)
        + "/"@ + decimal(cs.total as nat) + " passed, "@ + decimal(cs.failed_critical as nat)
        + " critical failed, "@ + decimal(cs.failed_high as nat) + " high failed)\n"@
}

/// The category section's lines.
pub open spec fn category_lines(s: Seq<CategoryScore>) -> Seq<char>
    decreases s.len(),
{
    if s.len() == 0 {
        Seq::empty()
    } else {
        category_lines(s.drop_last()) + category_line(s.last())
    }
}

/// The text of an optional string, as one indented line after `label`.
pub open spec fn optional_line(label: Seq<char>, o: Option<String>) -> Seq<char> {
    match o {
        Some(t) => "  "@ + label + t@ + "\n"@,
        None => Seq::empty(),
    }
}

/// The entry of one check.
pub open spec fn check_entry(c: CheckWithStatus, include_descriptions: bool) -> Seq<char> {
    "- ["@ + status_label(c.status) + "] "@ + c.id@ + ": "@ + c.title@ + " ("@ + severity_name(c.severity)
        + ")\n"@ + optional_line("Evidence: "@, c.evidence) + optional_line("Notes: "@, c.notes)
        + if include_descriptions { "  "@ + c.description@ + "\n"@ } else { Seq::empty() }
}

/// Whether a check is listed.
pub open spec fn listed(c: CheckWithStatus, failures_only: bool) -> bool {
    !failures_only || c.status == CheckStatus::Failed
}

/// The check section's entries.
pub open spec fn check_lines(s: Seq<CheckWithStatus>, include_descriptions: bool, failures_only: bool) -> Seq<char>
    decreases s.len(),
{
    if s.len() == 0 {
        Seq::empty()
    } else {
        check_lines(s.drop_last(), include_descriptions, failures_only) + if listed(s.last(), failures_only) {
            check_entry(s.last(), include_descriptions)
        } else {
            Seq::empty()
        }
    }
}

/// The whole document: header, category section, check section.
pub open spec fn document(r: AuditResponse, include_descriptions: bool, failures_only: bool) -> Seq<char> {
    header_text(r.audit) + "\n## Categories\n\n"@ + category_lines(r.category_scores@) + "\n## Checks\n\n"@
        + check_lines(r.checks@, include_descriptions, failures_only)
}

fn push_digit(out: &mut String, d: u128)
    requires
        d < 10,
    ensures
        final(out)@ == old(out)@ + digit_text(d as nat),
{
    let s = if d == 0 {
        "0"
    } else if d == 1 {
        "1"
    } else if d == 2 {
        "2"
    } else if d == 3 {
        "3"
    } else if d == 4 {
        "4"
    } else if d == 5 {
        "5"
    } else if d == 6 {
        "6"
    } else if d == 7 {
        "7"
    } else if d == 8 {
        "8"
    } else {
        "9"
    };
    out.append(s);
}

/// Appends the decimal digits of `n`.
pub fn push_decimal(out: &mut String, n: u128)
    ensures
        final(out)@ == old(out)@ + decimal(n as nat),
    decreases n,
{
    if n < 10 {
        push_digit(out, n);
    } else {
        push_decimal(out, n / 10);
        push_digit(out, n % 10);
        assert(final(out)@ =~= old(out)@ + decimal(n as nat));
    }
}

fn push_signed(out: &mut String, n: i64)
    ensures
        final(out)@ == old(out)@ + signed_text(n as int),
{
    if n < 0 {
        out.append("-");
        let m: u128 = (-(n as i128)) as u128;
        push_decimal(out, m);
        assert(final(out)@ =~= old(out)@ + signed_text(n as int));
    } else {
        push_decimal(out, n as u128);
    }
}

fn push_score(out: &mut String, s: u64)
    ensures
        final(out)@ == old(out)@ + score_text(s as nat),
{
    let s = s as u128;
    push_decimal(out, s / 100);
    out.append(".");
    push_digit(out, (s % 100) / 10);
    push_digit(out, s % 10);
    assert(final(out)@ =~= old(out)@ + score_text(s as nat));
}

fn push_header(out: &mut String, rec: &AuditRecord)
    ensures
        final(out)@ == old(out)@ + header_text(*rec),
{
    out.append("# Security Audit Report\n\nAudit: ");
    push_decimal(out, rec.id);
    out.append("\nContract: ");
    push_decimal(out, rec.contract_id);
    out.append("\nAuditor: ");
    out.append(rec.auditor.as_str());
    out.append("\nDate (ms since epoch): ");
    push_signed(out, rec.audit_date);
    out.append("\nOverall score: ");
    push_score(out, rec.overall_score);
    out.append(" (");
    let b = crate::report::badge(rec.overall_score);
    out.append(b.as_str());
    out.append("), weight ");
    push_decimal(out, rec.overall_earned);
    out.append("/");
    push_decimal(out, rec.overall_possible);
    out.append("\n");
    assert(final(out)@ =~= old(out)@ + header_text(*rec));
}

fn push_category_line(out: &mut String, cs: &CategoryScore)
    ensures
        final(out)@ == old(out)@ + category_line(*cs),
{
    out.append("- ");
    let label = cs.category.label();
    out.append(label.as_str());
    out.append(": ");
    push_score(out, cs.score);
    out.append(", weight ");
    push_decimal(out, cs.earned);
    out.append("/");
    push_decimal(out, cs.possible);
    out.append(" (");
    push_decimal(out, cs.passed as u128);
    out.append("/");
    push_decimal(out, cs.total as u128);
    out.append(" passed, ");
    push_decimal(out, cs.failed_critical as u128);
    out.append(" critical failed, ");
    push_decimal(out, cs.failed_high as u128);
    out.append(" high failed)\n");
    assert(final(out)@ =~= old(out)@ + category_line(*cs));
}

fn push_optional(out: &mut String, label: &str, o: &Option<String>)
    ensures
        final(out)@ == old(out)@ + optional_line(label@, *o),
{
    match o {
        Some(t) => {
            out.append("  ");
            out.append(label);
            out.append(t.as_str());
            out.append("\n");
            assert(final(out)@ =~= old(out)@ + optional_line(label@, *o));
        },
        None => {
            assert(final(out)@ =~= old(out)@ + optional_line(label@, *o));
        },
    }
}

fn status_text(s: CheckStatus) -> (r: &'static str)
    ensures
        r@ == status_label(s),
{
    match s {
        CheckStatus::Passed => "PASSED",
        CheckStatus::Failed => "FAILED",
        CheckStatus::NotApplicable => "N/A",
        CheckStatus::Pending => "PENDING",
    }
}

fn push_check(out: &mut String, c: &CheckWithStatus, include_descriptions: bool)
    ensures
        final(out)@ == old(out)@ + check_entry(*c, include_descriptions),
{
    out.append("- [");
    out.append(status_text(c.status));
    out.append("] ");
    out.append(c.id.as_str());
    out.append(": ");
    out.append(c.title.as_str());
    out.append(" (");
    let sev = c.severity.name();
    out.append(sev.as_str());
    out.append(")\n");
    push_optional(out, "Evidence: ", &c.evidence);
    push_optional(out, "Notes: ", &c.notes);
    if include_descriptions {
        out.append("  ");
        out.append(c.description.as_str());
        out.append("\n");
    }
    assert(final(out)@ =~= old(out)@ + check_entry(*c, include_descriptions));
}

/// Renders a report as a Markdown document: the header with the overall
/// score, one line per category, then one entry per check, only the failed
/// ones if `failures_only`, with descriptions if `include_descriptions`.
pub fn render_report(r: &AuditResponse, include_descriptions: bool, failures_only: bool) -> (out: String)
    ensures
        out@ == document(*r, include_descriptions, failures_only),
{
    let mut out = String::new();
    push_header(&mut out, &r.audit);
    out.append("\n## Categories\n\n");
    let ghost base = out@;
    let mut i: usize = 0;
    while i < r.category_scores.len()
        invariant
            i <= r.category_scores@.len(),
            out@ == base + category_lines(r.category_scores@.subrange(0, i as int)),
        decreases r.category_scores@.len() - i,
    {
        assert(r.category_scores@.subrange(0, i as int + 1).drop_last() == r.category_scores@.subrange(0, i as int));
        push_category_line(&mut out, &r.category_scores[i]);
        i = i + 1;
        assert(out@ =~= base + category_lines(r.category_scores@.subrange(0, i as int)));
    }
    assert(r.category_scores@.subrange(0, r.category_scores@.len() as int) == r.category_scores@);
    out.append("\n## Checks\n\n");
    let ghost base2 = out@;
    let mut j: usize = 0;
    while j < r.checks.len()
        invariant
            j <= r.checks@.len(),
            out@ == base2 + check_lines(r.checks@.subrange(0, j as int), include_descriptions, failures_only),
        decreases r.checks@.len() - j,
    {
        assert(r.checks@.subrange(0, j as int + 1).drop_last() == r.checks@.subrange(0, j as int));
        let c = &r.checks[j];
        if !failures_only || c.status == CheckStatus::Failed {
            push_check(&mut out, c, include_descriptions);
        }
        j = j + 1;
        assert(out@ =~= base2 + check_lines(r.checks@.subrange(0, j as int), include_descriptions, failures_only));
    }
    assert(r.checks@.subrange(0, r.checks@.len() as int) == r.checks@);
    assert(out@ =~= document(*r, include_descriptions, failures_only));
    out
}

/// Renders an audit as a Markdown document, from its freshly built report.
pub fn export_audit(catalog: &Catalog, audit: &Audit, include_descriptions: bool, failures_only: bool) -> (out: String)
    requires
        audit_fits(*audit, catalog@),
    ensures
        exists|r: AuditResponse| report_fits(r, catalog@, *audit) && out@ == document(r, include_descriptions, failures_only),
{
    let r = get_report(catalog, audit);
    render_report(&r, include_descriptions, failures_only)
}

/// With `failures_only`, a report with no failed check lists no check, yet
/// keeps its header and category section.
pub proof fn lemma_no_failures_lists_nothing(r: AuditResponse, include_descriptions: bool)
    requires
        forall|i: int| 0 <= i < r.checks@.len() ==> (#[trigger] r.checks@[i]).status != CheckStatus::Failed,
    ensures
        check_lines(r.checks@, include_descriptions, true) == Seq::<char>::empty(),
        document(r, include_descriptions, true) == header_text(r.audit) + "\n## Categories\n\n"@ + category_lines(
            r.category_scores@,
        ) + "\n## Checks\n\n"@,
{
    lemma_unlisted_empty(r.checks@, include_descriptions);
    assert(document(r, include_descriptions, true) =~= header_text(r.audit) + "\n## Categories\n\n"@
        + category_lines(r.category_scores@) + "\n## Checks\n\n"@);
}

proof fn lemma_unlisted_empty(s: Seq<CheckWithStatus>, include_descriptions: bool)
    requires
        forall|i: int| 0 <= i < s.len() ==> (#[trigger] s[i]).status != CheckStatus::Failed,
    ensures
        check_lines(s, include_descriptions, true) == Seq::<char>::empty(),
    decreases s.len(),
{
    if s.len() > 0 {
        let d = s.drop_last();
        assert forall|i: int| 0 <= i < d.len() implies (#[trigger] d[i]).status != CheckStatus::Failed by {
            assert(d[i] == s[i]);
        }
        lemma_unlisted_empty(d, include_descriptions);
        assert(s.last() == s[s.len() - 1]);
        assert(check_lines(s, include_descriptions, true) =~= Seq::<char>::empty());
    }
}

} // verus!
