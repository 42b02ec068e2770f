//! The report view: catalog metadata merged with the live state of an audit.
use vstd::prelude::*;

use crate::audit::{Audit, audit_fits, same_record_but_score};
use crate::catalog::Catalog;
use crate::models::{
    AuditCheckRow, AuditRecord, AuditResponse, CheckWithStatus, ChecklistItem, ContractSecuritySummary,
    DetectionMethod, detection_tag, patterns_of,
};
use crate::scoring::{
    category_scores, entries_of, is_score_of, overall_weights, present_categories, record_scored,
    score_entries,
};
use crate::text::{copy_opt, copy_texts};

verus! {

/// `c` joins item `it` with its row `row`.
pub open spec fn merged(c: CheckWithStatus, it: ChecklistItem, row: AuditCheckRow) -> bool {
    &&& c.id@ == it.id@
    &&& c.category == it.category
    &&& c.title@ == it.title@
    &&& c.description@ == it.description@
    &&& c.severity == it.severity
    &&& c.detection_type@ == detection_tag(it.detection)
    &&& c.auto_patterns@ == patterns_of(it.detection)
    &&& c.remediation@ == it.remediation@
    &&& c.references@ == it.references@
    &&& c.status == row.status
    &&& c.notes == row.notes
    &&& c.auto_detected == row.auto_detected
    &&& c.evidence == row.evidence
}

/// Joins a checklist item with its row.
pub fn merge(it: &ChecklistItem, row: &AuditCheckRow) -> (r: CheckWithStatus)
    ensures
        merged(r, *it, *row),
{
    let auto_patterns = match &it.detection {
        DetectionMethod::Automatic { patterns } => copy_texts(patterns),
        DetectionMethod::Manual => Vec::new(),
        DetectionMethod::SemiAutomatic { patterns } => copy_texts(patterns),
    };
    CheckWithStatus {
        id: it.id.clone(),
        category: it.category,
        title: it.title.clone(),
        description: it.description.clone(),
        severity: it.severity,
        detection_type: it.detection.tag(),
        auto_patterns,
        remediation: it.remediation.clone(),
        references: copy_texts(&it.references),
        status: row.status,
        notes: copy_opt(&row.notes),
        auto_detected: row.auto_detected,
        evidence: copy_opt(&row.evidence),
    }
}

/// Number of rows whose state detection set.
pub open spec fn auto_count(rows: Seq<AuditCheckRow>) -> nat
    decreases rows.len(),
{
    if rows.len() == 0 {
        0
    } else {
        auto_count(rows.drop_last()) + if rows.last().auto_detected { 1nat } else { 0nat }
    }
}

/// Counts the rows whose state detection set.
pub fn count_auto_detected(rows: &Vec<AuditCheckRow>) -> (r: usize)
    ensures
        r == auto_count(rows@),
{
    let mut n: usize = 0;
    let mut i: usize = 0;
    while i < rows.len()
        invariant
            i <= rows@.len(),
            n <= i,
            n == auto_count(rows@.subrange(0, i as int)),
        decreases rows@.len() - i,
    {
        assert(rows@.subrange(0, i as int + 1).drop_last() == rows@.subrange(0, i as int));
        if rows[i].auto_detected {
            n = n + 1;
        }
        i = i + 1;
    }
    assert(rows@.subrange(0, rows@.len() as int) == rows@);
    n
}

/// The checks of an audit in catalog order, each joined with its row.
pub fn build_checks(catalog: &Catalog, audit: &Audit) -> (r: Vec<CheckWithStatus>)
    requires
        audit_fits(*audit, catalog@),
    ensures
        r@.len() == catalog@.len(),
        forall|i: int| 0 <= i < r@.len() ==> merged(#[trigger] r@[i], catalog@[i], audit.rows@[i]),
{
    let items = catalog.all_items();
    let mut r: Vec<CheckWithStatus> = Vec::new();
    let mut i: usize = 0;
    while i < items.len()
        invariant
            items@ == catalog@,
            audit_fits(*audit, catalog@),
            i <= items@.len(),
            r@.len() == i,
            forall|j: int| 0 <= j < i ==> merged(#[trigger] r@[j], catalog@[j], audit.rows@[j]),
        decreases items@.len() - i,
    {
        let c = merge(&items[i], &audit.rows[i]);
        r.push(c);
        i = i + 1;
    }
    r
}

/// `r` reports audit `a` over catalog items `items`.
pub open spec fn report_fits(r: AuditResponse, items: Seq<ChecklistItem>, a: Audit) -> bool {
    let e = entries_of(items, a.rows@);
    &&& same_record_but_score(r.audit, a.record)
    &&& record_scored(r.audit, e)
    &&& r.checks@.len() == items.len()
    &&& forall|i: int| 0 <= i < r.checks@.len() ==> merged(#[trigger] r.checks@[i], items[i], a.rows@[i])
    &&& r.category_scores@.len() == present_categories(e).len()
    &&& forall|i: int| 0 <= i < r.category_scores@.len()
        ==> (#[trigger] r.category_scores@[i]).category == present_categories(e)[i]
            && is_score_of(r.category_scores@[i], e)
    &&& r.auto_detected_count == auto_count(a.rows@)
}

/// A copy of an audit record with another overall score.
pub fn record_with_score(rec: &AuditRecord, earned: u128, possible: u128, score: u64) -> (r: AuditRecord)
    ensures
        same_record_but_score(r, *rec),
        r.overall_earned == earned,
        r.overall_possible == possible,
        r.overall_score == score,
{
    AuditRecord {
        id: rec.id,
        contract_id: rec.contract_id,
        contract_source: copy_opt(&rec.contract_source),
        auditor: rec.auditor.clone(),
        audit_date: rec.audit_date,
        overall_earned: earned,
        overall_possible: possible,
        overall_score: score,
        summary: copy_opt(&rec.summary),
        created_at: rec.created_at,
        updated_at: rec.updated_at,
    }
}

/// The report of an audit: every check in catalog order with its state, the
/// scores recomputed from the rows, and the number of detected rows.
pub fn get_report(catalog: &Catalog, audit: &Audit) -> (r: AuditResponse)
    requires
        audit_fits(*audit, catalog@),
    ensures
        report_fits(r, catalog@, *audit),
{
    let items = catalog.all_items();
    let e = score_entries(items, &audit.rows);
    let (earned, possible, score) = overall_weights(&e);
    AuditResponse {
        audit: record_with_score(&audit.record, earned, possible, score),
        checks: build_checks(catalog, audit),
        category_scores: category_scores(&e),
        auto_detected_count: count_auto_detected(&audit.rows),
    }
}

/// Two checks say the same.
pub open spec fn same_check(a: CheckWithStatus, b: CheckWithStatus) -> bool {
    &&& a.id@ == b.id@
    &&& a.category == b.category
    &&& a.title@ == b.title@
    &&& a.description@ == b.description@
    &&& a.severity == b.severity
    &&& a.detection_type@ == b.detection_type@
    &&& a.auto_patterns@ == b.auto_patterns@
    &&& a.remediation@ == b.remediation@
    &&& a.references@ == b.references@
    &&& a.status == b.status
    &&& a.notes == b.notes
    &&& a.auto_detected == b.auto_detected
    &&& a.evidence == b.evidence
}

/// Two reports say the same.
pub open spec fn same_report(a: AuditResponse, b: AuditResponse) -> bool {
    &&& same_record_but_score(a.audit, b.audit)
    &&& a.audit.overall_earned == b.audit.overall_earned
    &&& a.audit.overall_possible == b.audit.overall_possible
    &&& a.audit.overall_score == b.audit.overall_score
    &&& a.checks@.len() == b.checks@.len()
    &&& forall|i: int| 0 <= i < a.checks@.len() ==> same_check(#[trigger] a.checks@[i], b.checks@[i])
    &&& a.category_scores@ == b.category_scores@
    &&& a.auto_detected_count == b.auto_detected_count
}

/// Reading an audit twice, with no change in between, gives the same report:
/// same order, same states, same scores.
pub proof fn lemma_report_deterministic(items: Seq<ChecklistItem>, a: Audit, r1: AuditResponse, r2: AuditResponse)
    requires
        report_fits(r1, items, a),
        report_fits(r2, items, a),
    ensures
        same_report(r1, r2),
{
    assert(r1.category_scores@ =~= r2.category_scores@);
    assert forall|i: int| 0 <= i < r1.checks@.len() implies same_check(#[trigger] r1.checks@[i], r2.checks@[i]) by {
        assert(merged(r1.checks@[i], items[i], a.rows@[i]));
        assert(merged(r2.checks@[i], items[i], a.rows@[i]));
    }
}

/// Letter grade of a score in hundredths of a percent: A from 9000, B from
/// 8000, C from 7000, D from 6000, F below.
pub open spec fn badge_of(score: nat) -> Seq<char> {
    if score >= 9000 {
        "A"@
    } else if score >= 8000 {
        "B"@
    } else if score >= 7000 {
        "C"@
    } else if score >= 6000 {
        "D"@
    } else {
        "F"@
    }
}

/// Rank of a grade, F lowest.
pub open spec fn badge_rank(score: nat) -> nat {
    if score >= 9000 {
        4
    } else if score >= 8000 {
        3
    } else if score >= 7000 {
        2
    } else if score >= 6000 {
        1
    } else {
        0
    }
}

/// A higher score never gets a lower grade.
pub proof fn lemma_badge_monotonic(a: nat, b: nat)
    requires
        a <= b,
    ensures
        badge_rank(a) <= badge_rank(b),
{
}

/// Letter grade of a score.
pub fn badge(score: u64) -> (r: String)
    ensures
        r@ == badge_of(score as nat),
{
    let s = if score >= 9000 {
        "A"
    } else if score >= 8000 {
        "B"
    } else if score >= 7000 {
        "C"
    } else if score >= 6000 {
        "D"
    } else {
        "F"
    };
    String::from_str(s)
}

/// Short summary of an audit for a contract card.
pub fn summarize(rec: &AuditRecord) -> (r: ContractSecuritySummary)
    ensures
        r.audit_id == rec.id,
        r.audit_date == rec.audit_date,
        r.auditor@ == rec.auditor@,
        r.overall_score == rec.overall_score,
        r.score_badge@ == badge_of(rec.overall_score as nat),
{
    ContractSecuritySummary {
        audit_id: rec.id,
        audit_date: rec.audit_date,
        auditor: rec.auditor.clone(),
        overall_score: rec.overall_score,
        score_badge: badge(rec.overall_score),
    }
}

} // verus!
