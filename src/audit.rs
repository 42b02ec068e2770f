//! Audit sessions: creation with pattern detection, and manual updates.
use vstd::prelude::*;

use crate::catalog::{Catalog, position_of};
use crate::detection::{DetectionOutcome, detect_item, detect_spec};
use crate::models::{
    AuditCheckRow, AuditRecord, CheckStatus, ChecklistItem, CheckWithStatus, DetectionMethod,
};
use crate::report::{merge, merged};
use crate::scoring::{entries_of, overall_weights, record_scored, score_entries};
use crate::text::{copy_opt, opt_text, same_text};

verus! {

/// Why an audit operation was refused.
#[derive(Debug, Clone, Copy, PartialEq, Eq, Structural)]
pub enum AuditError {
    /// No check with the given id.
    NotFound,
    /// The auditor is empty.
    InvalidInput,
    /// The stored rows are not one per catalog item.
    RowsMismatch,
}

/// An audit record with its rows, one per catalog item.
pub struct Audit {
    pub record: AuditRecord,
    pub rows: Vec<AuditCheckRow>,
}

/// Row `i` of the audit belongs to item `i` of the catalog, and every row to
/// the audit.
pub open spec fn audit_fits(a: Audit, items: Seq<ChecklistItem>) -> bool {
    &&& a.rows@.len() == items.len()
    &&& forall|i: int| 0 <= i < items.len() ==> (#[trigger] a.rows@[i]).check_id@ == items[i].id@
        && a.rows@[i].audit_id == a.record.id
}

/// Two records agree but perhaps on the overall score and its weights.
pub open spec fn same_record_but_score(a: AuditRecord, b: AuditRecord) -> bool {
    &&& a.id == b.id
    &&& a.contract_id == b.contract_id
    &&& a.contract_source == b.contract_source
    &&& a.auditor@ == b.auditor@
    &&& a.audit_date == b.audit_date
    &&& a.summary == b.summary
    &&& a.created_at == b.created_at
    &&& a.updated_at == b.updated_at
}

/// The ids of the rows.
pub open spec fn check_ids(rows: Seq<AuditCheckRow>) -> Seq<Seq<char>> {
    rows.map_values(|r: AuditCheckRow| r.check_id@)
}

/// The ids of the catalog items.
pub open spec fn item_ids(items: Seq<ChecklistItem>) -> Seq<Seq<char>> {
    items.map_values(|it: ChecklistItem| it.id@)
}

/// State of a new row: status, whether detection set it, and its evidence.
/// A matched pattern fails the check; an automatic check with no match
/// passes; anything else stays pending.
pub open spec fn initial_state(src: Option<Seq<char>>, d: DetectionMethod) -> (CheckStatus, bool, Option<Seq<char>>) {
    match src {
        None => (CheckStatus::Pending, false, None),
        Some(s) => match detect_spec(s, d) {
            Some(Some(p)) => (CheckStatus::Failed, true, Some(p)),
            Some(None) => match d {
                DetectionMethod::Automatic { .. } => (CheckStatus::Passed, true, None),
                _ => (CheckStatus::Pending, false, None),
            },
            None => (CheckStatus::Pending, false, None),
        },
    }
}

/// State of a row: status, whether detection set it, and its evidence.
pub open spec fn row_state(r: AuditCheckRow) -> (CheckStatus, bool, Option<Seq<char>>) {
    (r.status, r.auto_detected, opt_text(r.evidence))
}

/// The rows' ids are exactly the catalog's ids.
pub proof fn lemma_check_ids_match_catalog(a: Audit, items: Seq<ChecklistItem>)
    requires
        audit_fits(a, items),
    ensures
        check_ids(a.rows@) == item_ids(items),
        check_ids(a.rows@).to_set() == item_ids(items).to_set(),
{
    assert(check_ids(a.rows@) =~= item_ids(items));
}

fn new_row(id: u128, audit_id: u128, it: &ChecklistItem, source: &Option<String>, now: i64) -> (r: AuditCheckRow)
    ensures
        r.id == id,
        r.audit_id == audit_id,
        r.check_id@ == it.id@,
        row_state(r) == initial_state(opt_text(*source), it.detection),
        r.notes is None,
        r.updated_at == now,
{
    let (status, auto_detected, evidence) = match source {
        None => (CheckStatus::Pending, false, None),
        Some(src) => match detect_item(src.as_str(), it) {
            Some(DetectionOutcome::MatchFound { evidence }) => (CheckStatus::Failed, true, Some(evidence)),
            Some(DetectionOutcome::NoMatch) => match &it.detection {
                DetectionMethod::Automatic { .. } => (CheckStatus::Passed, true, None),
                _ => (CheckStatus::Pending, false, None),
            },
            None => (CheckStatus::Pending, false, None),
        },
    };
    AuditCheckRow {
        id,
        audit_id,
        check_id: it.id.clone(),
        status,
        notes: None,
        auto_detected,
        evidence,
        updated_at: now,
    }
}

/// Starts an audit: one row per catalog item, row `i` under id `row_ids[i]`,
/// set by pattern detection where a source text is given, and the overall
/// score of those rows. An empty auditor, or a count of row ids other than
/// the catalog's size, is invalid input.
pub fn create_audit(
    catalog: &Catalog,
    audit_id: u128,
    row_ids: &Vec<u128>,
    contract_id: u128,
    auditor: String,
    source_code: Option<String>,
    now: i64,
) -> (r: Result<Audit, AuditError>)
    ensures
        auditor@.len() == 0 || row_ids@.len() != catalog@.len() <==> r == Err::<Audit, AuditError>(
            AuditError::InvalidInput,
        ),
        auditor@.len() > 0 && row_ids@.len() == catalog@.len() <==> r is Ok,
        r matches Ok(a) ==> {
            &&& forall|i: int| 0 <= i < a.rows@.len() ==> (#[trigger] a.rows@[i]).id == row_ids@[i]
            &&& audit_fits(a, catalog@)
            &&& check_ids(a.rows@) == item_ids(catalog@)
            &&& forall|i: int| 0 <= i < a.rows@.len() ==> row_state(#[trigger] a.rows@[i])
                == initial_state(opt_text(source_code), catalog@[i].detection)
                && a.rows@[i].notes is None && a.rows@[i].updated_at == now
            &&& a.record.id == audit_id
            &&& a.record.contract_id == contract_id
            &&& a.record.contract_source == source_code
            &&& a.record.auditor == auditor
            &&& a.record.audit_date == now
            &&& a.record.created_at == now
            &&& a.record.updated_at == now
            &&& a.record.summary is None
            &&& record_scored(a.record, entries_of(catalog@, a.rows@))
        },
{
    let items = catalog.all_items();
    if auditor.as_str().is_empty() || row_ids.len() != items.len() {
        return Err(AuditError::InvalidInput);
    }
    let mut rows: Vec<AuditCheckRow> = Vec::new();
    let mut i: usize = 0;
    while i < items.len()
        invariant
            items@ == catalog@,
            i <= items@.len(),
            rows@.len() == i,
            row_ids@.len() == items@.len(),
            forall|j: int| 0 <= j < i ==> (#[trigger] rows@[j]).check_id@ == catalog@[j].id@
                && rows@[j].id == row_ids@[j] && rows@[j].audit_id == audit_id
                && row_state(rows@[j]) == initial_state(opt_text(source_code), catalog@[j].detection)
                && rows@[j].notes is None && rows@[j].updated_at == now,
        decreases items@.len() - i,
    {
        let row = new_row(row_ids[i], audit_id, &items[i], &source_code, now);
        rows.push(row);
        i = i + 1;
    }
    let e = score_entries(items, &rows);
    let (earned, possible, score) = overall_weights(&e);
    let record = AuditRecord {
        id: audit_id,
        contract_id,
        contract_source: source_code,
        auditor,
        audit_date: now,
        overall_earned: earned,
        overall_possible: possible,
        overall_score: score,
        summary: None,
        created_at: now,
        updated_at: now,
    };
    let a = Audit { record, rows };
    proof {
        lemma_check_ids_match_catalog(a, catalog@);
    }
    Ok(a)
}

/// Position of the first row whose check id is `id`.
pub open spec fn row_position(rows: Seq<AuditCheckRow>, id: Seq<char>) -> Option<int> {
    if exists|i: int| 0 <= i < rows.len() && #[trigger] rows[i].check_id@ == id {
        Some(choose|i: int| 0 <= i < rows.len() && #[trigger] rows[i].check_id@ == id
            && forall|j: int| 0 <= j < i ==> rows[j].check_id@ != id)
    } else {
        None
    }
}

/// Every catalog item has a row of audit `audit_id`, and there are no more rows.
pub open spec fn rows_complete(rows: Seq<AuditCheckRow>, items: Seq<ChecklistItem>, audit_id: u128) -> bool {
    &&& rows.len() == items.len()
    &&& forall|i: int| 0 <= i < items.len() ==> match row_position(rows, (#[trigger] items[i]).id@) {
        Some(j) => rows[j].audit_id == audit_id,
        None => false,
    }
}

fn find_row(rows: &Vec<AuditCheckRow>, id: &String) -> (r: Option<usize>)
    ensures
        match r {
            Some(j) => row_position(rows@, id@) == Some(j as int) && j < rows@.len()
                && rows@[j as int].check_id@ == id@,
            None => row_position(rows@, id@) is None,
        },
{
    let mut i: usize = 0;
    while i < rows.len()
        invariant
            i <= rows@.len(),
            forall|j: int| 0 <= j < i ==> rows@[j].check_id@ != id@,
        decreases rows@.len() - i,
    {
        if same_text(&rows[i].check_id, id) {
            proof {
                let k = choose|k: int| 0 <= k < rows@.len() && #[trigger] rows@[k].check_id@ == id@
                    && forall|j: int| 0 <= j < k ==> rows@[j].check_id@ != id@;
                assert(k == i as int) by {
                    if k > i {
                        assert(rows@[i as int].check_id@ == id@);
                    }
                }
            }
            return Some(i);
        }
        i = i + 1;
    }
    None
}

fn copy_row(row: &AuditCheckRow) -> (r: AuditCheckRow)
    ensures
        r == *row,
{
    AuditCheckRow {
        id: row.id,
        audit_id: row.audit_id,
        check_id: row.check_id.clone(),
        status: row.status,
        notes: copy_opt(&row.notes),
        auto_detected: row.auto_detected,
        evidence: copy_opt(&row.evidence),
        updated_at: row.updated_at,
    }
}

impl Audit {
    /// Joins an audit record with its stored rows, in any order: row `i` of
    /// the result is the first stored row whose id is that of catalog item `i`.
    pub fn from_rows(catalog: &Catalog, record: AuditRecord, rows: Vec<AuditCheckRow>) -> (r: Result<Audit, AuditError>)
        ensures
            rows_complete(rows@, catalog@, record.id) <==> r is Ok,
            !rows_complete(rows@, catalog@, record.id) ==> r == Err::<Audit, AuditError>(AuditError::RowsMismatch),
            r matches Ok(a) ==> {
                &&& a.record == record
                &&& audit_fits(a, catalog@)
                &&& forall|i: int| 0 <= i < a.rows@.len() ==> match row_position(rows@, catalog@[i].id@) {
                    Some(j) => #[trigger] a.rows@[i] == rows@[j],
                    None => false,
                }
            },
    {
        let items = catalog.all_items();
        if rows.len() != items.len() {
            return Err(AuditError::RowsMismatch);
        }
        let mut out: Vec<AuditCheckRow> = Vec::new();
        let mut i: usize = 0;
        while i < items.len()
            invariant
                items@ == catalog@,
                rows@.len() == items@.len(),
                i <= items@.len(),
                out@.len() == i,
                forall|k: int| 0 <= k < i ==> match row_position(rows@, (#[trigger] catalog@[k]).id@) {
                    Some(j) => out@[k] == rows@[j] && rows@[j].audit_id == record.id,
                    None => false,
                },
                forall|k: int| 0 <= k < i ==> (#[trigger] out@[k]).check_id@ == catalog@[k].id@
                    && out@[k].audit_id == record.id,
            decreases items@.len() - i,
        {
            let j = match find_row(&rows, &items[i].id) {
                Some(j) => j,
                None => {
                    return Err(AuditError::RowsMismatch);
                },
            };
            if rows[j].audit_id != record.id {
                return Err(AuditError::RowsMismatch);
            }
            out.push(copy_row(&rows[j]));
            i = i + 1;
        }
        Ok(Audit { record, rows: out })
    }

    /// Sets the status and notes of one check by hand: detection no longer
    /// owns it, and the cached overall score is refreshed.
    pub fn update_check(
        &mut self,
        catalog: &Catalog,
        check_id: &str,
        status: CheckStatus,
        notes: Option<String>,
        now: i64,
    ) -> (r: Result<CheckWithStatus, AuditError>)
        requires
            audit_fits(*old(self), catalog@),
        ensures
            audit_fits(*final(self), catalog@),
            position_of(catalog@, check_id@) is None <==> r == Err::<CheckWithStatus, AuditError>(
                AuditError::NotFound,
            ),
            position_of(catalog@, check_id@) is None ==> *final(self) == *old(self),
            match position_of(catalog@, check_id@) {
                Some(k) => {
                    let row = final(self).rows@[k];
                    let prev = old(self).rows@[k];
                    &&& final(self).rows@ == old(self).rows@.update(k, row)
                    &&& row.id == prev.id
                    &&& row.audit_id == prev.audit_id
                    &&& row.check_id == prev.check_id
                    &&& row.status == status
                    &&& row.notes == notes
                    &&& !row.auto_detected
                    &&& row.evidence == prev.evidence
                    &&& row.updated_at == now
                    &&& same_record_but_score(
                        AuditRecord { updated_at: old(self).record.updated_at, ..final(self).record },
                        old(self).record,
                    )
                    &&& final(self).record.updated_at == now
                    &&& record_scored(final(self).record, entries_of(catalog@, final(self).rows@))
                    &&& r matches Ok(c) && merged(c, catalog@[k], row)
                },
                None => true,
            },
    {
        let k = match catalog.position(check_id) {
            Some(k) => k,
            None => {
                return Err(AuditError::NotFound);
            },
        };
        let items = catalog.all_items();
        let row = AuditCheckRow {
            id: self.rows[k].id,
            audit_id: self.rows[k].audit_id,
            check_id: self.rows[k].check_id.clone(),
            status,
            notes,
            auto_detected: false,
            evidence: copy_opt(&self.rows[k].evidence),
            updated_at: now,
        };
        let merged_check = merge(&items[k], &row);
        self.rows.set(k, row);
        let e = score_entries(items, &self.rows);
        let (earned, possible, score) = overall_weights(&e);
        self.record.overall_earned = earned;
        self.record.overall_possible = possible;
        self.record.overall_score = score;
        self.record.updated_at = now;
        Ok(merged_check)
    }
}

} // verus!
