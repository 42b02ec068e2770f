//! Audits that take their identifier and date from the running system.
use vstd::prelude::*;

use crate::audit::{Audit, AuditError, audit_fits, create_audit, initial_state, row_state};
use crate::catalog::Catalog;
use crate::scoring::{entries_of, record_scored};
use crate::text::opt_text;

verus! {

/// Relies on `uuid::Uuid::new_v4`: a fresh random identifier, read as an
/// integer with `Uuid::as_u128`. Nothing is known of its value.
#[verifier::external_body]
fn fresh_id() -> (r: u128) {
    uuid::Uuid::new_v4().as_u128()
}

/// Relies on `chrono::Utc::now`: the current time, read as milliseconds since
/// the Unix epoch with `DateTime::timestamp_millis`. Nothing is known of its value.
#[verifier::external_body]
fn now_millis() -> (r: i64) {
    chrono::Utc::now().timestamp_millis()
}

/// Starts an audit under a fresh random id, with fresh random row ids, dated
/// now; otherwise as `create_audit`.
pub fn start_audit(
    catalog: &Catalog,
    contract_id: u128,
    auditor: String,
    source_code: Option<String>,
) -> (r: Result<Audit, AuditError>)
    ensures
        auditor@.len() == 0 <==> r == Err::<Audit, AuditError>(AuditError::InvalidInput),
        auditor@.len() > 0 <==> r is Ok,
        r matches Ok(a) ==> {
            &&& audit_fits(a, catalog@)
            &&& forall|i: int| 0 <= i < a.rows@.len() ==> row_state(#[trigger] a.rows@[i])
                == initial_state(opt_text(source_code), catalog@[i].detection)
                && a.rows@[i].notes is None && a.rows@[i].updated_at == a.record.audit_date
            &&& a.record.contract_id == contract_id
            &&& a.record.contract_source == source_code
            &&& a.record.auditor == auditor
            &&& a.record.created_at == a.record.audit_date
            &&& a.record.updated_at == a.record.audit_date
            &&& a.record.summary is None
            &&& record_scored(a.record, entries_of(catalog@, a.rows@))
        },
{
    let id = fresh_id();
    let n = catalog.len();
    let mut row_ids: Vec<u128> = Vec::new();
    let mut i: usize = 0;
    while i < n
        invariant
            i <= n,
            row_ids@.len() == i,
        decreases n - i,
    {
        row_ids.push(fresh_id());
        i = i + 1;
    }
    let now = now_millis();
    create_audit(catalog, id, &row_ids, contract_id, auditor, source_code, now)
}

} // verus!
