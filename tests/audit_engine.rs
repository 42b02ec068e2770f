use registry_audit::audit::{create_audit, Audit, AuditError};
use registry_audit::catalog::{Catalog, CatalogError};
use registry_audit::detection::{detect, DetectionOutcome};
use registry_audit::export::{export_audit, render_report};
use registry_audit::models::{
    CheckCategory, CheckStatus, ChecklistItem, DetectionMethod, ExportRequest, PaginatedResponse, Severity,
};
use registry_audit::report::{badge, get_report, summarize};
use registry_audit::runtime::start_audit;
use registry_audit::scoring::{category_score, overall_score, overall_weights, ScoreEntry};
use registry_audit::standard::{standard_catalog, standard_items};

fn item(id: &str, category: CheckCategory, severity: Severity, detection: DetectionMethod) -> ChecklistItem {
    ChecklistItem {
        id: id.to_string(),
        category,
        title: format!("Title of {}", id),
        description: format!("Description of {}", id),
        severity,
        detection,
        remediation: "Fix it.".to_string(),
        references: vec!["https://example.org".to_string()],
    }
}

fn auto(patterns: &[&str]) -> DetectionMethod {
    DetectionMethod::Automatic { patterns: patterns.iter().map(|p| p.to_string()).collect() }
}

fn semi(patterns: &[&str]) -> DetectionMethod {
    DetectionMethod::SemiAutomatic { patterns: patterns.iter().map(|p| p.to_string()).collect() }
}

fn reentrancy_item() -> ChecklistItem {
    item(
        "reentrancy-001",
        CheckCategory::Reentrancy,
        Severity::High,
        auto(&["external_call_before_state_update"]),
    )
}

fn small_catalog() -> Catalog {
    let items = vec![
        reentrancy_item(),
        item("access-001", CheckCategory::AccessControl, Severity::Critical, DetectionMethod::Manual),
        item("cross-001", CheckCategory::CrossContractCalls, Severity::High, semi(&["invoke_contract"])),
    ];
    match Catalog::new(items) {
        Ok(c) => c,
        Err(_) => panic!("catalog refused"),
    }
}

fn new_audit(catalog: &Catalog, source: Option<&str>) -> Audit {
    let row_ids: Vec<u128> = (0..catalog.len() as u128).map(|i| 100 + i).collect();
    match create_audit(catalog, 7, &row_ids, 42, "alice".to_string(), source.map(|s| s.to_string()), 1_000) {
        Ok(a) => a,
        Err(_) => panic!("audit refused"),
    }
}

fn row_of<'a>(a: &'a Audit, id: &str) -> &'a registry_audit::models::AuditCheckRow {
    a.rows.iter().find(|r| r.check_id == id).expect("row")
}

#[test]
fn matched_pattern_fails_the_check() {
    let c = small_catalog();
    let a = new_audit(&c, Some("fn f() { external_call_before_state_update(); }"));
    let r = row_of(&a, "reentrancy-001");
    assert_eq!(r.status, CheckStatus::Failed);
    assert!(r.auto_detected);
    assert_eq!(r.evidence.as_deref(), Some("external_call_before_state_update"));
}

#[test]
fn absent_pattern_passes_an_automatic_check() {
    let c = small_catalog();
    let a = new_audit(&c, Some("fn f() { update_state(); call(); }"));
    let r = row_of(&a, "reentrancy-001");
    assert_eq!(r.status, CheckStatus::Passed);
    assert!(r.auto_detected);
    assert_eq!(r.evidence, None);
}

#[test]
fn manual_update_overrides_detection() {
    let c = small_catalog();
    let mut a = new_audit(&c, Some("external_call_before_state_update invoke_contract"));
    let before = get_report(&c, &a);
    assert_eq!(before.auto_detected_count, 2);
    let r = a.update_check(&c, "reentrancy-001", CheckStatus::Passed, Some("manually verified safe".to_string()), 2_000);
    let merged = match r {
        Ok(m) => m,
        Err(_) => panic!("update refused"),
    };
    assert_eq!(merged.status, CheckStatus::Passed);
    assert!(!merged.auto_detected);
    assert_eq!(merged.notes.as_deref(), Some("manually verified safe"));
    let row = row_of(&a, "reentrancy-001");
    assert_eq!(row.status, CheckStatus::Passed);
    assert!(!row.auto_detected);
    assert_eq!(row.notes.as_deref(), Some("manually verified safe"));
    assert_eq!(row.updated_at, 2_000);
    assert_eq!(a.record.updated_at, 2_000);
    let after = get_report(&c, &a);
    assert_eq!(after.auto_detected_count, before.auto_detected_count - 1);
}

#[test]
fn update_of_unknown_check_is_not_found() {
    let c = small_catalog();
    let mut a = new_audit(&c, None);
    let r = a.update_check(&c, "nope-001", CheckStatus::Passed, None, 5);
    assert!(matches!(r, Err(AuditError::NotFound)));
    assert!(a.rows.iter().all(|r| r.status == CheckStatus::Pending));
}

#[test]
fn empty_auditor_is_invalid_input() {
    let c = small_catalog();
    let r = create_audit(&c, 1, &vec![1, 2, 3], 2, String::new(), None, 0);
    assert!(matches!(r, Err(AuditError::InvalidInput)));
}

#[test]
fn wrong_count_of_row_ids_is_invalid_input() {
    let c = small_catalog();
    let r = create_audit(&c, 1, &vec![1, 2], 2, "alice".to_string(), None, 0);
    assert!(matches!(r, Err(AuditError::InvalidInput)));
}

#[test]
fn rows_take_the_given_ids() {
    let c = small_catalog();
    let a = new_audit(&c, None);
    let ids: Vec<u128> = a.rows.iter().map(|r| r.id).collect();
    assert_eq!(ids, vec![100, 101, 102]);
}

#[test]
fn weighted_category_score() {
    let e = vec![
        ScoreEntry { category: CheckCategory::Reentrancy, severity: Severity::High, status: CheckStatus::Passed },
        ScoreEntry { category: CheckCategory::Reentrancy, severity: Severity::Critical, status: CheckStatus::Failed },
    ];
    let cs = category_score(&e, CheckCategory::Reentrancy);
    assert_eq!(cs.earned, 5);
    assert_eq!(cs.possible, 13);
    let exact = 100.0 * cs.earned as f64 / cs.possible as f64;
    assert!((exact - 38.4615).abs() < 0.001);
    assert_eq!(cs.score, 3846);
    assert_eq!(cs.passed, 1);
    assert_eq!(cs.total, 2);
    assert_eq!(cs.failed_critical, 1);
    assert_eq!(cs.failed_high, 0);
    assert_eq!(overall_score(&e), 3846);
}

#[test]
fn pending_checks_keep_the_score_below_full() {
    let e = vec![
        ScoreEntry { category: CheckCategory::TokenSafety, severity: Severity::Low, status: CheckStatus::Passed },
        ScoreEntry { category: CheckCategory::TokenSafety, severity: Severity::Medium, status: CheckStatus::Pending },
    ];
    assert_eq!(overall_score(&e), 4000);
}

#[test]
fn passing_a_failed_check_never_lowers_scores() {
    let mut e = vec![
        ScoreEntry { category: CheckCategory::Reentrancy, severity: Severity::Critical, status: CheckStatus::Failed },
        ScoreEntry { category: CheckCategory::Reentrancy, severity: Severity::Low, status: CheckStatus::Passed },
        ScoreEntry { category: CheckCategory::EventLogging, severity: Severity::Info, status: CheckStatus::Pending },
    ];
    let before_all = overall_score(&e);
    let before_cat = category_score(&e, CheckCategory::Reentrancy).score;
    assert_eq!(overall_weights(&e), (2, 11, 1818));
    e[0].status = CheckStatus::Passed;
    assert_eq!(overall_weights(&e), (10, 11, 9090));
    assert!(overall_score(&e) >= before_all);
    assert!(category_score(&e, CheckCategory::Reentrancy).score >= before_cat);
    assert_eq!(before_all, 1818);
    assert_eq!(overall_score(&e), 9090);
}

#[test]
fn vacuous_category_scores_full_and_adds_nothing() {
    let e = vec![
        ScoreEntry { category: CheckCategory::Upgradeability, severity: Severity::Critical, status: CheckStatus::NotApplicable },
        ScoreEntry { category: CheckCategory::Upgradeability, severity: Severity::High, status: CheckStatus::NotApplicable },
        ScoreEntry { category: CheckCategory::TokenSafety, severity: Severity::Medium, status: CheckStatus::Passed },
        ScoreEntry { category: CheckCategory::TokenSafety, severity: Severity::Low, status: CheckStatus::Failed },
    ];
    let cs = category_score(&e, CheckCategory::Upgradeability);
    assert_eq!(cs.score, 10000);
    assert_eq!(cs.possible, 0);
    assert_eq!(cs.total, 0);
    assert_eq!(overall_score(&e), 6000);
}

#[test]
fn empty_audit_scores_full() {
    let e: Vec<ScoreEntry> = Vec::new();
    assert_eq!(overall_score(&e), 10000);
}

#[test]
fn detection_is_deterministic() {
    let c = small_catalog();
    let src = "invoke_contract(); external_call_before_state_update();";
    let view = |r: Vec<Option<DetectionOutcome>>| -> Vec<Option<Option<String>>> {
        r.into_iter()
            .map(|o| {
                o.map(|x| match x {
                    DetectionOutcome::MatchFound { evidence } => Some(evidence),
                    DetectionOutcome::NoMatch => None,
                })
            })
            .collect()
    };
    let a = view(detect(src, &c));
    let b = view(detect(src, &c));
    assert_eq!(a, b);
    assert_eq!(
        a,
        vec![Some(Some("external_call_before_state_update".to_string())), None, Some(Some("invoke_contract".to_string()))]
    );
}

#[test]
fn detection_reports_the_first_matching_pattern() {
    let c = match Catalog::new(vec![item("n-1", CheckCategory::NumericalSafety, Severity::High, auto(&["aaa", "bbb", "ccc"]))]) {
        Ok(c) => c,
        Err(_) => panic!("catalog refused"),
    };
    let r = detect("ccc then bbb", &c);
    match &r[0] {
        Some(DetectionOutcome::MatchFound { evidence }) => assert_eq!(evidence, "bbb"),
        _ => panic!("expected a match"),
    }
}

#[test]
fn semi_automatic_without_match_stays_pending() {
    let c = small_catalog();
    let a = new_audit(&c, Some("nothing to see"));
    let r = row_of(&a, "cross-001");
    assert_eq!(r.status, CheckStatus::Pending);
    assert!(!r.auto_detected);
    let m = row_of(&a, "access-001");
    assert_eq!(m.status, CheckStatus::Pending);
}

#[test]
fn semi_automatic_match_fails_for_confirmation() {
    let c = small_catalog();
    let a = new_audit(&c, Some("env.invoke_contract(&addr)"));
    let r = row_of(&a, "cross-001");
    assert_eq!(r.status, CheckStatus::Failed);
    assert!(r.auto_detected);
    assert_eq!(r.evidence.as_deref(), Some("invoke_contract"));
}

#[test]
fn no_source_skips_detection() {
    let c = small_catalog();
    let a = new_audit(&c, None);
    assert!(a.rows.iter().all(|r| r.status == CheckStatus::Pending && !r.auto_detected));
    assert_eq!(a.record.overall_score, 0);
}

#[test]
fn audit_rows_match_catalog_ids() {
    let c = standard_catalog().expect("standard catalog");
    let a = new_audit(&c, Some("loop { x.unwrap() }"));
    let mut ids: Vec<String> = a.rows.iter().map(|r| r.check_id.clone()).collect();
    let mut want: Vec<String> = c.all_items().iter().map(|i| i.id.clone()).collect();
    assert_eq!(ids.len(), want.len());
    ids.sort();
    want.sort();
    assert_eq!(ids, want);
    assert!(a.rows.iter().all(|r| r.audit_id == 7));
}

#[test]
fn report_is_the_same_when_read_twice() {
    let c = small_catalog();
    let a = new_audit(&c, Some("external_call_before_state_update"));
    let r1 = get_report(&c, &a);
    let r2 = get_report(&c, &a);
    assert_eq!(r1.audit.overall_score, r2.audit.overall_score);
    assert_eq!(r1.category_scores, r2.category_scores);
    assert_eq!(r1.auto_detected_count, r2.auto_detected_count);
    let ids1: Vec<&String> = r1.checks.iter().map(|c| &c.id).collect();
    let ids2: Vec<&String> = r2.checks.iter().map(|c| &c.id).collect();
    assert_eq!(ids1, ids2);
    assert_eq!(render_report(&r1, true, false), render_report(&r2, true, false));
}

#[test]
fn report_lists_checks_in_catalog_order_with_category_scores() {
    let c = small_catalog();
    let a = new_audit(&c, Some("external_call_before_state_update"));
    let r = get_report(&c, &a);
    let ids: Vec<&str> = r.checks.iter().map(|c| c.id.as_str()).collect();
    assert_eq!(ids, vec!["reentrancy-001", "access-001", "cross-001"]);
    assert_eq!(r.checks[0].detection_type, "automatic");
    assert_eq!(r.checks[1].detection_type, "manual");
    assert_eq!(r.checks[2].auto_patterns, vec!["invoke_contract".to_string()]);
    let cats: Vec<CheckCategory> = r.category_scores.iter().map(|s| s.category).collect();
    assert_eq!(cats, vec![CheckCategory::AccessControl, CheckCategory::Reentrancy, CheckCategory::CrossContractCalls]);
    assert_eq!(r.category_scores[1].score, 0);
    assert_eq!(r.category_scores[1].failed_high, 1);
    assert_eq!(r.audit.overall_score, 0);
}

#[test]
fn export_failures_only_without_failures_keeps_header() {
    let c = small_catalog();
    let a = new_audit(&c, Some("safe code"));
    let doc = export_audit(&c, &a, true, true);
    assert!(doc.starts_with("# Security Audit Report\n"));
    assert!(doc.contains("Overall score: 27.77 (F), weight 5/18"));
    assert!(doc.contains("## Categories"));
    assert!(doc.ends_with("\n## Checks\n\n"));
}

#[test]
fn export_exact_document() {
    let c = small_catalog();
    let a = new_audit(&c, Some("external_call_before_state_update"));
    let doc = export_audit(&c, &a, false, true);
    let want = "# Security Audit Report\n\nAudit: 7\nContract: 42\nAuditor: alice\nDate (ms since epoch): 1000\nOverall score: 0.00 (F), weight 0/18\n\n## Categories\n\n- Access Control: 0.00, weight 0/8 (0/1 passed, 0 critical failed, 0 high failed)\n- Reentrancy: 0.00, weight 0/5 (0/1 passed, 0 critical failed, 1 high failed)\n- Cross-Contract Calls: 0.00, weight 0/5 (0/1 passed, 0 critical failed, 0 high failed)\n\n## Checks\n\n- [FAILED] reentrancy-001: Title of reentrancy-001 (High)\n  Evidence: external_call_before_state_update\n";
    assert_eq!(doc, want);
}

#[test]
fn export_with_descriptions_lists_every_check() {
    let c = small_catalog();
    let a = new_audit(&c, None);
    let doc = export_audit(&c, &a, true, false);
    assert!(doc.contains("- [PENDING] access-001: Title of access-001 (Critical)\n  Description of access-001\n"));
    assert!(doc.contains("- [PENDING] cross-001"));
}

#[test]
fn badge_thresholds() {
    assert_eq!(badge(10000), "A");
    assert_eq!(badge(9000), "A");
    assert_eq!(badge(8999), "B");
    assert_eq!(badge(8000), "B");
    assert_eq!(badge(7000), "C");
    assert_eq!(badge(6000), "D");
    assert_eq!(badge(5999), "F");
    assert_eq!(badge(0), "F");
}

#[test]
fn summary_carries_badge() {
    let c = small_catalog();
    let a = new_audit(&c, Some("clean"));
    let s = summarize(&a.record);
    assert_eq!(s.audit_id, 7);
    assert_eq!(s.auditor, "alice");
    assert_eq!(s.overall_score, 2777);
    assert_eq!(a.record.overall_earned, 5);
    assert_eq!(a.record.overall_possible, 18);
    assert_eq!(s.score_badge, "F");
}

#[test]
fn catalog_refuses_duplicate_ids() {
    let r = Catalog::new(vec![reentrancy_item(), reentrancy_item()]);
    match r {
        Err(CatalogError::DuplicateId { id }) => assert_eq!(id, "reentrancy-001"),
        _ => panic!("expected a duplicate id"),
    }
}

#[test]
fn catalog_refuses_empty_patterns() {
    let r = Catalog::new(vec![item("x-1", CheckCategory::TokenSafety, Severity::Low, semi(&[]))]);
    match r {
        Err(CatalogError::EmptyPatterns { id }) => assert_eq!(id, "x-1"),
        _ => panic!("expected empty patterns"),
    }
}

#[test]
fn catalog_lookup() {
    let c = small_catalog();
    assert_eq!(c.len(), 3);
    assert_eq!(c.position("cross-001"), Some(2));
    assert_eq!(c.get("access-001").map(|i| i.severity), Some(Severity::Critical));
    assert!(c.get("missing").is_none());
    assert_eq!(c.positions_in_category(CheckCategory::Reentrancy), vec![0]);
}

#[test]
fn standard_catalog_is_valid() {
    let c = standard_catalog().expect("standard catalog");
    assert_eq!(c.len(), 14);
    assert_eq!(standard_items().len(), 14);
    let r = c.get("reentrancy-001").expect("reentrancy item");
    assert_eq!(r.category, CheckCategory::Reentrancy);
    assert_eq!(r.severity, Severity::High);
    match &r.detection {
        DetectionMethod::Automatic { patterns } => assert_eq!(patterns, &vec!["external_call_before_state_update".to_string()]),
        _ => panic!("expected automatic detection"),
    }
    assert_eq!(c.position("reentrancy-001"), Some(3));
}

#[test]
fn start_audit_gives_fresh_ids() {
    let c = small_catalog();
    let a = start_audit(&c, 1, "bob".to_string(), None).expect("audit");
    let b = start_audit(&c, 1, "bob".to_string(), None).expect("audit");
    assert_ne!(a.record.id, b.record.id);
    assert_ne!(a.rows[0].id, a.rows[1].id);
    assert_eq!(a.record.created_at, a.record.audit_date);
    assert!(a.record.audit_date > 1_600_000_000_000);
}

#[test]
fn pagination_rounds_up() {
    let p: PaginatedResponse<u8> = PaginatedResponse::new(vec![1, 2], 21, 1, 10);
    assert_eq!(p.total_pages, 3);
    assert_eq!(PaginatedResponse::<u8>::new(Vec::new(), 20, 1, 10).total_pages, 2);
    assert_eq!(PaginatedResponse::<u8>::new(Vec::new(), 0, 1, 10).total_pages, 0);
    assert_eq!(PaginatedResponse::<u8>::new(Vec::new(), 5, 1, 0).total_pages, i64::MAX);
    assert_eq!(PaginatedResponse::<u8>::new(Vec::new(), -5, 1, 2).total_pages, -2);
}

#[test]
fn export_defaults() {
    let r = ExportRequest::default();
    assert!(r.include_descriptions);
    assert!(!r.failures_only);
    assert_eq!(CheckStatus::default(), CheckStatus::Pending);
}

#[test]
fn labels() {
    assert_eq!(CheckCategory::AuthenticationAuthorization.label(), "Authentication & Authorization");
    assert_eq!(Severity::Critical.name(), "Critical");
    assert_eq!(Severity::High.weight(), 5);
}

fn copy_rows(a: &Audit) -> Vec<registry_audit::models::AuditCheckRow> {
    a.rows
        .iter()
        .map(|r| registry_audit::models::AuditCheckRow {
            id: r.id,
            audit_id: r.audit_id,
            check_id: r.check_id.clone(),
            status: r.status,
            notes: r.notes.clone(),
            auto_detected: r.auto_detected,
            evidence: r.evidence.clone(),
            updated_at: r.updated_at,
        })
        .collect()
}

fn copy_record(a: &Audit) -> registry_audit::models::AuditRecord {
    let r = &a.record;
    registry_audit::models::AuditRecord {
        id: r.id,
        contract_id: r.contract_id,
        contract_source: r.contract_source.clone(),
        auditor: r.auditor.clone(),
        audit_date: r.audit_date,
        overall_earned: r.overall_earned,
        overall_possible: r.overall_possible,
        overall_score: r.overall_score,
        summary: r.summary.clone(),
        created_at: r.created_at,
        updated_at: r.updated_at,
    }
}

#[test]
fn stored_rows_are_put_in_catalog_order() {
    let c = small_catalog();
    let a = new_audit(&c, Some("external_call_before_state_update"));
    let mut rows = copy_rows(&a);
    rows.reverse();
    let b = Audit::from_rows(&c, copy_record(&a), rows).expect("rows");
    let ids: Vec<&str> = b.rows.iter().map(|r| r.check_id.as_str()).collect();
    assert_eq!(ids, vec!["reentrancy-001", "access-001", "cross-001"]);
    assert_eq!(b.rows[0].status, CheckStatus::Failed);
    assert_eq!(get_report(&c, &b).audit.overall_score, get_report(&c, &a).audit.overall_score);
}

#[test]
fn stored_rows_missing_one_are_refused() {
    let c = small_catalog();
    let a = new_audit(&c, None);
    let mut rows = copy_rows(&a);
    rows.pop();
    assert!(matches!(Audit::from_rows(&c, copy_record(&a), rows), Err(AuditError::RowsMismatch)));
    let mut dup = copy_rows(&a);
    dup[2].check_id = "access-001".to_string();
    assert!(matches!(Audit::from_rows(&c, copy_record(&a), dup), Err(AuditError::RowsMismatch)));
}

#[test]
fn stored_rows_of_another_audit_are_refused() {
    let c = small_catalog();
    let a = new_audit(&c, None);
    let mut rows = copy_rows(&a);
    rows[1].audit_id = 99;
    assert!(matches!(Audit::from_rows(&c, copy_record(&a), rows), Err(AuditError::RowsMismatch)));
}
