//! The built-in checklist.
use vstd::prelude::*;

use crate::catalog::{Catalog, CatalogError, catalog_wf, item_ok};
use crate::detection::texts;
use crate::models::{
    CheckCategory, ChecklistItem, DetectionMethod, Severity, category_at, detection_tag, patterns_of,
};

verus! {

/// Id of built-in item `i`.
pub open spec fn standard_id(i: int) -> Seq<char> {
    if i == 0 {
        "input-001"@
    } else if i == 1 {
        "state-001"@
    } else if i == 2 {
        "access-001"@
    } else if i == 3 {
        "reentrancy-001"@
    } else if i == 4 {
        "numeric-001"@
    } else if i == 5 {
        "auth-001"@
    } else if i == 6 {
        "serial-001"@
    } else if i == 7 {
        "error-001"@
    } else if i == 8 {
        "storage-001"@
    } else if i == 9 {
        "token-001"@
    } else if i == 10 {
        "event-001"@
    } else if i == 11 {
        "upgrade-001"@
    } else if i == 12 {
        "cross-001"@
    } else {
        "resource-001"@
    }
}

/// Severity of built-in item `i`.
pub open spec fn standard_severity(i: int) -> Severity {
    if i == 2 || i == 5 || i == 11 {
        Severity::Critical
    } else if i == 3 || i == 4 || i == 9 || i == 12 {
        Severity::High
    } else if i == 6 {
        Severity::Low
    } else if i == 10 {
        Severity::Info
    } else {
        Severity::Medium
    }
}

/// Detection tag of built-in item `i`.
pub open spec fn standard_tag(i: int) -> Seq<char> {
    if i == 3 || i == 4 || i == 7 || i == 13 {
        "automatic"@
    } else if i == 0 || i == 5 || i == 8 || i == 11 || i == 12 {
        "semi_automatic"@
    } else {
        "manual"@
    }
}

/// Patterns of built-in item `i`.
pub open spec fn standard_patterns(i: int) -> Seq<Seq<char>> {
    if i == 0 {
        seq!["as u32"@, "as i32"@]
    } else if i == 3 {
        seq!["external_call_before_state_update"@]
    } else if i == 4 {
        seq!["wrapping_add"@, "wrapping_sub"@, "wrapping_mul"@]
    } else if i == 5 {
        seq!["require_auth_for_args"@]
    } else if i == 7 {
        seq![".unwrap()"@, ".expect("@]
    } else if i == 8 {
        seq!["storage().temporary()"@]
    } else if i == 11 {
        seq!["update_current_contract_wasm"@]
    } else if i == 12 {
        seq!["invoke_contract"@]
    } else if i == 13 {
        seq!["loop {"@]
    } else {
        Seq::empty()
    }
}

/// `it` is built-in item `i`.
pub open spec fn standard_item(it: ChecklistItem, i: int) -> bool {
    &&& it.id@ == standard_id(i)
    &&& it.category == category_at(i)
    &&& it.severity == standard_severity(i)
    &&& detection_tag(it.detection) == standard_tag(i)
    &&& texts(patterns_of(it.detection)) == standard_patterns(i)
}

/// `items` is the built-in checklist: one item per category, in reporting
/// order, with the ids, severities, detection methods and patterns above.
pub open spec fn is_standard(items: Seq<ChecklistItem>) -> bool {
    &&& items.len() == 14
    &&& forall|i: int| 0 <= i < 14 ==> standard_item(#[trigger] items[i], i)
}

proof fn lemma_standard_wf(items: Seq<ChecklistItem>)
    requires
        is_standard(items),
    ensures
        catalog_wf(items),
{
    reveal_strlit("input-001");
    reveal_strlit("state-001");
    reveal_strlit("access-001");
    reveal_strlit("reentrancy-001");
    reveal_strlit("numeric-001");
    reveal_strlit("auth-001");
    reveal_strlit("serial-001");
    reveal_strlit("error-001");
    reveal_strlit("storage-001");
    reveal_strlit("token-001");
    reveal_strlit("event-001");
    reveal_strlit("upgrade-001");
    reveal_strlit("cross-001");
    reveal_strlit("resource-001");
    let ks = seq![
        (9nat, 'i', 'n'), (9nat, 's', 't'), (10nat, 'a', 'c'), (14nat, 'r', 'e'), (11nat, 'n', 'u'),
        (8nat, 'a', 'u'), (10nat, 's', 'e'), (9nat, 'e', 'r'), (11nat, 's', 't'), (9nat, 't', 'o'),
        (9nat, 'e', 'v'), (11nat, 'u', 'p'), (9nat, 'c', 'r'), (12nat, 'r', 'e'),
    ];
    assert forall|k: int| 0 <= k < 14 implies #[trigger] key_of(items[k].id@) == ks[k] by {
        assert(standard_item(items[k], k));
    }
    assert forall|i: int, j: int| 0 <= i < j < items.len() implies items[i].id@ != items[j].id@ by {
        assert(key_of(items[i].id@) == ks[i]);
        assert(key_of(items[j].id@) == ks[j]);
    }
    reveal_strlit("manual");
    reveal_strlit("automatic");
    reveal_strlit("semi_automatic");
    assert forall|i: int| 0 <= i < items.len() implies item_ok(#[trigger] items[i]) by {
        assert(standard_item(items[i], i));
        assert(texts(patterns_of(items[i].detection)).len() == patterns_of(items[i].detection).len());
        match items[i].detection {
            DetectionMethod::Manual => {},
            _ => {
                assert("manual"@.len() == 6);
                assert(detection_tag(items[i].detection).len() == 9 || detection_tag(items[i].detection).len() == 14);
                assert(standard_tag(i) != "manual"@);
                assert(standard_patterns(i).len() > 0);
            },
        }
    }
}

fn text(s: &str) -> (r: String)
    ensures
        r@ == s@,
{
    String::from_str(s)
}

fn entry(
    id: &str,
    category: CheckCategory,
    title: &str,
    description: &str,
    severity: Severity,
    detection: DetectionMethod,
    remediation: &str,
    reference: &str,
) -> (r: ChecklistItem)
    ensures
        r.id@ == id@,
        r.category == category,
        r.severity == severity,
        r.detection == detection,
{
    ChecklistItem {
        id: text(id),
        category,
        title: text(title),
        description: text(description),
        severity,
        detection,
        remediation: text(remediation),
        references: vec![text(reference)],
    }
}

fn one(a: &str) -> (r: Vec<String>)
    ensures
        texts(r@) == seq![a@],
{
    let r = vec![text(a)];
    assert(texts(r@) =~= seq![a@]);
    r
}

fn two(a: &str, b: &str) -> (r: Vec<String>)
    ensures
        texts(r@) == seq![a@, b@],
{
    let r = vec![text(a), text(b)];
    assert(texts(r@) =~= seq![a@, b@]);
    r
}

fn three(a: &str, b: &str, c: &str) -> (r: Vec<String>)
    ensures
        texts(r@) == seq![a@, b@, c@],
{
    let r = vec![text(a), text(b), text(c)];
    assert(texts(r@) =~= seq![a@, b@, c@]);
    r
}

fn automatic(patterns: Vec<String>) -> (r: DetectionMethod)
    ensures
        r == (DetectionMethod::Automatic { patterns }),
{
    DetectionMethod::Automatic { patterns }
}

fn semi_automatic(patterns: Vec<String>) -> (r: DetectionMethod)
    ensures
        r == (DetectionMethod::SemiAutomatic { patterns }),
{
    DetectionMethod::SemiAutomatic { patterns }
}

/// Length and first two characters of an id, which tell the built-in ids apart.
spec fn key_of(s: Seq<char>) -> (nat, char, char) {
    (s.len(), s[0], s[1])
}

/// The items of the built-in checklist, one per category, with distinct ids.
pub fn standard_items() -> (r: Vec<ChecklistItem>)
    ensures
        is_standard(r@),
        catalog_wf(r@),
{
    let guide = "https://developers.stellar.org/docs/build/smart-contracts";
    let items = vec![
        entry(
            "input-001",
            CheckCategory::InputValidation,
            "Narrowing casts of inputs",
            "Arguments are cast to narrower integer types without a range check.",
            Severity::Medium,
            semi_automatic(two("as u32", "as i32")),
            "Use try_from and reject values out of range.",
            guide,
        ),
        entry(
            "state-001",
            CheckCategory::StateManagement,
            "Complete state transitions",
            "Every path through a state-changing function leaves storage consistent.",
            Severity::Medium,
            DetectionMethod::Manual,
            "Write state in one place, after all checks have passed.",
            guide,
        ),
        entry(
            "access-001",
            CheckCategory::AccessControl,
            "Privileged functions require authorization",
            "Administrative entry points check the caller before acting.",
            Severity::Critical,
            DetectionMethod::Manual,
            "Call require_auth on the administrator address.",
            guide,
        ),
        entry(
            "reentrancy-001",
            CheckCategory::Reentrancy,
            "External call before state update",
            "An external contract is invoked before the caller's own state is written.",
            Severity::High,
            automatic(one("external_call_before_state_update")),
            "Update state first, then call out.",
            guide,
        ),
        entry(
            "numeric-001",
            CheckCategory::NumericalSafety,
            "Silent integer wrap-around",
            "Wrapping arithmetic hides overflow of balances and counters.",
            Severity::High,
            automatic(three("wrapping_add", "wrapping_sub", "wrapping_mul")),
            "Use checked arithmetic and handle the failure.",
            guide,
        ),
        entry(
            "auth-001",
            CheckCategory::AuthenticationAuthorization,
            "Authorization over chosen arguments",
            "Authorization covers only some of the arguments that an attacker controls.",
            Severity::Critical,
            semi_automatic(one("require_auth_for_args")),
            "Authorize every argument that moves value.",
            guide,
        ),
        entry(
            "serial-001",
            CheckCategory::DataSerialization,
            "Stable storage encoding",
            "Stored types keep their encoding across contract versions.",
            Severity::Low,
            DetectionMethod::Manual,
            "Version stored types and migrate explicitly.",
            guide,
        ),
        entry(
            "error-001",
            CheckCategory::ErrorHandling,
            "Panics on missing values",
            "unwrap and expect abort the call with an opaque error.",
            Severity::Medium,
            automatic(two(".unwrap()", ".expect(")),
            "Return a contract error instead.",
            guide,
        ),
        entry(
            "storage-001",
            CheckCategory::StoragePatterns,
            "Durable data in temporary storage",
            "Data that must persist is kept in temporary storage and may expire.",
            Severity::Medium,
            semi_automatic(one("storage().temporary()")),
            "Keep durable data in persistent storage and extend its time to live.",
            guide,
        ),
        entry(
            "token-001",
            CheckCategory::TokenSafety,
            "Token amounts are positive",
            "Transfers and mints reject zero and negative amounts.",
            Severity::High,
            DetectionMethod::Manual,
            "Check amounts at every entry point.",
            guide,
        ),
        entry(
            "event-001",
            CheckCategory::EventLogging,
            "State changes emit events",
            "Every change of balances or roles publishes an event.",
            Severity::Info,
            DetectionMethod::Manual,
            "Publish an event after each change.",
            guide,
        ),
        entry(
            "upgrade-001",
            CheckCategory::Upgradeability,
            "Guarded code upgrades",
            "The contract's code can be replaced by an upgrade call.",
            Severity::Critical,
            semi_automatic(one("update_current_contract_wasm")),
            "Restrict upgrades to the administrator.",
            guide,
        ),
        entry(
            "cross-001",
            CheckCategory::CrossContractCalls,
            "Untrusted contract calls",
            "Calls to contracts whose address comes from the caller.",
            Severity::High,
            semi_automatic(one("invoke_contract")),
            "Allow only known contract addresses.",
            guide,
        ),
        entry(
            "resource-001",
            CheckCategory::ResourceLimits,
            "Unbounded loops",
            "Loops without a bound may exhaust the call's resource budget.",
            Severity::Medium,
            automatic(one("loop {")),
            "Bound every loop by a constant or a stored limit.",
            guide,
        ),
    ];
    proof {
        assert(texts(Seq::<String>::empty()) =~= Seq::<Seq<char>>::empty());
        assert(standard_item(items@[0], 0));
        assert(standard_item(items@[1], 1));
        assert(standard_item(items@[2], 2));
        assert(standard_item(items@[3], 3));
        assert(standard_item(items@[4], 4));
        assert(standard_item(items@[5], 5));
        assert(standard_item(items@[6], 6));
        assert(standard_item(items@[7], 7));
        assert(standard_item(items@[8], 8));
        assert(standard_item(items@[9], 9));
        assert(standard_item(items@[10], 10));
        assert(standard_item(items@[11], 11));
        assert(standard_item(items@[12], 12));
        assert(standard_item(items@[13], 13));
        lemma_standard_wf(items@);
    }
    items
}

/// The built-in catalog; its items always pass the integrity rules.
pub fn standard_catalog() -> (r: Result<Catalog, CatalogError>)
    ensures
        r matches Ok(c) && is_standard(c@) && catalog_wf(c@),
{
    Catalog::new(standard_items())
}

} // verus!
