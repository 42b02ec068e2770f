//! Scoring: weighted share of passed checks, per category and overall.
//!
//! A check weighs by its severity (see `weight_of`). Checks marked not
//! applicable are left out; pending ones count as not passed. A score is the
//! exact ratio `100 * passed weight / applicable weight` percent, and 100
//! where no applicable check is left; it is carried as its two weight sums,
//! with a display value in hundredths of a percent, rounded down.
use vstd::prelude::*;

use crate::models::{
    CATEGORY_COUNT, AuditRecord, CategoryScore, CheckCategory, CheckStatus, ChecklistItem, AuditCheckRow,
    Severity, category_at, weight_of,
};

verus! {

/// What scoring reads of one check.
#[derive(Debug, Clone, Copy, PartialEq, Eq, Structural)]
pub struct ScoreEntry {
    pub category: CheckCategory,
    pub severity: Severity,
    pub status: CheckStatus,
}

/// Which checks a sum runs over.
#[derive(Debug, Clone, Copy, PartialEq, Eq, Structural)]
pub enum Scope {
    All,
    Only(CheckCategory),
    Except(CheckCategory),
}

/// Which checks of the scope are counted.
#[derive(Debug, Clone, Copy, PartialEq, Eq, Structural)]
pub enum Measure {
    Members,
    Applicable,
    Passed,
    FailedAt(Severity),
}

/// Check `x` lies in scope `s`.
pub open spec fn in_scope(x: ScoreEntry, s: Scope) -> bool {
    match s {
        Scope::All => true,
        Scope::Only(c) => x.category == c,
        Scope::Except(c) => x.category != c,
    }
}

/// Measure `m` counts check `x`.
pub open spec fn counts(x: ScoreEntry, m: Measure) -> bool {
    match m {
        Measure::Members => true,
        Measure::Applicable => x.status != CheckStatus::NotApplicable,
        Measure::Passed => x.status == CheckStatus::Passed,
        Measure::FailedAt(v) => x.status == CheckStatus::Failed && x.severity == v,
    }
}

/// Number of checks of the scope that the measure counts.
pub open spec fn count_of(e: Seq<ScoreEntry>, s: Scope, m: Measure) -> nat
    decreases e.len(),
{
    if e.len() == 0 {
        0
    } else {
        count_of(e.drop_last(), s, m) + if in_scope(e.last(), s) && counts(e.last(), m) { 1nat } else { 0nat }
    }
}

/// What one check adds to a weight sum.
pub open spec fn share(x: ScoreEntry, s: Scope, m: Measure) -> nat {
    if in_scope(x, s) && counts(x, m) { weight_of(x.severity) } else { 0 }
}

/// Total weight of the checks of the scope that the measure counts.
pub open spec fn weight_sum(e: Seq<ScoreEntry>, s: Scope, m: Measure) -> nat
    decreases e.len(),
{
    if e.len() == 0 {
        0
    } else {
        weight_sum(e.drop_last(), s, m) + share(e.last(), s, m)
    }
}

/// `num / den` in hundredths of a percent, rounded down; 10000 for `den == 0`.
pub open spec fn ratio(num: nat, den: nat) -> nat {
    if den == 0 { 10000 } else { (10000 * num) / den }
}

/// Display value of the score of a scope, in hundredths of a percent.
pub open spec fn score_of(e: Seq<ScoreEntry>, s: Scope) -> nat {
    ratio(weight_sum(e, s, Measure::Passed), weight_sum(e, s, Measure::Applicable))
}

/// The checks of an audit as scoring reads them: item `i` with row `i`.
pub open spec fn entries_of(items: Seq<ChecklistItem>, rows: Seq<AuditCheckRow>) -> Seq<ScoreEntry> {
    Seq::new(
        rows.len(),
        |i: int| ScoreEntry { category: items[i].category, severity: items[i].severity, status: rows[i].status },
    )
}

/// The categories among the first `k` of the reporting order that have checks.
pub open spec fn present_upto(e: Seq<ScoreEntry>, k: int) -> Seq<CheckCategory>
    decreases k,
{
    if k <= 0 {
        Seq::empty()
    } else {
        present_upto(e, k - 1) + if count_of(e, Scope::Only(category_at(k - 1)), Measure::Members) > 0 {
            seq![category_at(k - 1)]
        } else {
            Seq::empty()
        }
    }
}

/// The categories that have checks, in reporting order.
pub open spec fn present_categories(e: Seq<ScoreEntry>) -> Seq<CheckCategory> {
    present_upto(e, CATEGORY_COUNT as int)
}

/// `cs` is the score of its category over `e`.
pub open spec fn is_score_of(cs: CategoryScore, e: Seq<ScoreEntry>) -> bool {
    let s = Scope::Only(cs.category);
    &&& cs.earned == weight_sum(e, s, Measure::Passed)
    &&& cs.possible == weight_sum(e, s, Measure::Applicable)
    &&& cs.score == score_of(e, s)
    &&& cs.passed == count_of(e, s, Measure::Passed)
    &&& cs.total == count_of(e, s, Measure::Applicable)
    &&& cs.failed_critical == count_of(e, s, Measure::FailedAt(Severity::Critical))
    &&& cs.failed_high == count_of(e, s, Measure::FailedAt(Severity::High))
}

/// `rec` carries the overall score of `e`: its two weight sums and its
/// display value.
pub open spec fn record_scored(rec: AuditRecord, e: Seq<ScoreEntry>) -> bool {
    &&& rec.overall_earned == weight_sum(e, Scope::All, Measure::Passed)
    &&& rec.overall_possible == weight_sum(e, Scope::All, Measure::Applicable)
    &&& rec.overall_score == score_of(e, Scope::All)
}

/// Sums and counts over one scope.
pub struct Tally {
    pub members: usize,
    pub applicable: usize,
    pub passed: usize,
    pub failed_critical: usize,
    pub failed_high: usize,
    pub earned: u128,
    pub possible: u128,
}

/// `t` holds the counts and sums of scope `s` over `e`.
pub open spec fn is_tally_of(t: Tally, e: Seq<ScoreEntry>, s: Scope) -> bool {
    &&& t.members == count_of(e, s, Measure::Members)
    &&& t.applicable == count_of(e, s, Measure::Applicable)
    &&& t.passed == count_of(e, s, Measure::Passed)
    &&& t.failed_critical == count_of(e, s, Measure::FailedAt(Severity::Critical))
    &&& t.failed_high == count_of(e, s, Measure::FailedAt(Severity::High))
    &&& t.earned == weight_sum(e, s, Measure::Passed)
    &&& t.possible == weight_sum(e, s, Measure::Applicable)
}

fn scope_holds(x: &ScoreEntry, s: Scope) -> (r: bool)
    ensures
        r == in_scope(*x, s),
{
    match s {
        Scope::All => true,
        Scope::Only(c) => x.category == c,
        Scope::Except(c) => x.category != c,
    }
}

/// Counts and sums the checks of one scope.
pub fn tally(e: &Vec<ScoreEntry>, s: Scope) -> (t: Tally)
    ensures
        is_tally_of(t, e@, s),
        t.earned <= t.possible,
        t.possible <= 8 * e@.len(),
        t.possible <= 8 * (usize::MAX as int),
{
    let len = e.len();
    let mut t = Tally {
        members: 0,
        applicable: 0,
        passed: 0,
        failed_critical: 0,
        failed_high: 0,
        earned: 0,
        possible: 0,
    };
    let mut i: usize = 0;
    while i < e.len()
        invariant
            i <= e@.len(),
            is_tally_of(t, e@.subrange(0, i as int), s),
            t.members <= i,
            t.applicable <= i,
            t.passed <= i,
            t.failed_critical <= i,
            t.failed_high <= i,
            t.earned <= t.possible,
            t.possible <= 8 * i,
        decreases e@.len() - i,
    {
        let x = e[i];
        let ghost pre = e@.subrange(0, i as int);
        let ghost cur = e@.subrange(0, i as int + 1);
        assert(cur.drop_last() == pre);
        assert(cur.last() == x);
        if scope_holds(&x, s) {
            let w = x.severity.weight() as u128;
            t.members = t.members + 1;
            if x.status != CheckStatus::NotApplicable {
                t.applicable = t.applicable + 1;
                t.possible = t.possible + w;
            }
            if x.status == CheckStatus::Passed {
                t.passed = t.passed + 1;
                t.earned = t.earned + w;
            }
            if x.status == CheckStatus::Failed && x.severity == Severity::Critical {
                t.failed_critical = t.failed_critical + 1;
            }
            if x.status == CheckStatus::Failed && x.severity == Severity::High {
                t.failed_high = t.failed_high + 1;
            }
        }
        i = i + 1;
    }
    assert(e@.subrange(0, e@.len() as int) == e@);
    t
}

/// `num / den` in hundredths of a percent, rounded down; 10000 for `den == 0`.
pub fn ratio_hundredths(num: u128, den: u128) -> (r: u64)
    requires
        num <= den,
        den <= 8 * (usize::MAX as int),
    ensures
        r == ratio(num as nat, den as nat),
        r <= 10000,
{
    if den == 0 {
        10000
    } else {
        assert(10000 * num <= 10000 * den) by (nonlinear_arith)
            requires
                num <= den,
        ;
        assert(10000 * den <= 10000 * 8 * (usize::MAX as int)) by (nonlinear_arith)
            requires
                den <= 8 * (usize::MAX as int),
        ;
        let q = 10000 * num / den;
        assert(q <= 10000) by {
            vstd::arithmetic::div_mod::lemma_div_is_ordered(
                10000 * num as int,
                10000 * den as int,
                den as int,
            );
            vstd::arithmetic::div_mod::lemma_div_by_multiple(10000, den as int);
        }
        q as u64
    }
}

/// Overall score of an audit for a record: its two weight sums over every
/// applicable check, and its display value.
pub fn overall_weights(e: &Vec<ScoreEntry>) -> (r: (u128, u128, u64))
    ensures
        r.0 == weight_sum(e@, Scope::All, Measure::Passed),
        r.1 == weight_sum(e@, Scope::All, Measure::Applicable),
        r.2 == score_of(e@, Scope::All),
{
    let t = tally(e, Scope::All);
    (t.earned, t.possible, ratio_hundredths(t.earned, t.possible))
}

/// Display value of the score of a whole audit, over every applicable check.
pub fn overall_score(e: &Vec<ScoreEntry>) -> (r: u64)
    ensures
        r == score_of(e@, Scope::All),
        r <= 10000,
{
    let t = tally(e, Scope::All);
    ratio_hundredths(t.earned, t.possible)
}

/// Score of one category.
pub fn category_score(e: &Vec<ScoreEntry>, c: CheckCategory) -> (r: CategoryScore)
    ensures
        r.category == c,
        is_score_of(r, e@),
{
    let t = tally(e, Scope::Only(c));
    let score = ratio_hundredths(t.earned, t.possible);
    CategoryScore {
        category: c,
        earned: t.earned,
        possible: t.possible,
        score,
        passed: t.passed,
        total: t.applicable,
        failed_critical: t.failed_critical,
        failed_high: t.failed_high,
    }
}

/// Scores of the categories that have checks, in reporting order.
pub fn category_scores(e: &Vec<ScoreEntry>) -> (r: Vec<CategoryScore>)
    ensures
        r@.len() == present_categories(e@).len(),
        forall|i: int| 0 <= i < r@.len() ==> (#[trigger] r@[i]).category == present_categories(e@)[i]
            && is_score_of(r@[i], e@),
{
    let mut r: Vec<CategoryScore> = Vec::new();
    let mut k: usize = 0;
    while k < CATEGORY_COUNT
        invariant
            k <= CATEGORY_COUNT,
            r@.len() == present_upto(e@, k as int).len(),
            forall|i: int| 0 <= i < r@.len() ==> (#[trigger] r@[i]).category == present_upto(e@, k as int)[i]
                && is_score_of(r@[i], e@),
        decreases CATEGORY_COUNT - k,
    {
        let c = CheckCategory::at(k);
        let t = tally(e, Scope::Only(c));
        if t.members > 0 {
            let cs = category_score(e, c);
            r.push(cs);
        }
        k = k + 1;
    }
    r
}

/// Lists what scoring reads of each check: item `i` with row `i`.
pub fn score_entries(items: &Vec<ChecklistItem>, rows: &Vec<AuditCheckRow>) -> (r: Vec<ScoreEntry>)
    requires
        items@.len() == rows@.len(),
    ensures
        r@ == entries_of(items@, rows@),
{
    let mut r: Vec<ScoreEntry> = Vec::new();
    let mut i: usize = 0;
    while i < rows.len()
        invariant
            items@.len() == rows@.len(),
            i <= rows@.len(),
            r@ == entries_of(items@, rows@).subrange(0, i as int),
        decreases rows@.len() - i,
    {
        let x = ScoreEntry { category: items[i].category, severity: items[i].severity, status: rows[i].status };
        r.push(x);
        i = i + 1;
    }
    assert(r@ == entries_of(items@, rows@));
    r
}

/// Changing check `k` to `y` of the same category and severity changes a
/// weight sum by exactly the two shares.
proof fn lemma_sum_after_update(e: Seq<ScoreEntry>, k: int, y: ScoreEntry, s: Scope, m: Measure)
    requires
        0 <= k < e.len(),
        y.category == e[k].category,
        y.severity == e[k].severity,
    ensures
        weight_sum(e.update(k, y), s, m) + share(e[k], s, m) == weight_sum(e, s, m) + share(y, s, m),
    decreases e.len(),
{
    let e2 = e.update(k, y);
    if k == e.len() - 1 {
        assert(e2.drop_last() == e.drop_last());
    } else {
        assert(e2.drop_last() == e.drop_last().update(k, y));
        lemma_sum_after_update(e.drop_last(), k, y, s, m);
    }
}

proof fn lemma_ratio_monotonic(a: nat, b: nat, d: nat)
    requires
        a <= b,
    ensures
        ratio(a, d) <= ratio(b, d),
{
    if d > 0 {
        assert(10000 * a <= 10000 * b) by (nonlinear_arith)
            requires
                a <= b,
        ;
        vstd::arithmetic::div_mod::lemma_div_is_ordered(10000 * a as int, 10000 * b as int, d as int);
    }
}

/// Check `x` marked passed.
pub open spec fn passed_entry(x: ScoreEntry) -> ScoreEntry {
    ScoreEntry { status: CheckStatus::Passed, ..x }
}

/// The exact score of scope `s` over `after` is not below that over
/// `before`: the same applicable weight, at least the passed weight, and so
/// `100 * passed / applicable` compares the same way once cross-multiplied.
pub open spec fn exact_not_lower(after: Seq<ScoreEntry>, before: Seq<ScoreEntry>, s: Scope) -> bool {
    let p2 = weight_sum(after, s, Measure::Passed);
    let a2 = weight_sum(after, s, Measure::Applicable);
    let p1 = weight_sum(before, s, Measure::Passed);
    let a1 = weight_sum(before, s, Measure::Applicable);
    &&& a2 == a1
    &&& p2 >= p1
    &&& p2 * a1 >= p1 * a2
}

/// Turning one failed check into a passed one, all else fixed, never lowers
/// the overall score nor the score of that check's category, exactly and in
/// the display value.
pub proof fn lemma_pass_never_lowers(e: Seq<ScoreEntry>, k: int)
    requires
        0 <= k < e.len(),
        e[k].status == CheckStatus::Failed,
    ensures
        exact_not_lower(e.update(k, passed_entry(e[k])), e, Scope::All),
        exact_not_lower(e.update(k, passed_entry(e[k])), e, Scope::Only(e[k].category)),
        score_of(e.update(k, passed_entry(e[k])), Scope::All) >= score_of(e, Scope::All),
        score_of(e.update(k, passed_entry(e[k])), Scope::Only(e[k].category))
            >= score_of(e, Scope::Only(e[k].category)),
{
    let y = passed_entry(e[k]);
    let e2 = e.update(k, y);
    let scopes = seq![Scope::All, Scope::Only(e[k].category)];
    assert forall|i: int| 0 <= i < 2 implies score_of(e2, #[trigger] scopes[i]) >= score_of(e, scopes[i])
        && exact_not_lower(e2, e, scopes[i]) by {
        let s = scopes[i];
        lemma_sum_after_update(e, k, y, s, Measure::Applicable);
        lemma_sum_after_update(e, k, y, s, Measure::Passed);
        vstd::arithmetic::mul::lemma_mul_inequality(
            weight_sum(e, s, Measure::Passed) as int,
            weight_sum(e2, s, Measure::Passed) as int,
            weight_sum(e, s, Measure::Applicable) as int,
        );
        lemma_ratio_monotonic(
            weight_sum(e, s, Measure::Passed),
            weight_sum(e2, s, Measure::Passed),
            weight_sum(e, s, Measure::Applicable),
        );
    }
    assert(score_of(e2, scopes[0]) >= score_of(e, scopes[0]) && exact_not_lower(e2, e, scopes[0]));
    assert(score_of(e2, scopes[1]) >= score_of(e, scopes[1]) && exact_not_lower(e2, e, scopes[1]));
}

/// Turning one failed row of an audit into a passed one, all else fixed,
/// never lowers the audit's overall score nor the score of that row's
/// category, exactly and in the display value.
pub proof fn lemma_audit_pass_never_lowers(
    items: Seq<ChecklistItem>,
    rows: Seq<AuditCheckRow>,
    k: int,
    passed: AuditCheckRow,
)
    requires
        rows.len() == items.len(),
        0 <= k < rows.len(),
        rows[k].status == CheckStatus::Failed,
        passed.status == CheckStatus::Passed,
    ensures
        exact_not_lower(entries_of(items, rows.update(k, passed)), entries_of(items, rows), Scope::All),
        exact_not_lower(
            entries_of(items, rows.update(k, passed)),
            entries_of(items, rows),
            Scope::Only(items[k].category),
        ),
        score_of(entries_of(items, rows.update(k, passed)), Scope::All) >= score_of(entries_of(items, rows), Scope::All),
        score_of(entries_of(items, rows.update(k, passed)), Scope::Only(items[k].category))
            >= score_of(entries_of(items, rows), Scope::Only(items[k].category)),
{
    let e = entries_of(items, rows);
    assert(entries_of(items, rows.update(k, passed)) =~= e.update(k, passed_entry(e[k])));
    lemma_pass_never_lowers(e, k);
}

/// Where every check of category `c` is not applicable, that category's
/// applicable weight is zero, so it scores exactly 100 percent (10000
/// hundredths), and it adds nothing to the overall score's denominator.
pub proof fn lemma_vacuous_category(e: Seq<ScoreEntry>, c: CheckCategory)
    requires
        forall|i: int| 0 <= i < e.len() && (#[trigger] e[i]).category == c ==> e[i].status == CheckStatus::NotApplicable,
    ensures
        weight_sum(e, Scope::Only(c), Measure::Applicable) == 0,
        score_of(e, Scope::Only(c)) == 10000,
        weight_sum(e, Scope::All, Measure::Applicable) == weight_sum(e, Scope::Except(c), Measure::Applicable),
    decreases e.len(),
{
    if e.len() > 0 {
        let d = e.drop_last();
        assert forall|i: int| 0 <= i < d.len() && (#[trigger] d[i]).category == c implies d[i].status
            == CheckStatus::NotApplicable by {
            assert(d[i] == e[i]);
        }
        lemma_vacuous_category(d, c);
        assert(e.last() == e[e.len() - 1]);
    }
}

} // verus!
