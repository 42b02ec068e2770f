//! Pattern detection: which checklist items a source text trips.
use vstd::prelude::*;

use crate::catalog::Catalog;
use crate::models::{ChecklistItem, DetectionMethod, patterns_of};

verus! {

/// `p` occurs in `s` as a contiguous run of characters.
pub open spec fn contains_text(s: Seq<char>, p: Seq<char>) -> bool {
    exists|i: int| 0 <= i && i + p.len() <= s.len() && #[trigger] s.subrange(i, i + p.len()) == p
}

/// The texts of a sequence of strings.
pub open spec fn texts(v: Seq<String>) -> Seq<Seq<char>> {
    v.map_values(|x: String| x@)
}

/// `k` is the first pattern of `pats` that occurs in `s`.
pub open spec fn is_first_hit(s: Seq<char>, pats: Seq<Seq<char>>, k: int) -> bool {
    &&& 0 <= k < pats.len()
    &&& contains_text(s, pats[k])
    &&& forall|j: int| 0 <= j < k ==> !contains_text(s, #[trigger] pats[j])
}

/// Position of the first pattern that occurs in `s`, if any does.
pub open spec fn first_hit(s: Seq<char>, pats: Seq<Seq<char>>) -> Option<int> {
    if exists|k: int| is_first_hit(s, pats, k) {
        Some(choose|k: int| is_first_hit(s, pats, k))
    } else {
        None
    }
}

/// Result of matching one item against a source text.
#[derive(Debug)]
pub enum DetectionOutcome {
    /// A pattern occurs in the source; `evidence` is that pattern.
    MatchFound { evidence: String },
    /// No pattern occurs in the source.
    NoMatch,
}

/// What an outcome says: the matched pattern, or none.
pub open spec fn outcome_view(o: DetectionOutcome) -> Option<Seq<char>> {
    match o {
        DetectionOutcome::MatchFound { evidence } => Some(evidence@),
        DetectionOutcome::NoMatch => None,
    }
}

/// What detection says of an item: nothing for a manual one, else the first
/// of its patterns that occurs in the source, if any.
pub open spec fn detect_spec(s: Seq<char>, d: DetectionMethod) -> Option<Option<Seq<char>>> {
    match d {
        DetectionMethod::Manual => None,
        _ => Some(
            match first_hit(s, texts(patterns_of(d))) {
                Some(k) => Some(texts(patterns_of(d))[k]),
                None => None,
            },
        ),
    }
}

/// What a detection result says.
pub open spec fn result_view(r: Option<DetectionOutcome>) -> Option<Option<Seq<char>>> {
    match r {
        Some(o) => Some(outcome_view(o)),
        None => None,
    }
}

/// Relies on `str::contains` with a `&str` pattern: true exactly when the
/// pattern occurs in the text as a substring.
#[verifier::external_body]
fn text_contains(s: &str, p: &str) -> (r: bool)
    ensures
        r == contains_text(s@, p@),
{
    s.contains(p)
}

proof fn lemma_first_hit_is(s: Seq<char>, pats: Seq<Seq<char>>, k: int)
    requires
        is_first_hit(s, pats, k),
    ensures
        first_hit(s, pats) == Some(k),
{
    let c = choose|c: int| is_first_hit(s, pats, c);
    assert(is_first_hit(s, pats, c));
    if c < k {
        assert(!contains_text(s, pats[c]));
    } else if c > k {
        assert(!contains_text(s, pats[k]));
    }
}

/// Position of the first of `patterns` that occurs in `source`.
pub fn first_match(source: &str, patterns: &Vec<String>) -> (r: Option<usize>)
    ensures
        match r {
            Some(k) => first_hit(source@, texts(patterns@)) == Some(k as int),
            None => first_hit(source@, texts(patterns@)) is None,
        },
{
    let ghost pats = texts(patterns@);
    let mut i: usize = 0;
    while i < patterns.len()
        invariant
            i <= patterns@.len(),
            pats == texts(patterns@),
            pats.len() == patterns@.len(),
            forall|j: int| 0 <= j < i ==> !contains_text(source@, #[trigger] pats[j]),
        decreases patterns@.len() - i,
    {
        if text_contains(source, patterns[i].as_str()) {
            proof {
                assert(pats[i as int] == patterns@[i as int]@);
                lemma_first_hit_is(source@, pats, i as int);
            }
            return Some(i);
        }
        assert(pats[i as int] == patterns@[i as int]@);
        i = i + 1;
    }
    proof {
        if exists|k: int| is_first_hit(source@, pats, k) {
            let k = choose|k: int| is_first_hit(source@, pats, k);
            assert(!contains_text(source@, pats[k]));
        }
    }
    None
}

/// Runs detection of one item over a source text.
pub fn detect_item(source: &str, item: &ChecklistItem) -> (r: Option<DetectionOutcome>)
    ensures
        result_view(r) == detect_spec(source@, item.detection),
{
    let patterns = match &item.detection {
        DetectionMethod::Manual => {
            return None;
        },
        DetectionMethod::Automatic { patterns } => patterns,
        DetectionMethod::SemiAutomatic { patterns } => patterns,
    };
    assert(patterns@ == patterns_of(item.detection));
    match first_match(source, patterns) {
        Some(k) => {
            let evidence = patterns[k].clone();
            assert(texts(patterns@)[k as int] == patterns@[k as int]@);
            Some(DetectionOutcome::MatchFound { evidence })
        },
        None => Some(DetectionOutcome::NoMatch),
    }
}

/// Runs detection of every catalog item over a source text, in catalog order.
pub fn detect(source: &str, catalog: &Catalog) -> (r: Vec<Option<DetectionOutcome>>)
    ensures
        r@.len() == catalog@.len(),
        forall|i: int| 0 <= i < r@.len()
            ==> result_view(#[trigger] r@[i]) == detect_spec(source@, catalog@[i].detection),
{
    let items = catalog.all_items();
    let mut r: Vec<Option<DetectionOutcome>> = Vec::new();
    let mut i: usize = 0;
    while i < items.len()
        invariant
            items@ == catalog@,
            i <= items@.len(),
            r@.len() == i,
            forall|j: int| 0 <= j < i
                ==> result_view(#[trigger] r@[j]) == detect_spec(source@, catalog@[j].detection),
        decreases items@.len() - i,
    {
        let o = detect_item(source, &items[i]);
        r.push(o);
        i = i + 1;
    }
    r
}

/// Detection is a function of the source text and the catalog: two runs on
/// the same text and catalog give the same outcomes.
pub proof fn lemma_detection_deterministic(
    source: Seq<char>,
    items: Seq<ChecklistItem>,
    r1: Seq<Option<DetectionOutcome>>,
    r2: Seq<Option<DetectionOutcome>>,
)
    requires
        r1.len() == items.len(),
        r2.len() == items.len(),
        forall|i: int| 0 <= i < r1.len() ==> result_view(#[trigger] r1[i]) == detect_spec(source, items[i].detection),
        forall|i: int| 0 <= i < r2.len() ==> result_view(#[trigger] r2[i]) == detect_spec(source, items[i].detection),
    ensures
        r1.map_values(|o: Option<DetectionOutcome>| result_view(o))
            == r2.map_values(|o: Option<DetectionOutcome>| result_view(o)),
{
    assert(r1.map_values(|o: Option<DetectionOutcome>| result_view(o))
        =~= r2.map_values(|o: Option<DetectionOutcome>| result_view(o)));
}

} // verus!
