//! The checklist catalog: a fixed, integrity-checked list of checklist items.
use vstd::prelude::*;

use crate::models::{CheckCategory, ChecklistItem, DetectionMethod, patterns_of};
use crate::text::same_text;

verus! {

/// An item detected by patterns has at least one pattern.
pub open spec fn item_ok(it: ChecklistItem) -> bool {
    match it.detection {
        DetectionMethod::Manual => true,
        _ => patterns_of(it.detection).len() > 0,
    }
}

/// No two items share an id.
pub open spec fn ids_unique(items: Seq<ChecklistItem>) -> bool {
    forall|i: int, j: int| 0 <= i < j < items.len() ==> items[i].id@ != items[j].id@
}

/// The integrity rules of a catalog.
pub open spec fn catalog_wf(items: Seq<ChecklistItem>) -> bool {
    &&& ids_unique(items)
    &&& forall|i: int| 0 <= i < items.len() ==> item_ok(#[trigger] items[i])
}

/// Why a list of items cannot form a catalog.
#[derive(Debug)]
pub enum CatalogError {
    /// Two items have this id.
    DuplicateId { id: String },
    /// The item with this id is detected by patterns but has none.
    EmptyPatterns { id: String },
}

/// What an error says of the items it was raised on.
pub open spec fn error_fits(items: Seq<ChecklistItem>, e: CatalogError) -> bool {
    match e {
        CatalogError::DuplicateId { id } => {
            &&& exists|i: int, j: int|
                0 <= i < j < items.len() && items[i].id@ == id@ && items[j].id@ == id@
            &&& forall|i: int| 0 <= i < items.len() ==> item_ok(#[trigger] items[i])
        },
        CatalogError::EmptyPatterns { id } => exists|i: int|
            0 <= i < items.len() && !item_ok(#[trigger] items[i]) && items[i].id@ == id@,
    }
}

/// Position of the first item whose id is `id`.
pub open spec fn position_of(items: Seq<ChecklistItem>, id: Seq<char>) -> Option<int> {
    if exists|i: int| 0 <= i < items.len() && #[trigger] items[i].id@ == id {
        Some(choose|i: int| 0 <= i < items.len() && #[trigger] items[i].id@ == id
            && forall|j: int| 0 <= j < i ==> items[j].id@ != id)
    } else {
        None
    }
}

/// The immutable checklist catalog.
pub struct Catalog {
    items: Vec<ChecklistItem>,
}

impl View for Catalog {
    type V = Seq<ChecklistItem>;

    closed spec fn view(&self) -> Seq<ChecklistItem> {
        self.items@
    }
}

impl Catalog {
    #[verifier::type_invariant]
    closed spec fn inv(&self) -> bool {
        catalog_wf(self.items@)
    }

    /// Builds a catalog, refusing items that break its integrity rules.
    pub fn new(items: Vec<ChecklistItem>) -> (r: Result<Catalog, CatalogError>)
        ensures
            match r {
                Ok(c) => catalog_wf(items@) && c@ == items@,
                Err(e) => !catalog_wf(items@) && error_fits(items@, e),
            },
    {
        let n = items.len();
        let mut i: usize = 0;
        while i < n
            invariant
                n == items@.len(),
                i <= n,
                forall|k: int| 0 <= k < i ==> item_ok(#[trigger] items@[k]),
            decreases n - i,
        {
            let ok = match &items[i].detection {
                DetectionMethod::Automatic { patterns } => patterns.len() > 0,
                DetectionMethod::Manual => true,
                DetectionMethod::SemiAutomatic { patterns } => patterns.len() > 0,
            };
            if !ok {
                let id = items[i].id.clone();
                return Err(CatalogError::EmptyPatterns { id });
            }
            i = i + 1;
        }
        let mut j: usize = 0;
        while j < n
            invariant
                n == items@.len(),
                j <= n,
                forall|k: int| 0 <= k < n ==> item_ok(#[trigger] items@[k]),
                forall|a: int, b: int| 0 <= a < b < j ==> items@[a].id@ != items@[b].id@,
            decreases n - j,
        {
            let mut a: usize = 0;
            while a < j
                invariant
                    n == items@.len(),
                    a <= j < n,
                    forall|k: int| 0 <= k < n ==> item_ok(#[trigger] items@[k]),
                    forall|x: int| 0 <= x < a ==> items@[x].id@ != items@[j as int].id@,
                decreases j - a,
            {
                if same_text(&items[a].id, &items[j].id) {
                    let id = items[j].id.clone();
                    assert(items@[a as int].id@ == id@ && items@[j as int].id@ == id@);
                    return Err(CatalogError::DuplicateId { id });
                }
                a = a + 1;
            }
            j = j + 1;
        }
        Ok(Catalog { items })
    }

    /// The items, in catalog order.
    pub fn all_items(&self) -> (r: &Vec<ChecklistItem>)
        ensures
            r@ == self@,
            catalog_wf(self@),
    {
        proof {
            use_type_invariant(self);
        }
        &self.items
    }

    /// Number of items.
    pub fn len(&self) -> (r: usize)
        ensures
            r == self@.len(),
            catalog_wf(self@),
    {
        proof {
            use_type_invariant(self);
        }
        self.items.len()
    }

    /// Position of the item with the given id.
    pub fn position(&self, id: &str) -> (r: Option<usize>)
        ensures
            match r {
                Some(i) => position_of(self@, id@) == Some(i as int) && i < self@.len()
                    && self@[i as int].id@ == id@,
                None => position_of(self@, id@) is None,
            },
    {
        let key = String::from_str(id);
        let mut i: usize = 0;
        while i < self.items.len()
            invariant
                i <= self@.len(),
                key@ == id@,
                self@ == self.items@,
                forall|j: int| 0 <= j < i ==> self@[j].id@ != id@,
            decreases self@.len() - i,
        {
            if same_text(&self.items[i].id, &key) {
                proof {
                    let k = choose|k: int| 0 <= k < self@.len() && #[trigger] self@[k].id@ == id@
                        && forall|j: int| 0 <= j < k ==> self@[j].id@ != id@;
                    assert(k == i as int) by {
                        if k < i {
                        } else if k > i {
                            assert(self@[i as int].id@ == id@);
                        }
                    }
                }
                return Some(i);
            }
            i = i + 1;
        }
        None
    }

    /// The item with the given id.
    pub fn get(&self, id: &str) -> (r: Option<&ChecklistItem>)
        ensures
            match position_of(self@, id@) {
                Some(i) => r == Some(&self@[i]),
                None => r is None,
            },
    {
        match self.position(id) {
            Some(i) => Some(&self.items[i]),
            None => None,
        }
    }

    /// Positions, in ascending order, of the items of one category.
    pub fn positions_in_category(&self, c: CheckCategory) -> (r: Vec<usize>)
        ensures
            forall|k: int| 0 <= k < r@.len() ==> r@[k] < self@.len() && self@[r@[k] as int].category == c,
            forall|k: int, l: int| 0 <= k < l < r@.len() ==> r@[k] < r@[l],
            forall|i: int| 0 <= i < self@.len() && self@[i].category == c ==> r@.contains(i as usize),
    {
        let mut r: Vec<usize> = Vec::new();
        let mut i: usize = 0;
        while i < self.items.len()
            invariant
                i <= self@.len(),
                self@ == self.items@,
                forall|k: int| 0 <= k < r@.len() ==> r@[k] < i && self@[r@[k] as int].category == c,
                forall|k: int, l: int| 0 <= k < l < r@.len() ==> r@[k] < r@[l],
                forall|j: int| 0 <= j < i && self@[j].category == c ==> r@.contains(j as usize),
            decreases self@.len() - i,
        {
            if self.items[i].category == c {
                let ghost prev = r@;
                r.push(i);
                proof {
                    assert(r@ == prev.push(i));
                    assert(r@[r@.len() - 1] == i);
                    assert forall|j: int| 0 <= j < i + 1 && self@[j].category == c implies r@.contains(j as usize) by {
                        if j < i {
                            let w = choose|w: int| 0 <= w < prev.len() && prev[w] == j as usize;
                            assert(r@[w] == j as usize);
                        } else {
                            assert(r@[r@.len() - 1] == j as usize);
                        }
                    }
                }
            }
            i = i + 1;
        }
        r
    }
}

} // verus!
