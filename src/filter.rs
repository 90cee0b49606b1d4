//! The filters that the expense service cannot apply itself, evaluated on one
//! record at a time.
use vstd::prelude::*;

use crate::text::{chars_of, contains_text, has_infix, lower_of, text_eq, to_lower};
use crate::types::Expense;

verus! {

/// Which records to keep with respect to soft deletion.
#[derive(Clone, Copy, Debug, PartialEq, Eq, Structural)]
pub enum DeletedFilter {
    /// Keep only records without a deletion marker.
    Exclude,
    /// Keep every record.
    Include,
    /// Keep only records with a deletion marker.
    Only,
}

/// A text field of a record that search text is looked for in.
#[derive(Clone, Copy, Debug, PartialEq, Eq, Structural)]
pub enum SearchField {
    Description,
    Details,
    Category,
}

/// The mode that a name selects: `"include"` and `"only"` name their modes,
/// anything else means `Exclude`.
pub open spec fn deleted_filter_of(name: Seq<char>) -> DeletedFilter {
    if name == "include"@ {
        DeletedFilter::Include
    } else if name == "only"@ {
        DeletedFilter::Only
    } else {
        DeletedFilter::Exclude
    }
}

/// The search field that a name selects, if any.
pub open spec fn search_field_of(name: Seq<char>) -> Option<SearchField> {
    if name == "description"@ {
        Some(SearchField::Description)
    } else if name == "details"@ {
        Some(SearchField::Details)
    } else if name == "category"@ {
        Some(SearchField::Category)
    } else {
        None
    }
}

impl DeletedFilter {
    /// Reads a mode from its name; an unknown name gives `Exclude`.
    pub fn from_name(name: &str) -> (r: DeletedFilter)
        ensures
            r == deleted_filter_of(name@),
    {
        if text_eq(name, "include") {
            DeletedFilter::Include
        } else if text_eq(name, "only") {
            DeletedFilter::Only
        } else {
            DeletedFilter::Exclude
        }
    }

    /// Whether a record passes this mode.
    pub open spec fn admits(self, e: Expense) -> bool {
        match self {
            DeletedFilter::Exclude => e.deleted_at is None,
            DeletedFilter::Include => true,
            DeletedFilter::Only => e.deleted_at is Some,
        }
    }
}

impl SearchField {
    /// Reads a search field from its name.
    pub fn from_name(name: &str) -> (r: Option<SearchField>)
        ensures
            r == search_field_of(name@),
    {
        if text_eq(name, "description") {
            Some(SearchField::Description)
        } else if text_eq(name, "details") {
            Some(SearchField::Details)
        } else if text_eq(name, "category") {
            Some(SearchField::Category)
        } else {
            None
        }
    }

    /// Whether the lower-cased content of this field of `e` holds `needle`.
    /// A record without details never matches on details.
    pub open spec fn hit(self, e: Expense, needle: Seq<char>) -> bool {
        match self {
            SearchField::Description => has_infix(lower_of(e.description@), needle),
            SearchField::Details => match e.details {
                Some(d) => has_infix(lower_of(d@), needle),
                None => false,
            },
            SearchField::Category => has_infix(lower_of(e.category.name@), needle),
        }
    }
}

/// The fields that a list of names selects, in order; unknown names are left out.
pub open spec fn search_fields_of(names: Seq<String>) -> Seq<SearchField>
    decreases names.len(),
{
    if names.len() == 0 {
        Seq::empty()
    } else {
        let rest = search_fields_of(names.drop_last());
        match search_field_of(names.last()@) {
            Some(f) => rest.push(f),
            None => rest,
        }
    }
}

/// The fields searched when a caller names none.
pub open spec fn default_search_fields() -> Seq<SearchField> {
    seq![SearchField::Description, SearchField::Details, SearchField::Category]
}

/// The filters applied on the client side: deletion visibility, a set of
/// category ids, and a lower-cased search text with the fields to look in.
pub struct RecordFilter {
    pub deleted: DeletedFilter,
    pub category_ids: Option<Vec<i64>>,
    pub search: Option<Vec<char>>,
    pub search_fields: Vec<SearchField>,
}

impl RecordFilter {
    /// Whether the record's category passes the category filter.
    pub open spec fn category_admits(self, e: Expense) -> bool {
        match self.category_ids {
            Some(ids) => ids@.contains(e.category.id),
            None => true,
        }
    }

    /// Whether the record passes the text search: with no search text every
    /// record does; otherwise some searched field must hold the text.
    pub open spec fn search_admits(self, e: Expense) -> bool {
        match self.search {
            Some(needle) => exists|i: int|
                0 <= i < self.search_fields@.len() && #[trigger] self.search_fields@[i].hit(
                    e,
                    needle@,
                ),
            None => true,
        }
    }

    /// A record is accepted when it passes every active check.
    pub open spec fn accepts_spec(self, e: Expense) -> bool {
        &&& self.deleted.admits(e)
        &&& self.category_admits(e)
        &&& self.search_admits(e)
    }

    /// Whether any check can reject a record, so that records must be
    /// looked at on the client side.
    pub open spec fn is_active(self) -> bool {
        self.search is Some || self.category_ids is Some || self.deleted != DeletedFilter::Include
    }

    /// Builds the filter from a caller's options. The search text is
    /// lower-cased; with no search fields named, description, details and
    /// category name are searched; unknown field names are ignored.
    pub fn new(
        deleted: Option<&str>,
        category_ids: Option<Vec<i64>>,
        search_text: Option<&str>,
        search_fields: Option<&Vec<String>>,
    ) -> (r: RecordFilter)
        ensures
            r.deleted == match deleted {
                Some(name) => deleted_filter_of(name@),
                None => DeletedFilter::Exclude,
            },
            r.category_ids == category_ids,
            r.search is Some <==> search_text is Some,
            search_text is Some ==> r.search->0@ == lower_of(search_text->0@),
            r.search_fields@ == match search_fields {
                Some(names) => search_fields_of(names@),
                None => default_search_fields(),
            },
    {
        let mode = match deleted {
            Some(name) => DeletedFilter::from_name(name),
            None => DeletedFilter::Exclude,
        };
        let search = match search_text {
            Some(t) => {
                let lower = to_lower(t);
                Some(chars_of(lower.as_str()))
            },
            None => None,
        };
        let fields = match search_fields {
            Some(names) => parse_search_fields(names),
            None => {
                let mut v: Vec<SearchField> = Vec::new();
                v.push(SearchField::Description);
                v.push(SearchField::Details);
                v.push(SearchField::Category);
                assert(v@ =~= default_search_fields());
                v
            },
        };
        RecordFilter { deleted: mode, category_ids, search, search_fields: fields }
    }

    /// The unsupported-filter check of one record: deletion visibility, then
    /// category membership, then text search.
    pub fn accepts(&self, e: &Expense) -> (r: bool)
        ensures
            r == self.accepts_spec(*e),
    {
        let visible = match self.deleted {
            DeletedFilter::Exclude => e.deleted_at.is_none(),
            DeletedFilter::Include => true,
            DeletedFilter::Only => e.deleted_at.is_some(),
        };
        if !visible {
            return false;
        }
        match &self.category_ids {
            Some(ids) => {
                if !contains_id(ids, e.category.id) {
                    return false;
                }
            },
            None => {},
        }
        match &self.search {
            Some(needle) => self.search_hits(e, needle),
            None => true,
        }
    }

    /// Whether some searched field of `e` holds `needle`.
    fn search_hits(&self, e: &Expense, needle: &Vec<char>) -> (r: bool)
        ensures
            r == exists|i: int|
                0 <= i < self.search_fields@.len() && #[trigger] self.search_fields@[i].hit(
                    *e,
                    needle@,
                ),
    {
        let n = self.search_fields.len();
        for i in 0..n
            invariant
                n == self.search_fields@.len(),
                forall|k: int| 0 <= k < i ==> !#[trigger] self.search_fields@[k].hit(*e, needle@),
        {
            if field_hit(self.search_fields[i], e, needle) {
                return true;
            }
        }
        false
    }
}

/// Whether the lower-cased content of `field` in `e` holds `needle`.
fn field_hit(field: SearchField, e: &Expense, needle: &Vec<char>) -> (r: bool)
    ensures
        r == field.hit(*e, needle@),
{
    match field {
        SearchField::Description => contains_text(to_lower(e.description.as_str()).as_str(), needle),
        SearchField::Details => match &e.details {
            Some(d) => contains_text(to_lower(d.as_str()).as_str(), needle),
            None => false,
        },
        SearchField::Category => contains_text(
            to_lower(e.category.name.as_str()).as_str(),
            needle,
        ),
    }
}

/// Whether `id` is among `ids`.
fn contains_id(ids: &Vec<i64>, id: i64) -> (r: bool)
    ensures
        r == ids@.contains(id),
{
    let n = ids.len();
    for i in 0..n
        invariant
            n == ids@.len(),
            forall|k: int| 0 <= k < i ==> ids@[k] != id,
    {
        if ids[i] == id {
            assert(ids@[i as int] == id);
            return true;
        }
    }
    false
}

/// The search fields that `names` selects, in order.
fn parse_search_fields(names: &Vec<String>) -> (r: Vec<SearchField>)
    ensures
        r@ == search_fields_of(names@),
{
    let mut out: Vec<SearchField> = Vec::new();
    let n = names.len();
    for i in 0..n
        invariant
            n == names@.len(),
            out@ == search_fields_of(names@.take(i as int)),
    {
        assert(names@.take(i + 1).drop_last() =~= names@.take(i as int));
        match SearchField::from_name(names[i].as_str()) {
            Some(f) => out.push(f),
            None => {},
        }
    }
    assert(names@.take(n as int) =~= names@);
    out
}

} // verus!
