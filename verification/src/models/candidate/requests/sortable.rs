//! The keys by which candidates can be sorted.

use vstd::prelude::*;
use vstd::string::*;

verus! {

/// A key by which candidates can be sorted; each names a column of the table.
#[derive(Debug, Clone, Copy, PartialEq, Eq)]
pub enum SortableCandidate {
    Id,
    CreatedAt,
    Title,
    ChoiceLabelTh,
    ChoiceLabelEn,
}

impl SortableCandidate {
    /// The column this key sorts by.
    pub open spec fn column(self) -> Seq<char> {
        match self {
            SortableCandidate::Id => "id"@,
            SortableCandidate::CreatedAt => "created_at"@,
            SortableCandidate::Title => "title"@,
            SortableCandidate::ChoiceLabelTh => "choice_label_th"@,
            SortableCandidate::ChoiceLabelEn => "choice_label_en"@,
        }
    }

    /// The column this key sorts by, as `Display` writes the key.
    pub fn to_string(&self) -> (s: String)
        ensures
            s@ == self.column(),
    {
        match self {
            SortableCandidate::Id => String::from_str("id"),
            SortableCandidate::CreatedAt => String::from_str("created_at"),
            SortableCandidate::Title => String::from_str("title"),
            SortableCandidate::ChoiceLabelTh => String::from_str("choice_label_th"),
            SortableCandidate::ChoiceLabelEn => String::from_str("choice_label_en"),
        }
    }

    /// Each key sorts by the column of its own name, written in snake case.
    pub proof fn lemma_columns_named()
        ensures
            SortableCandidate::Id.column() == "id"@,
            SortableCandidate::CreatedAt.column() == "created_at"@,
            SortableCandidate::Title.column() == "title"@,
            SortableCandidate::ChoiceLabelTh.column() == "choice_label_th"@,
            SortableCandidate::ChoiceLabelEn.column() == "choice_label_en"@,
    {
    }

    /// Different keys sort by different columns.
    pub proof fn lemma_columns_distinct(a: SortableCandidate, b: SortableCandidate)
        ensures
            a.column() == b.column() ==> a == b,
    {
        reveal_strlit("id");
        reveal_strlit("created_at");
        reveal_strlit("title");
        reveal_strlit("choice_label_th");
        reveal_strlit("choice_label_en");
        // The columns differ in length, in their first character or in their last.
        if a.column() == b.column() {
            assert(a.column().len() == b.column().len());
            assert(a.column()[0] == b.column()[0]);
            assert(a.column().last() == b.column().last());
        }
    }
}

impl Default for SortableCandidate {
    /// Sorting is by identifier unless a key is given.
    fn default() -> (k: Self)
        ensures
            k == SortableCandidate::Id,
    {
        SortableCandidate::Id
    }
}

} // verus!
