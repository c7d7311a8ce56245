//! The keys by which elections can be sorted.

use vstd::prelude::*;
use vstd::string::*;

verus! {

/// A key by which elections can be sorted; each names a column of the table.
#[derive(Debug, Clone, Copy, PartialEq, Eq)]
pub enum SortableElection {
    Id,
    CreatedAt,
    NameTh,
    NameEn,
    Label,
    HeaderTh,
    HeaderEn,
    DetailTh,
    DetailEn,
}

impl SortableElection {
    /// The column this key sorts by.
    pub open spec fn column(self) -> Seq<char> {
        match self {
            SortableElection::Id => "id"@,
            SortableElection::CreatedAt => "created_at"@,
            SortableElection::NameTh => "name_th"@,
            SortableElection::NameEn => "name_en"@,
            SortableElection::Label => "label"@,
            SortableElection::HeaderTh => "header_th"@,
            SortableElection::HeaderEn => "header_en"@,
            SortableElection::DetailTh => "detail_th"@,
            SortableElection::DetailEn => "detail_en"@,
        }
    }

    /// The column this key sorts by, as `Display` writes the key.
    pub fn to_string(&self) -> (s: String)
        ensures
            s@ == self.column(),
    {
        match self {
            SortableElection::Id => String::from_str("id"),
            SortableElection::CreatedAt => String::from_str("created_at"),
            SortableElection::NameTh => String::from_str("name_th"),
            SortableElection::NameEn => String::from_str("name_en"),
            SortableElection::Label => String::from_str("label"),
            SortableElection::HeaderTh => String::from_str("header_th"),
            SortableElection::HeaderEn => String::from_str("header_en"),
            SortableElection::DetailTh => String::from_str("detail_th"),
            SortableElection::DetailEn => String::from_str("detail_en"),
        }
    }

    /// Each key sorts by the column of its own name, written in snake case.
    pub proof fn lemma_columns_named()
        ensures
            SortableElection::Id.column() == "id"@,
            SortableElection::CreatedAt.column() == "created_at"@,
            SortableElection::NameTh.column() == "name_th"@,
            SortableElection::NameEn.column() == "name_en"@,
            SortableElection::Label.column() == "label"@,
            SortableElection::HeaderTh.column() == "header_th"@,
            SortableElection::HeaderEn.column() == "header_en"@,
            SortableElection::DetailTh.column() == "detail_th"@,
            SortableElection::DetailEn.column() == "detail_en"@,
    {
    }

    /// Different keys sort by different columns.
    pub proof fn lemma_columns_distinct(a: SortableElection, b: SortableElection)
        ensures
            a.column() == b.column() ==> a == b,
    {
        reveal_strlit("id");
        reveal_strlit("created_at");
        reveal_strlit("name_th");
        reveal_strlit("name_en");
        reveal_strlit("label");
        reveal_strlit("header_th");
        reveal_strlit("header_en");
        reveal_strlit("detail_th");
        reveal_strlit("detail_en");
        // The columns differ in length, in their first character or in their last.
        if a.column() == b.column() {
            assert(a.column().len() == b.column().len());
            assert(a.column()[0] == b.column()[0]);
            assert(a.column().last() == b.column().last());
        }
    }
}

impl Default for SortableElection {
    /// Sorting is by identifier unless a key is given.
    fn default() -> (k: Self)
        ensures
            k == SortableElection::Id,
    {
        SortableElection::Id
    }
}

} // verus!
