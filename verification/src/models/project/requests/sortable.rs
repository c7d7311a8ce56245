//! The keys by which projects can be sorted.

use vstd::prelude::*;
use vstd::string::*;

verus! {

/// A key by which projects can be sorted; each names a column of the table.
#[derive(Debug, Clone, Copy, PartialEq, Eq)]
pub enum SortableProject {
    Id,
    CreatedAt,
    Name,
}

impl SortableProject {
    /// The column this key sorts by.
    pub open spec fn column(self) -> Seq<char> {
        match self {
            SortableProject::Id => "id"@,
            SortableProject::CreatedAt => "created_at"@,
            SortableProject::Name => "name"@,
        }
    }

    /// The column this key sorts by, as `Display` writes the key.
    pub fn to_string(&self) -> (s: String)
        ensures
            s@ == self.column(),
    {
        match self {
            SortableProject::Id => String::from_str("id"),
            SortableProject::CreatedAt => String::from_str("created_at"),
            SortableProject::Name => String::from_str("name"),
        }
    }

    /// Each key sorts by the column of its own name, written in snake case.
    pub proof fn lemma_columns_named()
        ensures
            SortableProject::Id.column() == "id"@,
            SortableProject::CreatedAt.column() == "created_at"@,
            SortableProject::Name.column() == "name"@,
    {
    }

    /// Different keys sort by different columns.
    pub proof fn lemma_columns_distinct(a: SortableProject, b: SortableProject)
        ensures
            a.column() == b.column() ==> a == b,
    {
        reveal_strlit("id");
        reveal_strlit("created_at");
        reveal_strlit("name");
        // The columns differ in length, in their first character or in their last.
        if a.column() == b.column() {
            assert(a.column().len() == b.column().len());
            assert(a.column()[0] == b.column()[0]);
            assert(a.column().last() == b.column().last());
        }
    }
}

impl Default for SortableProject {
    /// Sorting is by identifier unless a key is given.
    fn default() -> (k: Self)
        ensures
            k == SortableProject::Id,
    {
        SortableProject::Id
    }
}

} // verus!
