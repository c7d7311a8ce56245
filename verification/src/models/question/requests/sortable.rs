//! The keys by which questions can be sorted.

use vstd::prelude::*;
use vstd::string::*;

verus! {

/// A key by which questions can be sorted; each names a column of the table.
#[derive(Debug, Clone, Copy, PartialEq, Eq)]
pub enum SortableQuestion {
    Id,
    CreatedAt,
    Label,
    FacultyCode,
    StudentProgram,
    ElectionId,
}

impl SortableQuestion {
    /// The column this key sorts by.
    pub open spec fn column(self) -> Seq<char> {
        match self {
            SortableQuestion::Id => "id"@,
            SortableQuestion::CreatedAt => "created_at"@,
            SortableQuestion::Label => "label"@,
            SortableQuestion::FacultyCode => "faculty_code"@,
            SortableQuestion::StudentProgram => "student_program"@,
            SortableQuestion::ElectionId => "election_id"@,
        }
    }

    /// The column this key sorts by, as `Display` writes the key.
    pub fn to_string(&self) -> (s: String)
        ensures
            s@ == self.column(),
    {
        match self {
            SortableQuestion::Id => String::from_str("id"),
            SortableQuestion::CreatedAt => String::from_str("created_at"),
            SortableQuestion::Label => String::from_str("label"),
            SortableQuestion::FacultyCode => String::from_str("faculty_code"),
            SortableQuestion::StudentProgram => String::from_str("student_program"),
            SortableQuestion::ElectionId => String::from_str("election_id"),
        }
    }

    /// Each key sorts by the column of its own name, written in snake case.
    pub proof fn lemma_columns_named()
        ensures
            SortableQuestion::Id.column() == "id"@,
            SortableQuestion::CreatedAt.column() == "created_at"@,
            SortableQuestion::Label.column() == "label"@,
            SortableQuestion::FacultyCode.column() == "faculty_code"@,
            SortableQuestion::StudentProgram.column() == "student_program"@,
            SortableQuestion::ElectionId.column() == "election_id"@,
    {
    }

    /// Different keys sort by different columns.
    pub proof fn lemma_columns_distinct(a: SortableQuestion, b: SortableQuestion)
        ensures
            a.column() == b.column() ==> a == b,
    {
        reveal_strlit("id");
        reveal_strlit("created_at");
        reveal_strlit("label");
        reveal_strlit("faculty_code");
        reveal_strlit("student_program");
        reveal_strlit("election_id");
        // The columns differ in length, in their first character or in their last.
        if a.column() == b.column() {
            assert(a.column().len() == b.column().len());
            assert(a.column()[0] == b.column()[0]);
            assert(a.column().last() == b.column().last());
        }
    }
}

impl Default for SortableQuestion {
    /// Sorting is by identifier unless a key is given.
    fn default() -> (k: Self)
        ensures
            k == SortableQuestion::Id,
    {
        SortableQuestion::Id
    }
}

} // verus!
