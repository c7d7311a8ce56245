//! An election with its label, name and number of questions.

use vstd::prelude::*;

use crate::common::string::MultiLangString;
use crate::ids::EntityId;
use crate::models::election::db::DbElection;

verus! {

/// An election with its label, its name (Thai and English) and how many questions it has.
#[derive(Debug, PartialEq, Eq)]
pub struct CompactElection {
    pub id: EntityId,
    pub label: String,
    pub name: MultiLangString,
    pub question_count: i64,
}

impl CompactElection {
    /// The election of row `table`, which has `question_count` questions.
    pub fn from_table(table: DbElection, question_count: i64) -> (e: CompactElection)
        ensures
            e == (CompactElection {
                id: table.id,
                label: table.label,
                name: MultiLangString { th: table.name_th, en: Some(table.name_en) },
                question_count: question_count,
            }),
    {
        CompactElection {
            id: table.id,
            label: table.label,
            name: MultiLangString { th: table.name_th, en: Some(table.name_en) },
            question_count,
        }
    }
}

} // verus!
