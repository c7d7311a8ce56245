//! A question with its election, text, eligibility and candidates.

use vstd::prelude::*;

use crate::common::string::MultiLangString;
use crate::ids::EntityId;
use crate::models::question::db::DbQuestion;

verus! {

/// A question with its election and candidates, in the shapes `E` and `C` the
/// caller fetched them in, its text (Thai and English) and who may answer it.
#[derive(Debug)]
pub struct DefaultQuestion<E, C> {
    pub id: EntityId,
    pub election: E,
    pub question: MultiLangString,
    pub faculty_code: String,
    pub student_year_start: i64,
    pub student_year_end: i64,
    pub student_program: String,
    pub candidates: Vec<C>,
}

impl<E, C> DefaultQuestion<E, C> {
    /// The question of row `table`, with `election` (fetched by the row's
    /// `election_id`) and `candidates` (fetched by the identifiers of the
    /// question's candidates).
    pub fn from_table(table: DbQuestion, election: E, candidates: Vec<C>) -> (q: DefaultQuestion<E, C>)
        ensures
            q == (DefaultQuestion {
                id: table.id,
                election: election,
                question: MultiLangString { th: table.question_th, en: Some(table.question_en) },
                faculty_code: table.faculty_code,
                student_year_start: table.student_year_start as i64,
                student_year_end: table.student_year_end as i64,
                student_program: table.student_program,
                candidates: candidates,
            }),
    {
        DefaultQuestion {
            id: table.id,
            election,
            question: MultiLangString { th: table.question_th, en: Some(table.question_en) },
            faculty_code: table.faculty_code,
            student_year_start: table.student_year_start as i64,
            student_year_end: table.student_year_end as i64,
            student_program: table.student_program,
            candidates,
        }
    }
}

} // verus!
