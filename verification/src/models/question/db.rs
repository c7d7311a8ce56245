//! The `questions` table and the statements exported from it.

use vstd::prelude::*;
use vstd::string::*;

use crate::error::Error;
use crate::permissions::authorizer::{ActionType, count_found_any, found_any};
use crate::ids::{EntityId, lemma_uuid_simple_injective, uuid_simple, uuid_hyphenated, uuid_simple_string, uuid_hyphenated_string};
use crate::text::{decimal, pad2, lemma_decimal_injective, lemma_pad2_injective, int_to_decimal, int_to_pad2, string_pop};

verus! {

/// A row of the `questions` table. Times are microseconds since the Unix epoch.
#[derive(Debug)]
pub struct DbQuestion {
    pub id: EntityId,
    pub created_at: Option<i64>,
    pub election_id: EntityId,
    pub question_th: String,
    pub select_amount: i32,
    pub question_en: String,
    pub faculty_code: String,
    pub student_year_start: i32,
    pub student_year_end: i32,
    pub student_program: String,
    pub question_order: i32,
}

/// What the export reads of a question: its columns and how many candidates it has.
#[derive(Debug)]
pub struct QuestionLogicRow {
    pub id: EntityId,
    pub election_id: EntityId,
    pub question_order: i32,
    pub question_th: String,
    pub question_en: String,
    pub faculty_code: String,
    pub student_year_start: i32,
    pub student_year_end: i32,
    pub student_program: String,
    pub select_amount: i32,
    pub candidate_count: Option<i64>,
}

/// The head of the `questionlogic` insert statement.
pub const QUESTIONLOGIC_HEADER: &'static str = "INSERT INTO `questionlogic` (`ElectionID`, `QuestionID`, `QuestionTH`, `QuestionEN`, `QuestionType`, `FacultyCode`, `StudentYear_Start`, `StudentYear_End`, `StudentProgram`, `Dormitory`, `DayNight`) VALUES ";

/// The canonical identifier of a question: the election's identifier in simple
/// form, a hyphen, and the question's order written with at least two digits.
pub open spec fn question_canon_id(election_id: EntityId, question_order: int) -> Seq<char> {
    uuid_simple(election_id) + "-"@ + pad2(question_order)
}

/// Different questions have different canonical identifiers: the identifier
/// determines the election and the question's order.
pub proof fn lemma_question_canon_id_injective(e1: EntityId, o1: int, e2: EntityId, o2: int)
    ensures
        question_canon_id(e1, o1) == question_canon_id(e2, o2) ==> e1 == e2 && o1 == o2,
{
    lemma_uuid_simple_injective(e1, e2);
    lemma_uuid_simple_injective(e2, e1);
    lemma_pad2_injective(o1, o2);
    reveal_strlit("-");
    let s1 = question_canon_id(e1, o1);
    let s2 = question_canon_id(e2, o2);
    if s1 == s2 {
        assert(s1.subrange(0, 32) =~= uuid_simple(e1));
        assert(s2.subrange(0, 32) =~= uuid_simple(e2));
        assert(s1.skip(33) =~= pad2(o1));
        assert(s2.skip(33) =~= pad2(o2));
    }
}

/// The question type: `SELECT<n>` when more than one choice may be selected,
/// otherwise the number of candidates (`0` when no count is known).
pub open spec fn question_type(select_amount: int, candidate_count: Option<i64>) -> Seq<char> {
    if select_amount > 1 {
        "SELECT"@ + decimal(select_amount)
    } else {
        match candidate_count {
            Some(count) => decimal(count as int),
            None => "0"@,
        }
    }
}

/// A question on which more than one choice may be selected has the type
/// `SELECT` followed by how many may be selected, so questions with different
/// select amounts get different types, whatever their candidate counts.
pub proof fn lemma_question_type_names_select_amount(a: int, count_a: Option<i64>, b: int, count_b: Option<i64>)
    requires
        a > 1,
        b > 1,
    ensures
        question_type(a, count_a) == "SELECT"@ + decimal(a),
        question_type(a, count_a) == question_type(b, count_b) <==> a == b,
{
    reveal_strlit("SELECT");
    lemma_decimal_injective(a, b);
    let ta = question_type(a, count_a);
    let tb = question_type(b, count_b);
    if ta == tb {
        assert(ta.skip(6) =~= decimal(a));
        assert(tb.skip(6) =~= decimal(b));
    }
}

/// The tuple a question contributes to the `questionlogic` statement, one value per
/// column of `QUESTIONLOGIC_HEADER` (`Dormitory` and `DayNight` left empty), with its trailing comma.
pub open spec fn questionlogic_value(r: QuestionLogicRow) -> Seq<char> {
    let election = uuid_simple(r.election_id);
    "('"@ + election + "', '"@ + question_canon_id(r.election_id, r.question_order as int)
        + "', '"@ + r.question_th@ + "', '"@ + r.question_en@ + "', '"@
        + question_type(r.select_amount as int, r.candidate_count) + "', '"@ + r.faculty_code@
        + "', "@ + decimal(r.student_year_start as int) + ", "@ + decimal(r.student_year_end as int)
        + ", '"@ + r.student_program@ + "', '', ''),"@
}

/// A question's `questionlogic` tuple opens with its election's identifier and
/// its own: the `QuestionID` value is the question's canonical identifier (as
/// `DbQuestion::get_canon_id` gives it), and the `ElectionID` value is that
/// identifier without its final hyphen and order, its first 32 characters.
pub proof fn lemma_questionlogic_ids(r: QuestionLogicRow)
    ensures
        ({
            let q = question_canon_id(r.election_id, r.question_order as int);
            questionlogic_value(r).take(38 + q.len() as int) == "('"@ + q.take(32) + "', '"@ + q
        }),
{
    let q = question_canon_id(r.election_id, r.question_order as int);
    lemma_uuid_simple_injective(r.election_id, r.election_id);
    reveal_strlit("('");
    reveal_strlit("', '");
    assert(q.take(32) =~= uuid_simple(r.election_id));
    assert(questionlogic_value(r).take(38 + q.len() as int) =~= "('"@ + q.take(32) + "', '"@ + q);
}

/// The tuples of the given questions, in order.
pub open spec fn questionlogic_values(rows: Seq<QuestionLogicRow>) -> Seq<char>
    decreases rows.len(),
{
    if rows.len() == 0 {
        Seq::empty()
    } else {
        questionlogic_values(rows.drop_last()) + questionlogic_value(rows.last())
    }
}

/// The `questionlogic` insert statement: the header, then the tuples, without
/// the comma that ends the last one.
pub open spec fn questionlogic_insert(rows: Seq<QuestionLogicRow>) -> Seq<char> {
    if rows.len() == 0 {
        QUESTIONLOGIC_HEADER@
    } else {
        (QUESTIONLOGIC_HEADER@ + questionlogic_values(rows)).drop_last()
    }
}

fn append_question_type(s: &mut String, select_amount: i32, candidate_count: Option<i64>)
    ensures
        final(s)@ == old(s)@ + question_type(select_amount as int, candidate_count),
{
    if select_amount > 1 {
        s.append("SELECT");
        let n = int_to_decimal(select_amount as i64);
        s.append(n.as_str());
    } else {
        match candidate_count {
            Some(count) => {
                let n = int_to_decimal(count);
                s.append(n.as_str());
            },
            None => {
                s.append("0");
            },
        }
    }
}

fn questionlogic_value_string(r: &QuestionLogicRow) -> (s: String)
    ensures
        s@ == questionlogic_value(*r),
{
    let election = uuid_simple_string(r.election_id);
    let mut canon = uuid_simple_string(r.election_id);
    canon.append("-");
    let order = int_to_pad2(r.question_order as i64);
    canon.append(order.as_str());
    let mut s = String::from_str("('");
    s.append(election.as_str());
    s.append("', '");
    s.append(canon.as_str());
    s.append("', '");
    s.append(r.question_th.as_str());
    s.append("', '");
    s.append(r.question_en.as_str());
    s.append("', '");
    append_question_type(&mut s, r.select_amount, r.candidate_count);
    s.append("', '");
    s.append(r.faculty_code.as_str());
    s.append("', ");
    let start = int_to_decimal(r.student_year_start as i64);
    s.append(start.as_str());
    s.append(", ");
    let end = int_to_decimal(r.student_year_end as i64);
    s.append(end.as_str());
    s.append(", '");
    s.append(r.student_program.as_str());
    s.append("', '', ''),");
    s
}

impl DbQuestion {
    /// Decides whether a user may perform `action` on a question: only owners
    /// and members of the project it belongs to may, whatever the action. The
    /// counts are what the lookups of the user among that project's owners and
    /// among its members returned.
    pub fn authorize(owner_count: Option<i64>, member_count: Option<i64>, action: ActionType) -> (res: Result<(), Error>)
        ensures
            res is Ok <==> found_any(owner_count) || found_any(member_count),
            res matches Err(e) ==> e matches Error::InvalidPermission(source, msg) && source@
                == "Question Authorizer"@ && msg@ == "User is not authorized to create question"@,
    {
        let is_owner = count_found_any(owner_count);
        let is_member = count_found_any(member_count);
        if is_owner || is_member {
            Ok(())
        } else {
            Err(
                Error::InvalidPermission(
                    String::from_str("Question Authorizer"),
                    String::from_str("User is not authorized to create question"),
                ),
            )
        }
    }

    /// The canonical identifier of question `id`, given what the lookup of its
    /// election and order found: `Err(EntityNotFound)` when the question does not exist.
    pub fn get_canon_id(id: EntityId, found: Option<(EntityId, i32)>) -> (res: Result<String, Error>)
        ensures
            match found {
                Some((election_id, question_order)) => res matches Ok(s) && s@ == question_canon_id(
                    election_id,
                    question_order as int,
                ),
                None => res matches Err(Error::EntityNotFound(msg, source)) && msg@ == "Question"@
                    && source@ == "questions/"@ + uuid_hyphenated(id),
            },
    {
        match found {
            Some((election_id, question_order)) => {
                let mut s = uuid_simple_string(election_id);
                s.append("-");
                let order = int_to_pad2(question_order as i64);
                s.append(order.as_str());
                Ok(s)
            },
            None => {
                let mut source = String::from_str("questions/");
                let hyphenated = uuid_hyphenated_string(id);
                source.append(hyphenated.as_str());
                Err(Error::EntityNotFound(String::from_str("Question"), source))
            },
        }
    }

    /// The `questionlogic` insert statement for the given questions.
    pub fn get_canon_questionlogic_insert(rows: &Vec<QuestionLogicRow>) -> (res: String)
        ensures
            res@ == questionlogic_insert(rows@),
    {
        let mut result = String::from_str(QUESTIONLOGIC_HEADER);
        let n = rows.len();
        for i in 0..n
            invariant
                n == rows@.len(),
                result@ == QUESTIONLOGIC_HEADER@ + questionlogic_values(rows@.take(i as int)),
        {
            let value = questionlogic_value_string(&rows[i]);
            result.append(value.as_str());
            proof {
                assert(rows@.take(i + 1).drop_last() =~= rows@.take(i as int));
                assert(rows@.take(i + 1).last() == rows@[i as int]);
            }
        }
        proof {
            assert(rows@.take(n as int) =~= rows@);
        }
        if n > 0 {
            string_pop(&mut result);
        }
        result
    }
}

} // verus!
