//! The `candidates` table and the statements exported from it.

use vstd::prelude::*;
use vstd::string::*;

use crate::error::Error;
use crate::permissions::authorizer::{ActionType, count_found_any, found_any};
use crate::ids::{EntityId, uuid_hyphenated, uuid_hyphenated_string, uuid_simple};
use crate::models::question::db::question_canon_id;
use crate::text::{
    lemma_after_last_is_last_piece, lemma_pad2_pair_injective, after_last, decimal, escape_debug, escape_debug_of, int_to_decimal, int_to_pad2, last_segment,
    pad2, string_pop,
};

verus! {

/// A row of the `candidates` table. Times are microseconds since the Unix epoch.
#[derive(Debug)]
pub struct DbCandidate {
    pub id: EntityId,
    pub created_at: Option<i64>,
    pub question_id: EntityId,
    pub choice_label_th: String,
    pub choice_label_en: String,
    pub title: String,
    pub info_line_1: String,
    pub info_line_2: String,
    pub info_line_3: String,
    pub info_line_4: String,
    pub info_line_5: String,
    pub body_title_1: String,
    pub body_1: String,
    pub body_title_2: String,
    pub body_2: String,
    pub image_file: String,
    pub choice_order: i32,
    pub uploaded_at: Option<i64>,
}

/// What the `candidateinfo` export reads of a candidate, with its canonical
/// identifier and that of its election already looked up.
#[derive(Debug)]
pub struct CandidateInfoRow {
    pub canon_id: String,
    pub election_canon_id: String,
    pub title: String,
    pub info_line_1: String,
    pub info_line_2: String,
    pub info_line_3: String,
    pub info_line_4: String,
    pub info_line_5: String,
    pub body_title_1: String,
    pub body_1: String,
    pub body_title_2: String,
    pub body_2: String,
    pub image_file: String,
}

/// What the `choicemapping` export reads of a candidate, with its canonical
/// identifier and that of its question already looked up.
#[derive(Debug)]
pub struct ChoiceMappingRow {
    pub canon_id: String,
    pub question_canon_id: String,
    pub choice_order: i32,
    pub choice_label_th: String,
    pub choice_label_en: String,
}

/// The head of the `candidateinfo` insert statement.
pub const CANDIDATEINFO_HEADER: &'static str = "INSERT INTO `candidateinfo` (`ID`, `ElectionID`, `Title`, `InfoLine1`, `InfoLine2`, `InfoLine3`, `InfoLine4`, `InfoLine5`, `InfoTitle1`, `infoBody1`, `InfoTitle2`, `infoBody2`, `ImageFile`) VALUES ";

/// The head of the `choicemapping` insert statement.
pub const CHOICEMAPPING_HEADER: &'static str = "INSERT INTO `choicemapping` (`ID`, `QuestionID`, `ChoiceID`, `ChoiceTH`, `ChoiceEN`) VALUES ";

/// The canonical identifier of a candidate: its election's canonical identifier,
/// then the question's order and the candidate's order, each written with at
/// least two digits and preceded by a hyphen.
pub open spec fn candidate_canon_id(election_canon_id: Seq<char>, question_order: int, choice_order: int) -> Seq<char> {
    election_canon_id + "-"@ + pad2(question_order) + "-"@ + pad2(choice_order)
}

/// Within an election, different candidates have different canonical
/// identifiers: the identifier determines the question's order and the
/// candidate's order.
pub proof fn lemma_candidate_canon_id_injective(election: Seq<char>, q1: int, c1: int, q2: int, c2: int)
    ensures
        candidate_canon_id(election, q1, c1) == candidate_canon_id(election, q2, c2) ==> q1 == q2
            && c1 == c2,
{
    lemma_pad2_pair_injective(q1, c1, q2, c2);
    let s1 = candidate_canon_id(election, q1, c1);
    let s2 = candidate_canon_id(election, q2, c2);
    if s1 == s2 {
        let k = (election.len() + "-"@.len()) as int;
        assert(s1.skip(k) =~= pad2(q1) + "-"@ + pad2(c1));
        assert(s2.skip(k) =~= pad2(q2) + "-"@ + pad2(c2));
    }
}

/// Where an election's canonical identifier is its identifier in simple form
/// (as a question's canonical identifier writes it), a candidate's canonical
/// identifier is its question's, a hyphen, and its own order in two digits.
pub proof fn lemma_candidate_canon_id_extends_question(election_id: EntityId, question_order: int, choice_order: int)
    ensures
        candidate_canon_id(uuid_simple(election_id), question_order, choice_order) == question_canon_id(
            election_id,
            question_order,
        ) + "-"@ + pad2(choice_order),
{
    assert(candidate_canon_id(uuid_simple(election_id), question_order, choice_order) =~= question_canon_id(
        election_id,
        question_order,
    ) + "-"@ + pad2(choice_order));
}

/// The name under which a candidate's image is exported: its canonical
/// identifier, a dot, and the extension of the stored file (what follows its last dot).
pub open spec fn image_export_name(canon_id: Seq<char>, image_file: Seq<char>) -> Seq<char> {
    canon_id + "."@ + after_last(image_file, '.')
}

/// Different candidates get different image names: the name determines the
/// candidate's canonical identifier and the extension.
pub proof fn lemma_image_export_name_injective(c1: Seq<char>, f1: Seq<char>, c2: Seq<char>, f2: Seq<char>)
    ensures
        image_export_name(c1, f1) == image_export_name(c2, f2) ==> c1 == c2 && after_last(f1, '.')
            == after_last(f2, '.'),
{
    reveal_strlit(".");
    lemma_after_last_is_last_piece(f1, '.');
    lemma_after_last_is_last_piece(f2, '.');
    let e1 = after_last(f1, '.');
    let e2 = after_last(f2, '.');
    let s1 = image_export_name(c1, f1);
    let s2 = image_export_name(c2, f2);
    if s1 == s2 {
        let n = s1.len();
        if e1.len() < e2.len() {
            assert(s1[n - e1.len() - 1] == '.');
            assert(s2[n - e1.len() - 1] == e2[e2.len() - e1.len() - 1]);
            assert(e2.contains(e2[e2.len() - e1.len() - 1]));
        } else if e2.len() < e1.len() {
            assert(s2[n - e2.len() - 1] == '.');
            assert(s1[n - e2.len() - 1] == e1[e1.len() - e2.len() - 1]);
            assert(e1.contains(e1[e1.len() - e2.len() - 1]));
        } else {
            assert(s1.subrange(0, c1.len() as int) =~= c1);
            assert(s2.subrange(0, c2.len() as int) =~= c2);
            assert(s1.skip((c1.len() + 1) as int) =~= e1);
            assert(s2.skip((c2.len() + 1) as int) =~= e2);
        }
    }
}

/// The tuple a candidate contributes to the `candidateinfo` statement, with its
/// trailing comma, given the two bodies as they are to be written.
pub open spec fn candidateinfo_value(r: CandidateInfoRow, body_1: Seq<char>, body_2: Seq<char>) -> Seq<char> {
    "\n('"@ + r.canon_id@ + "', '"@ + r.election_canon_id@ + "', '"@ + r.title@ + "', '"@
        + r.info_line_1@ + "', '"@ + r.info_line_2@ + "', '"@ + r.info_line_3@ + "', '"@
        + r.info_line_4@ + "', '"@ + r.info_line_5@ + "', '"@ + r.body_title_1@ + "', '"@
        + body_1 + "', '"@ + r.body_title_2@ + "', '"@ + body_2 + "', '"@
        + image_export_name(r.canon_id@, r.image_file@) + "'),"@
}

/// The tuples of the given candidates, in order, with both bodies escaped as
/// `str::escape_debug` escapes them.
pub open spec fn candidateinfo_values(rows: Seq<CandidateInfoRow>) -> Seq<char>
    decreases rows.len(),
{
    if rows.len() == 0 {
        Seq::empty()
    } else {
        let r = rows.last();
        candidateinfo_values(rows.drop_last()) + candidateinfo_value(
            r,
            escape_debug_of(r.body_1@),
            escape_debug_of(r.body_2@),
        )
    }
}

/// Each candidate's tuple in the `candidateinfo` statement carries both of its
/// bodies escaped alike, as `str::escape_debug` escapes them: the tuples of the
/// first `k + 1` rows are those of the first `k`, then row `k`'s tuple with
/// `infoBody1` the escaped `body_1` and `infoBody2` the escaped `body_2`.
pub proof fn lemma_candidateinfo_bodies_escaped(rows: Seq<CandidateInfoRow>, k: int)
    requires
        0 <= k < rows.len(),
    ensures
        candidateinfo_values(rows.take(k + 1)) == candidateinfo_values(rows.take(k)) + candidateinfo_value(
            rows[k],
            escape_debug_of(rows[k].body_1@),
            escape_debug_of(rows[k].body_2@),
        ),
{
    assert(rows.take(k + 1).drop_last() =~= rows.take(k));
    assert(rows.take(k + 1).last() == rows[k]);
}

/// An insert statement: the header, the tuples without the comma that ends the
/// last one, and a closing semicolon.
pub open spec fn insert_statement(header: Seq<char>, values: Seq<char>, count: nat) -> Seq<char> {
    if count == 0 {
        header + ";"@
    } else {
        (header + values).drop_last() + ";"@
    }
}

/// The tuple a candidate contributes to the `choicemapping` statement, with its trailing comma.
pub open spec fn choicemapping_value(r: ChoiceMappingRow) -> Seq<char> {
    "\n('"@ + r.canon_id@ + "', '"@ + r.question_canon_id@ + "', '"@ + decimal(r.choice_order as int)
        + "', '"@ + r.choice_label_th@ + "', '"@ + r.choice_label_en@ + "'),"@
}

/// The tuples of the given candidates, in order.
pub open spec fn choicemapping_values(rows: Seq<ChoiceMappingRow>) -> Seq<char>
    decreases rows.len(),
{
    if rows.len() == 0 {
        Seq::empty()
    } else {
        choicemapping_values(rows.drop_last()) + choicemapping_value(rows.last())
    }
}

/// The name under which a candidate's image is exported.
pub fn image_export_file_name(canon_id: &str, image_file: &str) -> (s: String)
    ensures
        s@ == image_export_name(canon_id@, image_file@),
{
    let mut s = String::from_str(canon_id);
    s.append(".");
    let extension = last_segment(image_file, '.');
    s.append(extension.as_str());
    s
}

/// The tuple a candidate contributes to the `candidateinfo` statement, given
/// the two bodies as they are to be written.
pub fn candidateinfo_value_string(r: &CandidateInfoRow, body_1: &str, body_2: &str) -> (s: String)
    ensures
        s@ == candidateinfo_value(*r, body_1@, body_2@),
{
    let image = image_export_file_name(r.canon_id.as_str(), r.image_file.as_str());
    let mut s = String::from_str("\n('");
    s.append(r.canon_id.as_str());
    s.append("', '");
    s.append(r.election_canon_id.as_str());
    s.append("', '");
    s.append(r.title.as_str());
    s.append("', '");
    s.append(r.info_line_1.as_str());
    s.append("', '");
    s.append(r.info_line_2.as_str());
    s.append("', '");
    s.append(r.info_line_3.as_str());
    s.append("', '");
    s.append(r.info_line_4.as_str());
    s.append("', '");
    s.append(r.info_line_5.as_str());
    s.append("', '");
    s.append(r.body_title_1.as_str());
    s.append("', '");
    s.append(body_1);
    s.append("', '");
    s.append(r.body_title_2.as_str());
    s.append("', '");
    s.append(body_2);
    s.append("', '");
    s.append(image.as_str());
    s.append("'),");
    s
}

fn choicemapping_value_string(r: &ChoiceMappingRow) -> (s: String)
    ensures
        s@ == choicemapping_value(*r),
{
    let mut s = String::from_str("\n('");
    s.append(r.canon_id.as_str());
    s.append("', '");
    s.append(r.question_canon_id.as_str());
    s.append("', '");
    let order = int_to_decimal(r.choice_order as i64);
    s.append(order.as_str());
    s.append("', '");
    s.append(r.choice_label_th.as_str());
    s.append("', '");
    s.append(r.choice_label_en.as_str());
    s.append("'),");
    s
}

impl DbCandidate {
    /// Decides whether a user may perform `action` on a candidate: only owners
    /// and members of the project it belongs to may, whatever the action. The
    /// counts are what the lookups of the user among that project's owners and
    /// among its members returned.
    pub fn authorize(owner_count: Option<i64>, member_count: Option<i64>, action: ActionType) -> (res: Result<(), Error>)
        ensures
            res is Ok <==> found_any(owner_count) || found_any(member_count),
            res matches Err(e) ==> e matches Error::InvalidPermission(source, msg) && source@
                == "Candidate Authorizer"@ && msg@ == "User is not authorized to read/create/update/delete candidate"@,
    {
        let is_owner = count_found_any(owner_count);
        let is_member = count_found_any(member_count);
        if is_owner || is_member {
            Ok(())
        } else {
            Err(
                Error::InvalidPermission(
                    String::from_str("Candidate Authorizer"),
                    String::from_str("User is not authorized to read/create/update/delete candidate"),
                ),
            )
        }
    }

    /// The canonical identifier of candidate `id`, given what its lookup found:
    /// its election's canonical identifier, its question's order and its own
    /// order. `Err(EntityNotFound)` when the candidate does not exist.
    pub fn get_canon_id(id: EntityId, found: Option<(String, i32, i32)>) -> (res: Result<String, Error>)
        ensures
            match found {
                Some((election_canon_id, question_order, choice_order)) => res matches Ok(s)
                    && s@ == candidate_canon_id(
                    election_canon_id@,
                    question_order as int,
                    choice_order as int,
                ),
                None => res matches Err(Error::EntityNotFound(msg, source)) && msg@
                    == "Candidate not found"@ && source@ == "candidates/"@ + uuid_hyphenated(id),
            },
    {
        match found {
            Some((election_canon_id, question_order, choice_order)) => {
                let mut s = election_canon_id;
                s.append("-");
                let q = int_to_pad2(question_order as i64);
                s.append(q.as_str());
                s.append("-");
                let c = int_to_pad2(choice_order as i64);
                s.append(c.as_str());
                Ok(s)
            },
            None => {
                let mut source = String::from_str("candidates/");
                let hyphenated = uuid_hyphenated_string(id);
                source.append(hyphenated.as_str());
                Err(Error::EntityNotFound(String::from_str("Candidate not found"), source))
            },
        }
    }

    /// The `candidateinfo` insert statement for the given candidates; both
    /// bodies are written escaped as `str::escape_debug` escapes them.
    pub fn get_canon_candidateinfo_insert(rows: &Vec<CandidateInfoRow>) -> (res: String)
        ensures
            res@ == insert_statement(CANDIDATEINFO_HEADER@, candidateinfo_values(rows@), rows@.len()),
    {
        let mut result = String::from_str(CANDIDATEINFO_HEADER);
        let n = rows.len();
        for i in 0..n
            invariant
                n == rows@.len(),
                result@ == CANDIDATEINFO_HEADER@ + candidateinfo_values(rows@.take(i as int)),
        {
            let r = &rows[i];
            let body_1 = escape_debug(r.body_1.as_str());
            let body_2 = escape_debug(r.body_2.as_str());
            let value = candidateinfo_value_string(r, body_1.as_str(), body_2.as_str());
            result.append(value.as_str());
            proof {
                assert(rows@.take(i + 1).drop_last() =~= rows@.take(i as int));
                assert(rows@.take(i + 1).last() == rows@[i as int]);
            }
        }
        proof {
            assert(rows@.take(n as int) =~= rows@);
        }
        if n > 0 {
            proof {
                reveal_strlit("'),");
                assert(candidateinfo_values(rows@).len() > 0);
            }
            string_pop(&mut result);
        }
        result.append(";");
        result
    }

    /// The `choicemapping` insert statement for the given candidates.
    pub fn get_canon_choicemapping_insert(rows: &Vec<ChoiceMappingRow>) -> (res: String)
        ensures
            res@ == insert_statement(CHOICEMAPPING_HEADER@, choicemapping_values(rows@), rows@.len()),
    {
        let mut result = String::from_str(CHOICEMAPPING_HEADER);
        let n = rows.len();
        for i in 0..n
            invariant
                n == rows@.len(),
                result@ == CHOICEMAPPING_HEADER@ + choicemapping_values(rows@.take(i as int)),
        {
            let value = choicemapping_value_string(&rows[i]);
            result.append(value.as_str());
            proof {
                assert(rows@.take(i + 1).drop_last() =~= rows@.take(i as int));
                assert(rows@.take(i + 1).last() == rows@[i as int]);
            }
        }
        proof {
            assert(rows@.take(n as int) =~= rows@);
        }
        if n > 0 {
            string_pop(&mut result);
        }
        result.append(";");
        result
    }
}

} // verus!
