//! Filters on candidate queries.

use vstd::prelude::*;

use crate::ids::EntityId;
use crate::query::{
    all_refer_back_within, clause_text, lemma_append_refers_back_within, lemma_clause_text_append,
    lemma_field_clause_text, lemma_field_condition_refers_back_within, set_count,
    QueryParam, QueryParamView, SqlPartView, SqlWhereClause, condition_around, field_condition, condition_two_params,
};

verus! {

/// What a candidate query may be restricted to; every field that is set adds a condition.
#[derive(Debug)]
pub struct QueryableCandidate {
    pub ids: Option<Vec<EntityId>>,
    pub owner_id: Option<EntityId>,
    /// Owners count as members too.
    pub member_ids: Option<Vec<EntityId>>,
    pub project_ids: Option<Vec<EntityId>>,
    pub election_ids: Option<Vec<EntityId>>,
    pub question_ids: Option<Vec<EntityId>>,
}

/// Candidates among `ids`.
pub open spec fn ids_condition(ids: Seq<EntityId>) -> Seq<SqlPartView> {
    seq![
        SqlPartView::Sql("id = ANY("@),
        SqlPartView::Param(QueryParamView::ArrayUuid(ids)),
        SqlPartView::Sql(")"@),
    ]
}

/// Candidates of questions of elections of the given projects.
pub open spec fn project_ids_condition(ids: Seq<EntityId>) -> Seq<SqlPartView> {
    seq![
        SqlPartView::Sql("question_id = ANY(SELECT id FROM questions WHERE election_id = ANY(SELECT id FROM elections WHERE project_id = ANY("@),
        SqlPartView::Param(QueryParamView::ArrayUuid(ids)),
        SqlPartView::Sql(")))"@),
    ]
}

/// Candidates of projects owned by `owner`.
pub open spec fn owner_condition(owner: EntityId) -> Seq<SqlPartView> {
    seq![
        SqlPartView::Sql("question_id = ANY(SELECT id FROM questions WHERE election_id = ANY(SELECT id FROM elections WHERE project_id = ANY(SELECT id FROM projects WHERE owner_id = "@),
        SqlPartView::Param(QueryParamView::Uuid(owner)),
        SqlPartView::Sql(")))"@),
    ]
}

/// Candidates of projects that one of `ids` is a member or the owner of.
pub open spec fn member_ids_condition(ids: Seq<EntityId>) -> Seq<SqlPartView> {
    seq![
        SqlPartView::Sql("(question_id = ANY(SELECT id FROM questions WHERE election_id = ANY(SELECT id FROM elections WHERE project_id = ANY(SELECT project_id FROM project_members WHERE user_id = ANY("@),
        SqlPartView::Param(QueryParamView::ArrayUuid(ids)),
        SqlPartView::Sql(")))) OR question_id = ANY(SELECT id FROM questions WHERE election_id = ANY(SELECT id FROM elections WHERE project_id = ANY(SELECT id FROM projects WHERE owner_id = ANY("@),
        SqlPartView::Param(QueryParamView::ArrayUuid(ids)),
        SqlPartView::Sql(")))))"@),
    ]
}

/// Candidates of questions of the given elections.
pub open spec fn election_ids_condition(ids: Seq<EntityId>) -> Seq<SqlPartView> {
    seq![
        SqlPartView::Sql("question_id = ANY(SELECT id FROM questions WHERE election_id = ANY("@),
        SqlPartView::Param(QueryParamView::ArrayUuid(ids)),
        SqlPartView::Sql(") )"@),
    ]
}

/// Candidates of the given questions.
pub open spec fn question_ids_condition(ids: Seq<EntityId>) -> Seq<SqlPartView> {
    seq![
        SqlPartView::Sql("question_id = ANY("@),
        SqlPartView::Param(QueryParamView::ArrayUuid(ids)),
        SqlPartView::Sql(")"@),
    ]
}

impl QueryableCandidate {
    /// The conditions of the filter, in the order the fields are checked: ids,
    /// projects, owner, members, elections, questions.
    pub open spec fn conditions(self) -> Seq<Seq<SqlPartView>> {
        field_condition(self.ids, |ids: Vec<EntityId>| ids_condition(ids@))
            + field_condition(self.project_ids, |ids: Vec<EntityId>| project_ids_condition(ids@))
            + field_condition(self.owner_id, |owner: EntityId| owner_condition(owner))
            + field_condition(self.member_ids, |ids: Vec<EntityId>| member_ids_condition(ids@))
            + field_condition(self.election_ids, |ids: Vec<EntityId>| election_ids_condition(ids@))
            + field_condition(self.question_ids, |ids: Vec<EntityId>| question_ids_condition(ids@))
    }

    /// The `WHERE` clause that restricts a candidate query to this filter.
    pub fn to_where_clause(self) -> (wc: SqlWhereClause)
        ensures
            wc@ == self.conditions(),
    {
        let ghost q = self;
        let mut wc = SqlWhereClause::new();
        if let Some(ids) = self.ids {
            wc.push_condition(
                condition_around(
                "id = ANY(",
                QueryParam::ArrayUuid(ids),
                ")",
            ),
            );
        }
        if let Some(project_ids) = self.project_ids {
            wc.push_condition(
                condition_around(
                "question_id = ANY(SELECT id FROM questions WHERE election_id = ANY(SELECT id FROM elections WHERE project_id = ANY(",
                QueryParam::ArrayUuid(project_ids),
                ")))",
            ),
            );
        }
        if let Some(owner_id) = self.owner_id {
            wc.push_condition(
                condition_around(
                "question_id = ANY(SELECT id FROM questions WHERE election_id = ANY(SELECT id FROM elections WHERE project_id = ANY(SELECT id FROM projects WHERE owner_id = ",
                QueryParam::Uuid(owner_id),
                ")))",
            ),
            );
        }
        if let Some(member_ids) = self.member_ids {
            let again = member_ids.clone();
            wc.push_condition(
                condition_two_params(
                "(question_id = ANY(SELECT id FROM questions WHERE election_id = ANY(SELECT id FROM elections WHERE project_id = ANY(SELECT project_id FROM project_members WHERE user_id = ANY(",
                QueryParam::ArrayUuid(again),
                ")))) OR question_id = ANY(SELECT id FROM questions WHERE election_id = ANY(SELECT id FROM elections WHERE project_id = ANY(SELECT id FROM projects WHERE owner_id = ANY(",
                QueryParam::ArrayUuid(member_ids),
                ")))))",
            ),
            );
        }
        if let Some(election_ids) = self.election_ids {
            wc.push_condition(
                condition_around(
                "question_id = ANY(SELECT id FROM questions WHERE election_id = ANY(",
                QueryParam::ArrayUuid(election_ids),
                ") )",
            ),
            );
        }
        if let Some(question_ids) = self.question_ids {
            wc.push_condition(
                condition_around(
                "question_id = ANY(",
                QueryParam::ArrayUuid(question_ids),
                ")",
            ),
            );
        }
        assert(wc@ =~= q.conditions());
        wc
    }
}

/// Every condition of the filter's clause refers back only to a parameter it
/// binds itself, and the clause has one condition per field that is set.
pub proof fn lemma_where_clause_shape(q: QueryableCandidate)
    ensures
        all_refer_back_within(q.conditions()),
        q.conditions().len() == set_count(q.ids) + set_count(q.project_ids) + set_count(q.owner_id) + set_count(q.member_ids) + set_count(q.election_ids) + set_count(q.question_ids),
{
    broadcast use lemma_append_refers_back_within;

    lemma_field_condition_refers_back_within(q.ids, |ids: Vec<EntityId>| ids_condition(ids@));
    lemma_field_condition_refers_back_within(q.project_ids, |ids: Vec<EntityId>| project_ids_condition(ids@));
    lemma_field_condition_refers_back_within(q.owner_id, |owner: EntityId| owner_condition(owner));
    lemma_field_condition_refers_back_within(q.member_ids, |ids: Vec<EntityId>| member_ids_condition(ids@));
    lemma_field_condition_refers_back_within(q.election_ids, |ids: Vec<EntityId>| election_ids_condition(ids@));
    lemma_field_condition_refers_back_within(q.question_ids, |ids: Vec<EntityId>| question_ids_condition(ids@));
}

/// The SQL text of a filter's clause depends only on which fields are set:
/// every value given enters as a bound parameter.
pub proof fn lemma_where_clause_text(q1: QueryableCandidate, q2: QueryableCandidate)
    requires
        q1.ids is Some == q2.ids is Some,
        q1.project_ids is Some == q2.project_ids is Some,
        q1.owner_id is Some == q2.owner_id is Some,
        q1.member_ids is Some == q2.member_ids is Some,
        q1.election_ids is Some == q2.election_ids is Some,
        q1.question_ids is Some == q2.question_ids is Some,
    ensures
        clause_text(q1.conditions()) == clause_text(q2.conditions()),
{
    broadcast use lemma_clause_text_append;

    lemma_field_clause_text(q1.ids, q2.ids, |ids: Vec<EntityId>| ids_condition(ids@));
    lemma_field_clause_text(q1.project_ids, q2.project_ids, |ids: Vec<EntityId>| project_ids_condition(ids@));
    lemma_field_clause_text(q1.owner_id, q2.owner_id, |owner: EntityId| owner_condition(owner));
    lemma_field_clause_text(q1.member_ids, q2.member_ids, |ids: Vec<EntityId>| member_ids_condition(ids@));
    lemma_field_clause_text(q1.election_ids, q2.election_ids, |ids: Vec<EntityId>| election_ids_condition(ids@));
    lemma_field_clause_text(q1.question_ids, q2.question_ids, |ids: Vec<EntityId>| question_ids_condition(ids@));
}

} // verus!
