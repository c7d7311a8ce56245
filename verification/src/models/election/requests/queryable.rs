//! Filters on election queries.

use vstd::prelude::*;

use crate::ids::EntityId;
use crate::query::{
    all_refer_back_within, clause_text, lemma_append_refers_back_within, lemma_clause_text_append,
    lemma_field_clause_text, lemma_field_condition_refers_back_within, set_count,
    QueryParam, QueryParamView, SqlPartView, SqlWhereClause, condition_around, condition_ending_in,
    condition_twice, condition_two_params, field_condition,
};

verus! {

/// What an election query may be restricted to; every field that is set adds
/// a condition. The text fields match case-insensitively anywhere in the column.
#[derive(Debug)]
pub struct QueryableElection {
    pub ids: Option<Vec<EntityId>>,
    pub owner_id: Option<EntityId>,
    /// Owners count as members too.
    pub member_ids: Option<Vec<EntityId>>,
    pub project_ids: Option<EntityId>,
    pub name: Option<String>,
    pub header: Option<String>,
    pub details: Option<String>,
    pub label: Option<String>,
}

/// Elections among `ids`.
pub open spec fn ids_condition(ids: Seq<EntityId>) -> Seq<SqlPartView> {
    seq![
        SqlPartView::Sql("id = ANY("@),
        SqlPartView::Param(QueryParamView::ArrayUuid(ids)),
        SqlPartView::Sql(")"@),
    ]
}

/// Elections of the given project.
pub open spec fn project_condition(project: EntityId) -> Seq<SqlPartView> {
    seq![SqlPartView::Sql("project_id = "@), SqlPartView::Param(QueryParamView::Uuid(project))]
}

/// Elections of projects owned by `owner`.
pub open spec fn owner_condition(owner: EntityId) -> Seq<SqlPartView> {
    seq![
        SqlPartView::Sql("project_id = ANY(SELECT id FROM projects WHERE owner_id = "@),
        SqlPartView::Param(QueryParamView::Uuid(owner)),
        SqlPartView::Sql(")"@),
    ]
}

/// Elections of projects that one of `ids` is a member or the owner of.
pub open spec fn member_ids_condition(ids: Seq<EntityId>) -> Seq<SqlPartView> {
    seq![
        SqlPartView::Sql("(project_id = ANY(SELECT project_id FROM project_members WHERE user_id = ANY("@),
        SqlPartView::Param(QueryParamView::ArrayUuid(ids)),
        SqlPartView::Sql(")) OR project_id = ANY(SELECT id FROM projects WHERE owner_id = ANY("@),
        SqlPartView::Param(QueryParamView::ArrayUuid(ids)),
        SqlPartView::Sql(")))"@),
    ]
}

/// Elections whose Thai or English name contains `name`.
pub open spec fn name_condition(name: Seq<char>) -> Seq<SqlPartView> {
    seq![
        SqlPartView::Sql("(name_th ILIKE ('%' || "@),
        SqlPartView::Param(QueryParamView::Text(name)),
        SqlPartView::Sql(" || '%') OR name_en ILIKE ('%' || "@),
        SqlPartView::PrevParam,
        SqlPartView::Sql(" || '%'))"@),
    ]
}

/// Elections whose Thai or English header contains `header`.
pub open spec fn header_condition(header: Seq<char>) -> Seq<SqlPartView> {
    seq![
        SqlPartView::Sql("(header_th ILIKE ('%' || "@),
        SqlPartView::Param(QueryParamView::Text(header)),
        SqlPartView::Sql(" || '%') OR header_en ILIKE ('%' || "@),
        SqlPartView::PrevParam,
        SqlPartView::Sql(" || '%'))"@),
    ]
}

/// Elections whose Thai or English details contain `details`.
pub open spec fn details_condition(details: Seq<char>) -> Seq<SqlPartView> {
    seq![
        SqlPartView::Sql("(details_th ILIKE ('%' || "@),
        SqlPartView::Param(QueryParamView::Text(details)),
        SqlPartView::Sql(" || '%') OR details_en ILIKE ('%' || "@),
        SqlPartView::PrevParam,
        SqlPartView::Sql(" || '%'))"@),
    ]
}

/// Elections whose label contains `label`.
pub open spec fn label_condition(label: Seq<char>) -> Seq<SqlPartView> {
    seq![
        SqlPartView::Sql("(label ILIKE ('%' || "@),
        SqlPartView::Param(QueryParamView::Text(label)),
        SqlPartView::Sql(" || '%'))"@),
    ]
}

impl QueryableElection {
    /// The conditions of the filter, in the order the fields are checked: ids,
    /// project, owner, members, name, header, details, label.
    pub open spec fn conditions(self) -> Seq<Seq<SqlPartView>> {
        field_condition(self.ids, |ids: Vec<EntityId>| ids_condition(ids@))
            + field_condition(self.project_ids, |project: EntityId| project_condition(project))
            + field_condition(self.owner_id, |owner: EntityId| owner_condition(owner))
            + field_condition(self.member_ids, |ids: Vec<EntityId>| member_ids_condition(ids@))
            + field_condition(self.name, |name: String| name_condition(name@))
            + field_condition(self.header, |header: String| header_condition(header@))
            + field_condition(self.details, |details: String| details_condition(details@))
            + field_condition(self.label, |label: String| label_condition(label@))
    }

    /// The `WHERE` clause that restricts an election query to this filter.
    #[verifier::rlimit(100)]
    #[verifier::spinoff_prover]
    pub fn to_where_clause(self) -> (wc: SqlWhereClause)
        ensures
            wc@ == self.conditions(),
    {
        let ghost q = self;
        let mut wc = SqlWhereClause::new();
        let ghost mut expected: Seq<Seq<SqlPartView>> = Seq::empty();
        if let Some(ids) = self.ids {
            wc.push_condition(condition_around("id = ANY(", QueryParam::ArrayUuid(ids), ")"));
        }
        proof {
            expected = expected + field_condition(q.ids, |ids: Vec<EntityId>| ids_condition(ids@));
        }
        assert(wc@ =~= expected);
        if let Some(project_id) = self.project_ids {
            wc.push_condition(condition_ending_in("project_id = ", QueryParam::Uuid(project_id)));
        }
        proof {
            expected = expected + field_condition(q.project_ids, |project: EntityId| project_condition(project));
        }
        assert(wc@ =~= expected);
        if let Some(owner_id) = self.owner_id {
            wc.push_condition(
                condition_around(
                    "project_id = ANY(SELECT id FROM projects WHERE owner_id = ",
                    QueryParam::Uuid(owner_id),
                    ")",
                ),
            );
        }
        proof {
            expected = expected + field_condition(q.owner_id, |owner: EntityId| owner_condition(owner));
        }
        assert(wc@ =~= expected);
        if let Some(member_ids) = self.member_ids {
            let again = member_ids.clone();
            wc.push_condition(
                condition_two_params(
                    "(project_id = ANY(SELECT project_id FROM project_members WHERE user_id = ANY(",
                    QueryParam::ArrayUuid(again),
                    ")) OR project_id = ANY(SELECT id FROM projects WHERE owner_id = ANY(",
                    QueryParam::ArrayUuid(member_ids),
                    ")))",
                ),
            );
        }
        proof {
            expected = expected + field_condition(q.member_ids, |ids: Vec<EntityId>| member_ids_condition(ids@));
        }
        assert(wc@ =~= expected);
        if let Some(name) = self.name {
            wc.push_condition(
                condition_twice(
                    "(name_th ILIKE ('%' || ",
                    QueryParam::String(name),
                    " || '%') OR name_en ILIKE ('%' || ",
                    " || '%'))",
                ),
            );
        }
        proof {
            expected = expected + field_condition(q.name, |name: String| name_condition(name@));
        }
        assert(wc@ =~= expected);
        if let Some(header) = self.header {
            wc.push_condition(
                condition_twice(
                    "(header_th ILIKE ('%' || ",
                    QueryParam::String(header),
                    " || '%') OR header_en ILIKE ('%' || ",
                    " || '%'))",
                ),
            );
        }
        proof {
            expected = expected + field_condition(q.header, |header: String| header_condition(header@));
        }
        assert(wc@ =~= expected);
        if let Some(details) = self.details {
            wc.push_condition(
                condition_twice(
                    "(details_th ILIKE ('%' || ",
                    QueryParam::String(details),
                    " || '%') OR details_en ILIKE ('%' || ",
                    " || '%'))",
                ),
            );
        }
        proof {
            expected = expected + field_condition(q.details, |details: String| details_condition(details@));
        }
        assert(wc@ =~= expected);
        if let Some(label) = self.label {
            wc.push_condition(
                condition_around("(label ILIKE ('%' || ", QueryParam::String(label), " || '%'))"),
            );
        }
        proof {
            expected = expected + field_condition(q.label, |label: String| label_condition(label@));
        }
        assert(wc@ =~= expected);
        assert(wc@ =~= q.conditions());
        wc
    }
}

/// Every condition of the filter's clause refers back only to a parameter it
/// binds itself, and the clause has one condition per field that is set.
pub proof fn lemma_where_clause_shape(q: QueryableElection)
    ensures
        all_refer_back_within(q.conditions()),
        q.conditions().len() == set_count(q.ids) + set_count(q.project_ids) + set_count(q.owner_id) + set_count(q.member_ids) + set_count(q.name) + set_count(q.header) + set_count(q.details) + set_count(q.label),
{
    broadcast use lemma_append_refers_back_within;

    lemma_field_condition_refers_back_within(q.ids, |ids: Vec<EntityId>| ids_condition(ids@));
    lemma_field_condition_refers_back_within(q.project_ids, |project: EntityId| project_condition(project));
    lemma_field_condition_refers_back_within(q.owner_id, |owner: EntityId| owner_condition(owner));
    lemma_field_condition_refers_back_within(q.member_ids, |ids: Vec<EntityId>| member_ids_condition(ids@));
    lemma_field_condition_refers_back_within(q.name, |name: String| name_condition(name@));
    lemma_field_condition_refers_back_within(q.header, |header: String| header_condition(header@));
    lemma_field_condition_refers_back_within(q.details, |details: String| details_condition(details@));
    lemma_field_condition_refers_back_within(q.label, |label: String| label_condition(label@));
}

/// The SQL text of a filter's clause depends only on which fields are set:
/// every value given, the name, header, details and label included, enters as a bound parameter.
pub proof fn lemma_where_clause_text(q1: QueryableElection, q2: QueryableElection)
    requires
        q1.ids is Some == q2.ids is Some,
        q1.project_ids is Some == q2.project_ids is Some,
        q1.owner_id is Some == q2.owner_id is Some,
        q1.member_ids is Some == q2.member_ids is Some,
        q1.name is Some == q2.name is Some,
        q1.header is Some == q2.header is Some,
        q1.details is Some == q2.details is Some,
        q1.label is Some == q2.label is Some,
    ensures
        clause_text(q1.conditions()) == clause_text(q2.conditions()),
{
    broadcast use lemma_clause_text_append;

    lemma_field_clause_text(q1.ids, q2.ids, |ids: Vec<EntityId>| ids_condition(ids@));
    lemma_field_clause_text(q1.project_ids, q2.project_ids, |project: EntityId| project_condition(project));
    lemma_field_clause_text(q1.owner_id, q2.owner_id, |owner: EntityId| owner_condition(owner));
    lemma_field_clause_text(q1.member_ids, q2.member_ids, |ids: Vec<EntityId>| member_ids_condition(ids@));
    lemma_field_clause_text(q1.name, q2.name, |name: String| name_condition(name@));
    lemma_field_clause_text(q1.header, q2.header, |header: String| header_condition(header@));
    lemma_field_clause_text(q1.details, q2.details, |details: String| details_condition(details@));
    lemma_field_clause_text(q1.label, q2.label, |label: String| label_condition(label@));
}

} // verus!
