//! Filters on project queries.

use vstd::prelude::*;
use vstd::string::*;

use crate::ids::EntityId;
use crate::query::{
    all_refer_back_within, clause_text, lemma_append_refers_back_within, lemma_clause_text_append,
    lemma_field_clause_text, lemma_field_condition_refers_back_within, set_count,
    QueryParam, QueryParamView, SqlPartView, SqlWhereClause, condition_around, condition_ending_in,
    condition_two_params, field_condition,
};

verus! {

/// What a project query may be restricted to; every field that is set adds a condition.
#[derive(Debug)]
pub struct QueryableProject {
    pub ids: Option<Vec<EntityId>>,
    pub owner_id: Option<EntityId>,
    /// Owners count as members too.
    pub member_ids: Option<Vec<EntityId>>,
    /// Matched case-insensitively anywhere in the project's name.
    pub name: Option<String>,
}

/// Projects among `ids`.
pub open spec fn ids_condition(ids: Seq<EntityId>) -> Seq<SqlPartView> {
    seq![
        SqlPartView::Sql("id = ANY("@),
        SqlPartView::Param(QueryParamView::ArrayUuid(ids)),
        SqlPartView::Sql(")"@),
    ]
}

/// Projects owned by `owner`.
pub open spec fn owner_condition(owner: EntityId) -> Seq<SqlPartView> {
    seq![
        SqlPartView::Sql("owner_id = ANY("@),
        SqlPartView::Param(QueryParamView::Uuid(owner)),
        SqlPartView::Sql(")"@),
    ]
}

/// Projects that one of `ids` is a member or the owner of.
pub open spec fn member_ids_condition(ids: Seq<EntityId>) -> Seq<SqlPartView> {
    seq![
        SqlPartView::Sql("(id IN (SELECT project_id FROM project_members WHERE user_id = ANY("@),
        SqlPartView::Param(QueryParamView::ArrayUuid(ids)),
        SqlPartView::Sql(")) OR owner_id = ANY("@),
        SqlPartView::Param(QueryParamView::ArrayUuid(ids)),
        SqlPartView::Sql("))"@),
    ]
}

/// The `ILIKE` pattern that matches names containing `name`.
pub open spec fn contains_pattern(name: Seq<char>) -> Seq<char> {
    "%"@ + name + "%"@
}

/// Projects whose name contains `name`.
pub open spec fn name_condition(name: Seq<char>) -> Seq<SqlPartView> {
    seq![
        SqlPartView::Sql("name ILIKE "@),
        SqlPartView::Param(QueryParamView::Text(contains_pattern(name))),
    ]
}

impl QueryableProject {
    /// The conditions of the filter, in the order the fields are checked: ids,
    /// owner, members, name.
    pub open spec fn conditions(self) -> Seq<Seq<SqlPartView>> {
        field_condition(self.ids, |ids: Vec<EntityId>| ids_condition(ids@))
            + field_condition(self.owner_id, |owner: EntityId| owner_condition(owner))
            + field_condition(self.member_ids, |ids: Vec<EntityId>| member_ids_condition(ids@))
            + field_condition(self.name, |name: String| name_condition(name@))
    }

    /// The `WHERE` clause that restricts a project query to this filter.
    pub fn to_where_clause(self) -> (wc: SqlWhereClause)
        ensures
            wc@ == self.conditions(),
    {
        let ghost q = self;
        let mut wc = SqlWhereClause::new();
        if let Some(ids) = self.ids {
            wc.push_condition(condition_around("id = ANY(", QueryParam::ArrayUuid(ids), ")"));
        }
        if let Some(owner_id) = self.owner_id {
            wc.push_condition(condition_around("owner_id = ANY(", QueryParam::Uuid(owner_id), ")"));
        }
        if let Some(member_ids) = self.member_ids {
            let first = member_ids.clone();
            let second = member_ids.clone();
            wc.push_condition(
                condition_two_params(
                    "(id IN (SELECT project_id FROM project_members WHERE user_id = ANY(",
                    QueryParam::ArrayUuid(first),
                    ")) OR owner_id = ANY(",
                    QueryParam::ArrayUuid(second),
                    "))",
                ),
            );
        }
        if let Some(name) = self.name {
            let mut pattern = String::from_str("%");
            pattern.append(name.as_str());
            pattern.append("%");
            wc.push_condition(condition_ending_in("name ILIKE ", QueryParam::String(pattern)));
        }
        assert(wc@ =~= q.conditions());
        wc
    }
}

/// Every condition of the filter's clause refers back only to a parameter it
/// binds itself, and the clause has one condition per field that is set.
pub proof fn lemma_where_clause_shape(q: QueryableProject)
    ensures
        all_refer_back_within(q.conditions()),
        q.conditions().len() == set_count(q.ids) + set_count(q.owner_id) + set_count(q.member_ids) + set_count(q.name),
{
    broadcast use lemma_append_refers_back_within;

    lemma_field_condition_refers_back_within(q.ids, |ids: Vec<EntityId>| ids_condition(ids@));
    lemma_field_condition_refers_back_within(q.owner_id, |owner: EntityId| owner_condition(owner));
    lemma_field_condition_refers_back_within(q.member_ids, |ids: Vec<EntityId>| member_ids_condition(ids@));
    lemma_field_condition_refers_back_within(q.name, |name: String| name_condition(name@));
}

/// The SQL text of a filter's clause depends only on which fields are set:
/// every value given, the name included, enters as a bound parameter.
pub proof fn lemma_where_clause_text(q1: QueryableProject, q2: QueryableProject)
    requires
        q1.ids is Some == q2.ids is Some,
        q1.owner_id is Some == q2.owner_id is Some,
        q1.member_ids is Some == q2.member_ids is Some,
        q1.name is Some == q2.name is Some,
    ensures
        clause_text(q1.conditions()) == clause_text(q2.conditions()),
{
    broadcast use lemma_clause_text_append;

    lemma_field_clause_text(q1.ids, q2.ids, |ids: Vec<EntityId>| ids_condition(ids@));
    lemma_field_clause_text(q1.owner_id, q2.owner_id, |owner: EntityId| owner_condition(owner));
    lemma_field_clause_text(q1.member_ids, q2.member_ids, |ids: Vec<EntityId>| member_ids_condition(ids@));
    lemma_field_clause_text(q1.name, q2.name, |name: String| name_condition(name@));
}

} // verus!
