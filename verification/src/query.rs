//! Filters on entity queries: a `WHERE` clause is a list of conditions that
//! must all hold, each made of SQL text and bound parameters.

use vstd::prelude::*;
use vstd::string::*;

use crate::ids::EntityId;

verus! {

/// A value bound to a query parameter.
#[derive(Debug, PartialEq, Eq)]
pub enum QueryParam {
    Uuid(EntityId),
    ArrayUuid(Vec<EntityId>),
    String(String),
}

/// A bound value, as the contracts see it.
pub enum QueryParamView {
    Uuid(EntityId),
    ArrayUuid(Seq<EntityId>),
    Text(Seq<char>),
}

impl View for QueryParam {
    type V = QueryParamView;

    open spec fn view(&self) -> QueryParamView {
        match self {
            QueryParam::Uuid(id) => QueryParamView::Uuid(*id),
            QueryParam::ArrayUuid(ids) => QueryParamView::ArrayUuid(ids@),
            QueryParam::String(s) => QueryParamView::Text(s@),
        }
    }
}

/// A piece of a condition: SQL text, a new bound parameter, or a second
/// reference to the parameter bound last.
#[derive(Debug, PartialEq, Eq)]
pub enum SqlPart {
    Sql(String),
    Param(QueryParam),
    PrevParam,
}

/// A piece of a condition, as the contracts see it.
pub enum SqlPartView {
    Sql(Seq<char>),
    Param(QueryParamView),
    PrevParam,
}

impl View for SqlPart {
    type V = SqlPartView;

    open spec fn view(&self) -> SqlPartView {
        match self {
            SqlPart::Sql(s) => SqlPartView::Sql(s@),
            SqlPart::Param(p) => SqlPartView::Param(p@),
            SqlPart::PrevParam => SqlPartView::PrevParam,
        }
    }
}

/// The view of a condition: its pieces, in order.
pub open spec fn condition_view(c: Vec<SqlPart>) -> Seq<SqlPartView> {
    c@.map_values(|p: SqlPart| p@)
}

/// A `WHERE` clause: the conditions that must all hold, in the order they were added.
#[derive(Debug, PartialEq, Eq)]
pub struct SqlWhereClause {
    pub conditions: Vec<Vec<SqlPart>>,
}

impl View for SqlWhereClause {
    type V = Seq<Seq<SqlPartView>>;

    open spec fn view(&self) -> Seq<Seq<SqlPartView>> {
        self.conditions@.map_values(|c: Vec<SqlPart>| condition_view(c))
    }
}

/// The condition a filter field adds: `cond` of its value when it is set,
/// nothing when it is not.
pub open spec fn field_condition<T>(field: Option<T>, cond: spec_fn(T) -> Seq<SqlPartView>) -> Seq<Seq<SqlPartView>> {
    match field {
        Some(v) => seq![cond(v)],
        None => Seq::empty(),
    }
}

/// Whether every second reference in a condition comes after a parameter the
/// condition binds, so that it refers to a parameter of its own.
pub open spec fn refers_back_within(c: Seq<SqlPartView>) -> bool {
    forall|k: int|
        0 <= k < c.len() && (#[trigger] c[k]) is PrevParam ==> exists|j: int| 0 <= j < k && c[j] is Param
}

/// Whether every condition of a clause refers back only within itself.
pub open spec fn all_refer_back_within(cs: Seq<Seq<SqlPartView>>) -> bool {
    forall|i: int| 0 <= i < cs.len() ==> refers_back_within(#[trigger] cs[i])
}

/// How many conditions a filter field adds: one when it is set, none otherwise.
pub open spec fn set_count<T>(field: Option<T>) -> nat {
    if field is Some {
        1
    } else {
        0
    }
}

/// A clause made of two parts refers back within its conditions when both parts do.
pub broadcast proof fn lemma_append_refers_back_within(a: Seq<Seq<SqlPartView>>, b: Seq<Seq<SqlPartView>>)
    requires
        all_refer_back_within(a),
        all_refer_back_within(b),
    ensures
        #[trigger] all_refer_back_within(a + b),
{
    assert forall|i: int| 0 <= i < (a + b).len() implies refers_back_within(#[trigger] (a + b)[i]) by {
        if i < a.len() {
            assert((a + b)[i] == a[i]);
        } else {
            assert((a + b)[i] == b[i - a.len()]);
        }
    }
}

/// Whether a condition opens with SQL text followed by a parameter it binds.
pub open spec fn opens_with_param(c: Seq<SqlPartView>) -> bool {
    c.len() > 1 && c[0] is Sql && c[1] is Param
}

/// What a filter field adds refers back within itself when its condition opens
/// with a parameter, and it is one condition when the field is set, none otherwise.
pub proof fn lemma_field_condition_refers_back_within<T>(field: Option<T>, cond: spec_fn(T) -> Seq<SqlPartView>)
    requires
        forall|v: T| #[trigger] opens_with_param(cond(v)),
    ensures
        all_refer_back_within(field_condition(field, cond)),
        field_condition(field, cond).len() == set_count(field),
{
    if let Some(v) = field {
        let c = cond(v);
        assert(opens_with_param(c));
        assert forall|k: int| 0 <= k < c.len() && (#[trigger] c[k]) is PrevParam implies exists|j: int|
            0 <= j < k && c[j] is Param by {
            assert(c[1] is Param);
        }
    }
}

/// What a piece of a condition contributes to the SQL text of a query: its
/// text, the slot of a new parameter, or a second reference to the last one.
/// The value a parameter binds is not part of it.
pub enum PartText {
    Sql(Seq<char>),
    Slot,
    PrevSlot,
}

/// The contribution of one piece to the SQL text.
pub open spec fn part_text(p: SqlPartView) -> PartText {
    match p {
        SqlPartView::Sql(s) => PartText::Sql(s),
        SqlPartView::Param(_) => PartText::Slot,
        SqlPartView::PrevParam => PartText::PrevSlot,
    }
}

/// The SQL text of a condition, piece by piece.
pub open spec fn condition_text(c: Seq<SqlPartView>) -> Seq<PartText> {
    c.map_values(|p: SqlPartView| part_text(p))
}

/// The SQL text of a clause, condition by condition.
pub open spec fn clause_text(cs: Seq<Seq<SqlPartView>>) -> Seq<Seq<PartText>> {
    cs.map_values(|c: Seq<SqlPartView>| condition_text(c))
}

/// The text of two parts of a clause is the text of the first, then of the second.
pub broadcast proof fn lemma_clause_text_append(a: Seq<Seq<SqlPartView>>, b: Seq<Seq<SqlPartView>>)
    ensures
        #[trigger] clause_text(a + b) == clause_text(a) + clause_text(b),
{
    assert(clause_text(a + b) =~= clause_text(a) + clause_text(b));
}

/// Two values of a filter field that are both set or both unset add the same
/// text, when the field's condition has one text whatever the value.
pub proof fn lemma_field_clause_text<T>(f1: Option<T>, f2: Option<T>, cond: spec_fn(T) -> Seq<SqlPartView>)
    requires
        f1 is Some == f2 is Some,
        forall|a: T, b: T| #[trigger] condition_text(cond(a)) =~= #[trigger] condition_text(cond(b)),
    ensures
        clause_text(field_condition(f1, cond)) == clause_text(field_condition(f2, cond)),
{
    if let Some(a) = f1 {
        let b = f2->Some_0;
        assert(condition_text(cond(a)) =~= condition_text(cond(b)));
        assert(clause_text(field_condition(f1, cond)) =~= clause_text(field_condition(f2, cond)));
    } else {
        assert(clause_text(field_condition(f1, cond)) =~= clause_text(field_condition(f2, cond)));
    }
}

/// A condition: SQL text followed by a bound parameter.
pub fn condition_ending_in(before: &str, param: QueryParam) -> (c: Vec<SqlPart>)
    ensures
        condition_view(c) == seq![SqlPartView::Sql(before@), SqlPartView::Param(param@)],
{
    let ghost pv = param@;
    let mut c: Vec<SqlPart> = Vec::new();
    c.push(SqlPart::Sql(String::from_str(before)));
    c.push(SqlPart::Param(param));
    proof {
        assert(condition_view(c) =~= seq![SqlPartView::Sql(before@), SqlPartView::Param(pv)]);
    }
    c
}

/// A condition: SQL text, a bound parameter, SQL text.
pub fn condition_around(before: &str, param: QueryParam, after: &str) -> (c: Vec<SqlPart>)
    ensures
        condition_view(c) == seq![
            SqlPartView::Sql(before@),
            SqlPartView::Param(param@),
            SqlPartView::Sql(after@),
        ],
{
    let ghost pv = param@;
    let mut c: Vec<SqlPart> = Vec::new();
    c.push(SqlPart::Sql(String::from_str(before)));
    c.push(SqlPart::Param(param));
    c.push(SqlPart::Sql(String::from_str(after)));
    proof {
        assert(condition_view(c) =~= seq![
            SqlPartView::Sql(before@),
            SqlPartView::Param(pv),
            SqlPartView::Sql(after@),
        ]);
    }
    c
}

/// A condition: SQL text, a bound parameter, SQL text, a second reference
/// to that parameter, SQL text.
pub fn condition_twice(before: &str, param: QueryParam, between: &str, after: &str) -> (c: Vec<SqlPart>)
    ensures
        condition_view(c) == seq![
            SqlPartView::Sql(before@),
            SqlPartView::Param(param@),
            SqlPartView::Sql(between@),
            SqlPartView::PrevParam,
            SqlPartView::Sql(after@),
        ],
{
    let ghost pv = param@;
    let mut c: Vec<SqlPart> = Vec::new();
    c.push(SqlPart::Sql(String::from_str(before)));
    c.push(SqlPart::Param(param));
    c.push(SqlPart::Sql(String::from_str(between)));
    c.push(SqlPart::PrevParam);
    c.push(SqlPart::Sql(String::from_str(after)));
    proof {
        assert(condition_view(c) =~= seq![
            SqlPartView::Sql(before@),
            SqlPartView::Param(pv),
            SqlPartView::Sql(between@),
            SqlPartView::PrevParam,
            SqlPartView::Sql(after@),
        ]);
    }
    c
}

/// A condition: SQL text, a bound parameter, SQL text, a second bound
/// parameter, SQL text.
pub fn condition_two_params(
    before: &str,
    first: QueryParam,
    between: &str,
    second: QueryParam,
    after: &str,
) -> (c: Vec<SqlPart>)
    ensures
        condition_view(c) == seq![
            SqlPartView::Sql(before@),
            SqlPartView::Param(first@),
            SqlPartView::Sql(between@),
            SqlPartView::Param(second@),
            SqlPartView::Sql(after@),
        ],
{
    let ghost fv = first@;
    let ghost sv = second@;
    let mut c: Vec<SqlPart> = Vec::new();
    c.push(SqlPart::Sql(String::from_str(before)));
    c.push(SqlPart::Param(first));
    c.push(SqlPart::Sql(String::from_str(between)));
    c.push(SqlPart::Param(second));
    c.push(SqlPart::Sql(String::from_str(after)));
    proof {
        assert(condition_view(c) =~= seq![
            SqlPartView::Sql(before@),
            SqlPartView::Param(fv),
            SqlPartView::Sql(between@),
            SqlPartView::Param(sv),
            SqlPartView::Sql(after@),
        ]);
    }
    c
}

impl SqlWhereClause {
    /// A clause with no condition.
    pub fn new() -> (wc: SqlWhereClause)
        ensures
            wc@ == Seq::<Seq<SqlPartView>>::empty(),
    {
        SqlWhereClause { conditions: Vec::new() }
    }

    /// Adds a condition after the present ones.
    pub fn push_condition(&mut self, cond: Vec<SqlPart>)
        ensures
            final(self)@ == old(self)@.push(condition_view(cond)),
    {
        let ghost c = condition_view(cond);
        self.conditions.push(cond);
        proof {
            assert(final(self)@ =~= old(self)@.push(c));
        }
    }
}

} // verus!
