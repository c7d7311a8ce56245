use ems_backend::models::candidate::requests::queryable::QueryableCandidate;
use ems_backend::models::election::requests::queryable::QueryableElection;
use ems_backend::models::project::requests::queryable::QueryableProject;
use ems_backend::query::{QueryParam, SqlPart, SqlWhereClause};

fn sql(s: &str) -> SqlPart {
    SqlPart::Sql(s.to_string())
}

#[test]
fn empty_filters_add_no_condition() {
    let c = QueryableCandidate { ids: None, owner_id: None, member_ids: None, project_ids: None, election_ids: None, question_ids: None };
    assert_eq!(c.to_where_clause(), SqlWhereClause::new());
    let p = QueryableProject { ids: None, owner_id: None, member_ids: None, name: None };
    assert!(p.to_where_clause().conditions.is_empty());
    let e = QueryableElection { ids: None, owner_id: None, member_ids: None, project_ids: None, name: None, header: None, details: None, label: None };
    assert!(e.to_where_clause().conditions.is_empty());
}

#[test]
fn candidate_filter_conditions_in_order() {
    let c = QueryableCandidate {
        ids: Some(vec![1, 2]),
        owner_id: Some(9),
        member_ids: Some(vec![5]),
        project_ids: None,
        election_ids: None,
        question_ids: Some(vec![3]),
    };
    let wc = c.to_where_clause();
    assert_eq!(wc.conditions.len(), 4);
    assert_eq!(wc.conditions[0], vec![sql("id = ANY("), SqlPart::Param(QueryParam::ArrayUuid(vec![1, 2])), sql(")")]);
    assert_eq!(
        wc.conditions[1],
        vec![
            sql("question_id = ANY(SELECT id FROM questions WHERE election_id = ANY(SELECT id FROM elections WHERE project_id = ANY(SELECT id FROM projects WHERE owner_id = "),
            SqlPart::Param(QueryParam::Uuid(9)),
            sql(")))"),
        ]
    );
    assert_eq!(
        wc.conditions[2],
        vec![
            sql("(question_id = ANY(SELECT id FROM questions WHERE election_id = ANY(SELECT id FROM elections WHERE project_id = ANY(SELECT project_id FROM project_members WHERE user_id = ANY("),
            SqlPart::Param(QueryParam::ArrayUuid(vec![5])),
            sql(")))) OR question_id = ANY(SELECT id FROM questions WHERE election_id = ANY(SELECT id FROM elections WHERE project_id = ANY(SELECT id FROM projects WHERE owner_id = ANY("),
            SqlPart::Param(QueryParam::ArrayUuid(vec![5])),
            sql(")))))"),
        ]
    );
    assert_eq!(wc.conditions[3], vec![sql("question_id = ANY("), SqlPart::Param(QueryParam::ArrayUuid(vec![3])), sql(")")]);
}

#[test]
fn candidate_filter_by_project_and_election() {
    let c = QueryableCandidate { ids: None, owner_id: None, member_ids: None, project_ids: Some(vec![4]), election_ids: Some(vec![6]), question_ids: None };
    let wc = c.to_where_clause();
    assert_eq!(
        wc.conditions,
        vec![
            vec![
                sql("question_id = ANY(SELECT id FROM questions WHERE election_id = ANY(SELECT id FROM elections WHERE project_id = ANY("),
                SqlPart::Param(QueryParam::ArrayUuid(vec![4])),
                sql(")))"),
            ],
            vec![
                sql("question_id = ANY(SELECT id FROM questions WHERE election_id = ANY("),
                SqlPart::Param(QueryParam::ArrayUuid(vec![6])),
                sql(") )"),
            ],
        ]
    );
}

#[test]
fn election_text_filters_refer_back() {
    let e = QueryableElection {
        ids: None,
        owner_id: None,
        member_ids: Some(vec![8]),
        project_ids: Some(7),
        name: Some("board".to_string()),
        header: None,
        details: Some("vote".to_string()),
        label: Some("2024".to_string()),
    };
    let wc = e.to_where_clause();
    assert_eq!(
        wc.conditions,
        vec![
            vec![sql("project_id = "), SqlPart::Param(QueryParam::Uuid(7))],
            vec![
                sql("(project_id = ANY(SELECT project_id FROM project_members WHERE user_id = ANY("),
                SqlPart::Param(QueryParam::ArrayUuid(vec![8])),
                sql(")) OR project_id = ANY(SELECT id FROM projects WHERE owner_id = ANY("),
                SqlPart::Param(QueryParam::ArrayUuid(vec![8])),
                sql(")))"),
            ],
            vec![
                sql("(name_th ILIKE ('%' || "),
                SqlPart::Param(QueryParam::String("board".to_string())),
                sql(" || '%') OR name_en ILIKE ('%' || "),
                SqlPart::PrevParam,
                sql(" || '%'))"),
            ],
            vec![
                sql("(details_th ILIKE ('%' || "),
                SqlPart::Param(QueryParam::String("vote".to_string())),
                sql(" || '%') OR details_en ILIKE ('%' || "),
                SqlPart::PrevParam,
                sql(" || '%'))"),
            ],
            vec![sql("(label ILIKE ('%' || "), SqlPart::Param(QueryParam::String("2024".to_string())), sql(" || '%'))")],
        ]
    );
}

#[test]
fn election_filter_by_ids_owner_and_header() {
    let e = QueryableElection {
        ids: Some(vec![1]),
        owner_id: Some(2),
        member_ids: None,
        project_ids: None,
        name: None,
        header: Some("h".to_string()),
        details: None,
        label: None,
    };
    let wc = e.to_where_clause();
    assert_eq!(
        wc.conditions,
        vec![
            vec![sql("id = ANY("), SqlPart::Param(QueryParam::ArrayUuid(vec![1])), sql(")")],
            vec![sql("project_id = ANY(SELECT id FROM projects WHERE owner_id = "), SqlPart::Param(QueryParam::Uuid(2)), sql(")")],
            vec![
                sql("(header_th ILIKE ('%' || "),
                SqlPart::Param(QueryParam::String("h".to_string())),
                sql(" || '%') OR header_en ILIKE ('%' || "),
                SqlPart::PrevParam,
                sql(" || '%'))"),
            ],
        ]
    );
}

#[test]
fn project_filter_conditions() {
    let p = QueryableProject { ids: Some(vec![1]), owner_id: Some(2), member_ids: Some(vec![3, 4]), name: Some("Student Union".to_string()) };
    let wc = p.to_where_clause();
    assert_eq!(
        wc.conditions,
        vec![
            vec![sql("id = ANY("), SqlPart::Param(QueryParam::ArrayUuid(vec![1])), sql(")")],
            vec![sql("owner_id = ANY("), SqlPart::Param(QueryParam::Uuid(2)), sql(")")],
            vec![
                sql("(id IN (SELECT project_id FROM project_members WHERE user_id = ANY("),
                SqlPart::Param(QueryParam::ArrayUuid(vec![3, 4])),
                sql(")) OR owner_id = ANY("),
                SqlPart::Param(QueryParam::ArrayUuid(vec![3, 4])),
                sql("))"),
            ],
            vec![sql("name ILIKE "), SqlPart::Param(QueryParam::String("%Student Union%".to_string()))],
        ]
    );
}
