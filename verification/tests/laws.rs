use ems_backend::models::candidate::db::{DbCandidate, image_export_file_name};
use ems_backend::models::election::requests::queryable::QueryableElection;
use ems_backend::models::project::db::{CandidateImage, DbProject};
use ems_backend::models::question::db::DbQuestion;
use ems_backend::permissions::authorizer::ActionType;
use ems_backend::query::SqlPart;
use ems_backend::text::{int_to_pad2, last_segment};

#[test]
fn canon_ids_of_different_questions_differ() {
    let mut seen = std::collections::HashSet::new();
    for election in [1u128, 2, u128::MAX] {
        for order in [-12, -1, 0, 1, 9, 10, 11, 99, 100, 1000] {
            let id = DbQuestion::get_canon_id(0, Some((election, order))).unwrap();
            assert!(seen.insert(id));
        }
    }
}

#[test]
fn canon_ids_of_different_candidates_differ() {
    let mut seen = std::collections::HashSet::new();
    for q in [-10, -1, 0, 1, 10, 123] {
        for c in [-10, -1, 0, 1, 10, 123] {
            let id = DbCandidate::get_canon_id(0, Some(("E-1".to_string(), q, c))).unwrap();
            assert!(seen.insert(id));
        }
    }
}

#[test]
fn orders_below_a_hundred_take_two_digits() {
    for n in 0..100 {
        let s = int_to_pad2(n);
        assert_eq!(s.len(), 2);
        assert!(s.chars().all(|c| c.is_ascii_digit()));
    }
}

#[test]
fn last_segment_holds_no_separator_and_ends_the_text() {
    for s in ["a.b.c", "...", "x", "", "name.tar.gz"] {
        let last = last_segment(s, '.');
        assert!(!last.contains('.'));
        assert!(s.ends_with(last.as_str()));
    }
}

#[test]
fn image_names_of_different_candidates_differ() {
    assert_ne!(image_export_file_name("a.b", "x.c"), image_export_file_name("a", "b.c"));
    assert_ne!(image_export_file_name("E-01-01", "p.png"), image_export_file_name("E-01-02", "p.png"));
}

#[test]
fn election_clause_has_a_condition_per_set_field_and_refers_back_within() {
    let e = QueryableElection {
        ids: Some(vec![1]),
        owner_id: None,
        member_ids: None,
        project_ids: Some(3),
        name: Some("n".to_string()),
        header: Some("h".to_string()),
        details: None,
        label: Some("l".to_string()),
    };
    let wc = e.to_where_clause();
    assert_eq!(wc.conditions.len(), 5);
    for condition in &wc.conditions {
        let mut bound = false;
        for part in condition {
            match part {
                SqlPart::Param(_) => bound = true,
                SqlPart::PrevParam => assert!(bound),
                SqlPart::Sql(_) => {}
            }
        }
    }
}

#[test]
fn project_delete_implies_update_and_reads_are_open() {
    for owner in [None, Some(0), Some(1)] {
        for member in [None, Some(0), Some(2)] {
            if DbProject::authorize(owner, member, ActionType::Delete).is_ok() {
                assert!(DbProject::authorize(owner, member, ActionType::Update).is_ok());
                assert!(DbProject::authorize(owner, member, ActionType::Create).is_ok());
            }
            assert!(DbProject::authorize(owner, member, ActionType::ReadDefault).is_ok());
        }
    }
}

#[test]
fn export_with_distinct_candidates_has_no_duplicate_entry() {
    let project = DbProject { id: 7, created_at: None, name: "P".to_string(), owner_id: 1 };
    let images: Vec<CandidateImage> = (0..5)
        .map(|i| CandidateImage {
            canon_id: DbCandidate::get_canon_id(0, Some(("E".to_string(), 1, i))).unwrap(),
            image_file: "same.png".to_string(),
            bytes: vec![i as u8],
        })
        .collect();
    assert!(project.export(1, "SQL", &images).is_ok());
}

#[test]
fn election_clause_text_does_not_depend_on_values() {
    let make = |id: u128, text: &str| QueryableElection {
        ids: None,
        owner_id: Some(id),
        member_ids: Some(vec![id, id + 1]),
        project_ids: None,
        name: Some(text.to_string()),
        header: None,
        details: Some(text.to_string()),
        label: None,
    };
    let text_of = |q: QueryableElection| -> Vec<Vec<String>> {
        q.to_where_clause()
            .conditions
            .iter()
            .map(|c| {
                c.iter()
                    .map(|p| match p {
                        SqlPart::Sql(s) => s.clone(),
                        SqlPart::Param(_) => "?".to_string(),
                        SqlPart::PrevParam => "^".to_string(),
                    })
                    .collect()
            })
            .collect()
    };
    assert_eq!(text_of(make(1, "a")), text_of(make(99, "x'); DROP TABLE elections; --")));
}

#[test]
fn questionlogic_tuple_names_the_question_by_its_canon_id() {
    let election: u128 = 0x67e5_5044_10b1_426f_9247_bb68_0e5f_e0c8;
    let row = ems_backend::models::question::db::QuestionLogicRow {
        id: 1,
        election_id: election,
        question_order: 4,
        question_th: "q".to_string(),
        question_en: "q".to_string(),
        faculty_code: "21".to_string(),
        student_year_start: 1,
        student_year_end: 4,
        student_program: "S".to_string(),
        select_amount: 1,
        candidate_count: Some(2),
    };
    let canon = DbQuestion::get_canon_id(1, Some((election, 4))).unwrap();
    let insert = DbQuestion::get_canon_questionlogic_insert(&vec![row]);
    let tuple = insert.split(" VALUES ").nth(1).unwrap();
    assert!(tuple.starts_with(&format!("('{}', '{}'", &canon[..32], canon)));
}

#[test]
fn candidate_canon_id_extends_its_question_canon_id() {
    let election: u128 = 0x67e5_5044_10b1_426f_9247_bb68_0e5f_e0c8;
    let question = DbQuestion::get_canon_id(1, Some((election, 3))).unwrap();
    let election_canon = question[..32].to_string();
    let candidate = DbCandidate::get_canon_id(2, Some((election_canon, 3, 7))).unwrap();
    assert_eq!(candidate, format!("{}-07", question));
}

#[test]
fn export_images_are_named_as_candidateinfo_names_them() {
    let project = DbProject { id: 7, created_at: None, name: "P".to_string(), owner_id: 1 };
    let images = vec![
        CandidateImage { canon_id: "E-01-01".to_string(), image_file: "a/b.c.png".to_string(), bytes: vec![1] },
        CandidateImage { canon_id: "E-01-02".to_string(), image_file: String::new(), bytes: vec![] },
    ];
    let bytes = project.export(1, "SQL", &images).unwrap();
    let archive = zip::ZipArchive::new(std::io::Cursor::new(bytes)).unwrap();
    let names: Vec<String> = archive.file_names().map(|s| s.to_string()).collect();
    assert!(names.contains(&format!("images/{}", image_export_file_name("E-01-01", "a/b.c.png"))));
    assert!(!names.iter().any(|n| n.starts_with("images/E-01-02")));
}
