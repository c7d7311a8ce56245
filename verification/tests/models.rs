use std::io::{Cursor, Read};

use ems_backend::common::string::MultiLangString;
use ems_backend::models::candidate::db::DbCandidate;
use ems_backend::models::candidate::fetch_levels::compact::CompactCandidate;
use ems_backend::models::candidate::fetch_levels::default::DefaultCandidate;
use ems_backend::models::candidate::fetch_levels::id_only::IdOnlyCandidate;
use ems_backend::models::election::db::DbElection;
use ems_backend::models::election::fetch_levels::compact::CompactElection;
use ems_backend::models::election::fetch_levels::default::DefaultElection;
use ems_backend::models::election::fetch_levels::id_only::IdOnlyElection;
use ems_backend::models::project::db::{CandidateImage, DbProject};
use ems_backend::models::project::fetch_levels::compact::CompactProject;
use ems_backend::models::project::fetch_levels::default::DefaultProject;
use ems_backend::models::project::fetch_levels::id_only::IdOnlyProject;
use ems_backend::models::question::db::DbQuestion;
use ems_backend::models::question::fetch_levels::default::DefaultQuestion;
use ems_backend::models::question::fetch_levels::id_only::IdOnlyQuestion;
use ems_backend::models::user::User;
use ems_backend::models::user::db::DbUser;

const PROJECT: u128 = 0x67e5_5044_10b1_426f_9247_bb68_0e5f_e0c8;

fn candidate() -> DbCandidate {
    DbCandidate {
        id: 11,
        created_at: Some(1_700_000_000_000_000),
        question_id: 22,
        choice_label_th: "หนึ่ง".to_string(),
        choice_label_en: "One".to_string(),
        title: "Title".to_string(),
        info_line_1: "1".to_string(),
        info_line_2: "2".to_string(),
        info_line_3: "3".to_string(),
        info_line_4: "4".to_string(),
        info_line_5: "5".to_string(),
        body_title_1: "bt1".to_string(),
        body_1: "b1".to_string(),
        body_title_2: "bt2".to_string(),
        body_2: "b2".to_string(),
        image_file: "img.png".to_string(),
        choice_order: 1,
        uploaded_at: None,
    }
}

fn election(detail_th: Option<&str>, detail_en: Option<&str>) -> DbElection {
    DbElection {
        id: 33,
        created_at: None,
        project_id: 44,
        label: "L".to_string(),
        name_th: "ชื่อ".to_string(),
        name_en: "Name".to_string(),
        header_th: "หัว".to_string(),
        header_en: "Header".to_string(),
        detail_th: detail_th.map(|s| s.to_string()),
        detail_en: detail_en.map(|s| s.to_string()),
    }
}

fn user(id: u128, name: &str) -> DbUser {
    DbUser {
        id,
        created_at: Some(5),
        email: format!("{name}@example.com"),
        username: name.to_string(),
        profile: "p".to_string(),
        first_name: "F".to_string(),
        last_name: "L".to_string(),
        is_admin: id == 1,
    }
}

fn project() -> DbProject {
    DbProject { id: PROJECT, created_at: None, name: "Union".to_string(), owner_id: 1 }
}

#[test]
fn candidate_fetch_levels() {
    assert_eq!(IdOnlyCandidate::from(candidate()), IdOnlyCandidate { id: 11 });
    assert_eq!(
        CompactCandidate::from(candidate()),
        CompactCandidate {
            id: 11,
            choice_label: MultiLangString { th: "หนึ่ง".to_string(), en: Some("One".to_string()) },
            title: "Title".to_string(),
        }
    );
    let d = DefaultCandidate::from_table(candidate(), "question 22");
    assert_eq!(d.id, 11);
    assert_eq!(d.question, "question 22");
    assert_eq!(d.choice_label.en, Some("One".to_string()));
    assert_eq!(d.info_line_5, "5");
    assert_eq!(d.body_2, "b2");
    assert_eq!(d.image_file, "img.png");
}

#[test]
fn election_fetch_levels() {
    assert_eq!(IdOnlyElection::from(election(None, None)), IdOnlyElection { id: 33 });
    assert_eq!(
        CompactElection::from_table(election(None, None), 4),
        CompactElection {
            id: 33,
            label: "L".to_string(),
            name: MultiLangString { th: "ชื่อ".to_string(), en: Some("Name".to_string()) },
            question_count: 4,
        }
    );
    let d = DefaultElection::from_table(election(Some("ละเอียด"), None), 44u8, vec![1u8, 2]);
    assert_eq!(d.project, 44);
    assert_eq!(d.questions, vec![1, 2]);
    assert_eq!(d.header, MultiLangString { th: "หัว".to_string(), en: Some("Header".to_string()) });
    assert_eq!(d.detail, Some(MultiLangString { th: "ละเอียด".to_string(), en: None }));
    let d = DefaultElection::from_table(election(None, Some("detail")), 0u8, Vec::<u8>::new());
    assert_eq!(d.detail, None);
}

#[test]
fn question_fetch_levels() {
    let q = DbQuestion {
        id: 55,
        created_at: None,
        election_id: 33,
        question_th: "ถาม".to_string(),
        select_amount: 1,
        question_en: "Ask".to_string(),
        faculty_code: "21".to_string(),
        student_year_start: 1,
        student_year_end: 4,
        student_program: "S".to_string(),
        question_order: 2,
    };
    let d = DefaultQuestion::from_table(q, "election", vec!["c1", "c2"]);
    assert_eq!(d.id, 55);
    assert_eq!(d.question, MultiLangString { th: "ถาม".to_string(), en: Some("Ask".to_string()) });
    assert_eq!(d.student_year_start, 1i64);
    assert_eq!(d.student_year_end, 4i64);
    assert_eq!(d.candidates, vec!["c1", "c2"]);
    assert_eq!(IdOnlyQuestion { id: 55 }.id, 55);
}

#[test]
fn users_keep_their_columns_and_order() {
    let u = User::from(user(1, "ann"));
    assert_eq!(u.email, "ann@example.com");
    assert!(u.is_admin);
    let users = User::from_db_users(vec![user(2, "bob"), user(3, "cat"), user(1, "ann")]);
    let names: Vec<&str> = users.iter().map(|u| u.username.as_str()).collect();
    assert_eq!(names, vec!["bob", "cat", "ann"]);
    assert_eq!(users[0].id, 2);
    assert!(User::from_db_users(vec![]).is_empty());
}

#[test]
fn project_fetch_levels() {
    assert_eq!(IdOnlyProject::from(project()), IdOnlyProject { id: PROJECT });
    assert_eq!(
        CompactProject::from_table(project(), 3, 5),
        CompactProject { id: PROJECT, name: "Union".to_string(), election_count: 3, member_count: 5 }
    );
    let d = DefaultProject::from_table(project(), vec!["e"], vec![User::from(user(2, "bob"))], User::from(user(1, "ann")));
    assert_eq!(d.elections, vec!["e"]);
    assert_eq!(d.members.len(), 1);
    assert_eq!(d.owner.username, "ann");
}

#[test]
fn export_sql_file_name_and_image_decision() {
    assert_eq!(
        project().export_sql_file_name(1700000000),
        "67e55044-10b1-426f-9247-bb680e5fe0c8-Union-1700000000.sql"
    );
    assert!(DbProject::exports_image("a.png"));
    assert!(!DbProject::exports_image(""));
}

#[test]
fn export_archive_holds_sql_and_images() {
    let images = vec![
        CandidateImage { canon_id: "E-01-01".to_string(), image_file: "x.png".to_string(), bytes: vec![1, 2, 3] },
        CandidateImage { canon_id: "E-01-02".to_string(), image_file: String::new(), bytes: vec![] },
        CandidateImage { canon_id: "E-01-03".to_string(), image_file: "y.z.jpg".to_string(), bytes: vec![9] },
    ];
    let bytes = project().export(1700000000, "INSERT;", &images).unwrap();
    let mut archive = zip::ZipArchive::new(Cursor::new(bytes)).unwrap();
    let names: Vec<String> = archive.file_names().map(|s| s.to_string()).collect();
    let mut sorted = names.clone();
    sorted.sort();
    assert_eq!(
        sorted,
        vec![
            "67e55044-10b1-426f-9247-bb680e5fe0c8-Union-1700000000.sql".to_string(),
            "images/".to_string(),
            "images/E-01-01.png".to_string(),
            "images/E-01-03.jpg".to_string(),
        ]
    );
    let mut sql = String::new();
    archive
        .by_name("67e55044-10b1-426f-9247-bb680e5fe0c8-Union-1700000000.sql")
        .unwrap()
        .read_to_string(&mut sql)
        .unwrap();
    assert_eq!(sql, "INSERT;");
    let mut png = Vec::new();
    archive.by_name("images/E-01-01.png").unwrap().read_to_end(&mut png).unwrap();
    assert_eq!(png, vec![1, 2, 3]);
    let mut jpg = Vec::new();
    archive.by_name("images/E-01-03.jpg").unwrap().read_to_end(&mut jpg).unwrap();
    assert_eq!(jpg, vec![9]);
}

#[test]
fn export_refuses_duplicate_entries() {
    let images = vec![
        CandidateImage { canon_id: "E-01-01".to_string(), image_file: "x.png".to_string(), bytes: vec![1] },
        CandidateImage { canon_id: "E-01-01".to_string(), image_file: "other.png".to_string(), bytes: vec![2] },
    ];
    match project().export(1, "", &images) {
        Err(ems_backend::error::Error::InternalServerError(_, source)) => assert_eq!(source, "DbProject::export"),
        other => panic!("unexpected {:?}", other.map(|b| b.len())),
    }
}

#[test]
fn export_names_the_sql_file_with_the_time_given() {
    let bytes = project().export(-42, "S", &vec![]).unwrap();
    let mut archive = zip::ZipArchive::new(Cursor::new(bytes)).unwrap();
    let names: Vec<String> = archive.file_names().map(|s| s.to_string()).collect();
    assert!(names.contains(&"67e55044-10b1-426f-9247-bb680e5fe0c8-Union--42.sql".to_string()));
    let mut sql = String::new();
    archive.by_name("67e55044-10b1-426f-9247-bb680e5fe0c8-Union--42.sql").unwrap().read_to_string(&mut sql).unwrap();
    assert_eq!(sql, "S");
}
