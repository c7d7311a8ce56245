use ems_backend::models::candidate::db::{
    CandidateInfoRow, ChoiceMappingRow, DbCandidate, candidateinfo_value_string,
    image_export_file_name,
};
use ems_backend::models::project::db::DbProject;
use ems_backend::models::question::db::{DbQuestion, QuestionLogicRow};

const ELECTION: u128 = 0x67e5_5044_10b1_426f_9247_bb68_0e5f_e0c8;

fn question_row(order: i32, select_amount: i32, count: Option<i64>) -> QuestionLogicRow {
    QuestionLogicRow {
        id: 1,
        election_id: ELECTION,
        question_order: order,
        question_th: "คำถาม".to_string(),
        question_en: "Question".to_string(),
        faculty_code: "21".to_string(),
        student_year_start: 1,
        student_year_end: 4,
        student_program: "S".to_string(),
        select_amount,
        candidate_count: count,
    }
}

const QL_HEADER: &str = "INSERT INTO `questionlogic` (`ElectionID`, `QuestionID`, `QuestionTH`, `QuestionEN`, `QuestionType`, `FacultyCode`, `StudentYear_Start`, `StudentYear_End`, `StudentProgram`, `Dormitory`, `DayNight`) VALUES ";

#[test]
fn questionlogic_without_questions() {
    assert_eq!(DbQuestion::get_canon_questionlogic_insert(&vec![]), QL_HEADER);
}

#[test]
fn questionlogic_with_questions() {
    let rows = vec![question_row(1, 1, Some(3)), question_row(2, 2, Some(5)), question_row(10, 0, None)];
    let e = "67e5504410b1426f9247bb680e5fe0c8";
    let expected = format!(
        "{QL_HEADER}('{e}', '{e}-01', 'คำถาม', 'Question', '3', '21', 1, 4, 'S', '', ''),('{e}', '{e}-02', 'คำถาม', 'Question', 'SELECT2', '21', 1, 4, 'S', '', ''),('{e}', '{e}-10', 'คำถาม', 'Question', '0', '21', 1, 4, 'S', '', '')"
    );
    assert_eq!(DbQuestion::get_canon_questionlogic_insert(&rows), expected);
}

const CM_HEADER: &str = "INSERT INTO `choicemapping` (`ID`, `QuestionID`, `ChoiceID`, `ChoiceTH`, `ChoiceEN`) VALUES ";

#[test]
fn choicemapping_without_candidates() {
    assert_eq!(DbCandidate::get_canon_choicemapping_insert(&vec![]), format!("{CM_HEADER};"));
}

#[test]
fn choicemapping_with_candidates() {
    let rows = vec![
        ChoiceMappingRow {
            canon_id: "E-01-01".to_string(),
            question_canon_id: "E-01".to_string(),
            choice_order: 1,
            choice_label_th: "ก".to_string(),
            choice_label_en: "A".to_string(),
        },
        ChoiceMappingRow {
            canon_id: "E-01-02".to_string(),
            question_canon_id: "E-01".to_string(),
            choice_order: 2,
            choice_label_th: "ข".to_string(),
            choice_label_en: "B".to_string(),
        },
    ];
    let expected = format!(
        "{CM_HEADER}\n('E-01-01', 'E-01', '1', 'ก', 'A'),\n('E-01-02', 'E-01', '2', 'ข', 'B');"
    );
    assert_eq!(DbCandidate::get_canon_choicemapping_insert(&rows), expected);
}

fn info_row(canon: &str, body_1: &str, image_file: &str) -> CandidateInfoRow {
    CandidateInfoRow {
        canon_id: canon.to_string(),
        election_canon_id: "E".to_string(),
        title: "T".to_string(),
        info_line_1: "l1".to_string(),
        info_line_2: "l2".to_string(),
        info_line_3: "l3".to_string(),
        info_line_4: "l4".to_string(),
        info_line_5: "l5".to_string(),
        body_title_1: "bt1".to_string(),
        body_1: body_1.to_string(),
        body_title_2: "bt2".to_string(),
        body_2: "b2".to_string(),
        image_file: image_file.to_string(),
    }
}

const CI_HEADER: &str = "INSERT INTO `candidateinfo` (`ID`, `ElectionID`, `Title`, `InfoLine1`, `InfoLine2`, `InfoLine3`, `InfoLine4`, `InfoLine5`, `InfoTitle1`, `infoBody1`, `InfoTitle2`, `infoBody2`, `ImageFile`) VALUES ";

#[test]
fn candidateinfo_without_candidates() {
    assert_eq!(DbCandidate::get_canon_candidateinfo_insert(&vec![]), format!("{CI_HEADER};"));
}

#[test]
fn candidateinfo_escapes_bodies() {
    let rows = vec![info_row("E-01-01", "line\n\"quoted\"", "abc.photo.PNG"), info_row("E-01-02", "plain", "noext")];
    let expected = format!(
        "{CI_HEADER}\n('E-01-01', 'E', 'T', 'l1', 'l2', 'l3', 'l4', 'l5', 'bt1', 'line\\n\\\"quoted\\\"', 'bt2', 'b2', 'E-01-01.PNG'),\n('E-01-02', 'E', 'T', 'l1', 'l2', 'l3', 'l4', 'l5', 'bt1', 'plain', 'bt2', 'b2', 'E-01-02.noext');"
    );
    assert_eq!(DbCandidate::get_canon_candidateinfo_insert(&rows), expected);
}

#[test]
fn candidateinfo_value_takes_bodies_as_given() {
    let row = info_row("X-01-01", "ignored", "p.jpg");
    assert_eq!(
        candidateinfo_value_string(&row, "B1", "B2"),
        "\n('X-01-01', 'E', 'T', 'l1', 'l2', 'l3', 'l4', 'l5', 'bt1', 'B1', 'bt2', 'B2', 'X-01-01.jpg'),"
    );
}

#[test]
fn image_file_names() {
    assert_eq!(image_export_file_name("E-01-02", "uploads/x.y.webp"), "E-01-02.webp");
    assert_eq!(image_export_file_name("E-01-02", "noext"), "E-01-02.noext");
    assert_eq!(DbProject::image_entry_name("E-01-02", "a.png"), "images/E-01-02.png");
}

#[test]
fn canon_inserts_are_joined_by_blank_lines() {
    assert_eq!(DbProject::export_canon_inserts("a", "b", "c", "d"), "a\n\n\nb\n\n\nc\n\n\nd");
}
