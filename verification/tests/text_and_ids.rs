use ems_backend::common::response::{
    EmptyResponseData, ErrorResponseType, ErrorType, MetadataType, ResponseType,
};
use ems_backend::error::Error;
use ems_backend::models::candidate::db::DbCandidate;
use ems_backend::models::question::db::DbQuestion;
use ems_backend::text::{int_to_decimal, int_to_pad2, last_segment, nat_to_decimal};

const ELECTION: u128 = 0x67e5_5044_10b1_426f_9247_bb68_0e5f_e0c8;

#[test]
fn decimal_of_naturals() {
    assert_eq!(nat_to_decimal(0), "0");
    assert_eq!(nat_to_decimal(7), "7");
    assert_eq!(nat_to_decimal(10), "10");
    assert_eq!(nat_to_decimal(1234567890), "1234567890");
    assert_eq!(nat_to_decimal(u64::MAX), "18446744073709551615");
}

#[test]
fn decimal_of_integers() {
    assert_eq!(int_to_decimal(0), "0");
    assert_eq!(int_to_decimal(-7), "-7");
    assert_eq!(int_to_decimal(42), "42");
    assert_eq!(int_to_decimal(i64::MIN), i64::MIN.to_string());
    assert_eq!(int_to_decimal(i64::MAX), i64::MAX.to_string());
}

#[test]
fn pad2_matches_format() {
    for n in [-120i64, -10, -9, -1, 0, 1, 5, 9, 10, 42, 99, 100, 12345] {
        assert_eq!(int_to_pad2(n), format!("{:02}", n));
    }
    assert_eq!(int_to_pad2(3), "03");
    assert_eq!(int_to_pad2(-3), "-3");
}

#[test]
fn last_segment_is_what_split_yields_last() {
    for s in ["photo.png", "a.b.jpeg", "noext", "trailing.", "", ".hidden", "ก.ข"] {
        assert_eq!(last_segment(s, '.'), s.split('.').next_back().unwrap_or(""));
    }
    assert_eq!(last_segment("archive.tar.gz", '.'), "gz");
}

#[test]
fn question_canon_id_found() {
    let id = DbQuestion::get_canon_id(1, Some((ELECTION, 3))).unwrap();
    assert_eq!(id, "67e5504410b1426f9247bb680e5fe0c8-03");
    let id = DbQuestion::get_canon_id(1, Some((ELECTION, 12))).unwrap();
    assert_eq!(id, "67e5504410b1426f9247bb680e5fe0c8-12");
}

#[test]
fn question_canon_id_not_found() {
    let err = DbQuestion::get_canon_id(ELECTION, None).unwrap_err();
    assert_eq!(
        err,
        Error::EntityNotFound(
            "Question".to_string(),
            "questions/67e55044-10b1-426f-9247-bb680e5fe0c8".to_string()
        )
    );
}

#[test]
fn candidate_canon_id_found() {
    let id = DbCandidate::get_canon_id(5, Some(("E01".to_string(), 2, 7))).unwrap();
    assert_eq!(id, "E01-02-07");
    let id = DbCandidate::get_canon_id(5, Some(("E01".to_string(), 10, 0))).unwrap();
    assert_eq!(id, "E01-10-00");
}

#[test]
fn candidate_canon_id_not_found() {
    let err = DbCandidate::get_canon_id(ELECTION, None).unwrap_err();
    assert_eq!(
        err,
        Error::EntityNotFound(
            "Candidate not found".to_string(),
            "candidates/67e55044-10b1-426f-9247-bb680e5fe0c8".to_string()
        )
    );
}

#[test]
fn error_type_text() {
    let e = ErrorType {
        id: ELECTION,
        code: 404,
        error_type: "entity_not_found".to_string(),
        detail: "Question".to_string(),
        source: "questions/1".to_string(),
    };
    assert_eq!(
        e.to_string(),
        "{ id: 67e55044-10b1-426f-9247-bb680e5fe0c8, code: 404, error_type: entity_not_found, detail: Question, source: questions/1 }"
    );
}

#[test]
fn empty_response_data_is_a_unit() {
    assert_eq!(EmptyResponseData, EmptyResponseData);
}

#[test]
fn responses_carry_what_they_are_given() {
    let meta = MetadataType { timestamp: 5, pagination: Some(2u32) };
    let r = ResponseType::new("data", Some(meta), "1.0".to_string(), 7);
    assert_eq!(r.api_version, "1.0");
    assert_eq!(r.data, Some("data"));
    assert_eq!(r.error, None);
    assert_eq!(r.meta.timestamp, 5);
    assert_eq!(r.meta.pagination, Some(2));
    let r: ResponseType<u8, u32> = ResponseType::new(1, None, "1.0".to_string(), 1_700_000_000_000_000);
    assert_eq!(r.meta.pagination, None);
    assert_eq!(r.meta.timestamp, 1_700_000_000_000_000);
    let m: MetadataType<u32> = MetadataType::new(3, Some(9));
    assert_eq!(m.timestamp, 3);
    assert_eq!(m.pagination, Some(9));
    let e = ErrorType { id: 1, code: 500, error_type: "x".to_string(), detail: "d".to_string(), source: "s".to_string() };
    let r: ErrorResponseType<u32> = ErrorResponseType::new(e, None, "2.0".to_string());
    assert_eq!(r.api_version, "2.0");
    assert_eq!(r.error.code, 500);
    assert_eq!(r.data, None);
    assert!(r.meta.is_none());
}
