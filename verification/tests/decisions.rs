use ems_backend::error::Error;
use ems_backend::models::candidate::db::DbCandidate;
use ems_backend::models::candidate::requests::sortable::SortableCandidate;
use ems_backend::models::election::db::DbElection;
use ems_backend::models::election::requests::sortable::SortableElection;
use ems_backend::models::project::db::DbProject;
use ems_backend::models::project::requests::sortable::SortableProject;
use ems_backend::models::question::db::DbQuestion;
use ems_backend::models::question::requests::sortable::SortableQuestion;
use ems_backend::permissions::authorizer::{ActionType, DefaultAuthorizer, count_found_any, count_or_zero};

const ALL_ACTIONS: [ActionType; 7] = [
    ActionType::Create,
    ActionType::ReadIdOnly,
    ActionType::ReadCompact,
    ActionType::ReadDefault,
    ActionType::ReadDetailed,
    ActionType::Update,
    ActionType::Delete,
];

fn refusal(source: &str, msg: &str) -> Result<(), Error> {
    Err(Error::InvalidPermission(source.to_string(), msg.to_string()))
}

#[test]
fn counts_read_as_found_or_not() {
    assert!(count_found_any(Some(1)));
    assert!(count_found_any(Some(3)));
    assert!(!count_found_any(Some(0)));
    assert!(!count_found_any(None));
    assert_eq!(count_or_zero(None), 0);
    assert_eq!(count_or_zero(Some(7)), 7);
}

#[test]
fn project_owner_may_do_everything() {
    for action in ALL_ACTIONS {
        assert_eq!(DbProject::authorize(Some(1), Some(0), action), Ok(()));
    }
}

#[test]
fn project_member_may_not_delete() {
    assert_eq!(DbProject::authorize(Some(0), Some(1), ActionType::Create), Ok(()));
    assert_eq!(DbProject::authorize(None, Some(2), ActionType::Update), Ok(()));
    assert_eq!(
        DbProject::authorize(Some(0), Some(1), ActionType::Delete),
        refusal("Project Authorizer", "User is not authorized to delete project")
    );
}

#[test]
fn project_stranger_may_only_read() {
    assert_eq!(
        DbProject::authorize(Some(0), None, ActionType::Create),
        refusal("Project Authorizer", "User is not authorized to create/update project")
    );
    assert_eq!(
        DbProject::authorize(None, None, ActionType::Update),
        refusal("Project Authorizer", "User is not authorized to create/update project")
    );
    assert_eq!(
        DbProject::authorize(None, None, ActionType::Delete),
        refusal("Project Authorizer", "User is not authorized to delete project")
    );
    for action in [ActionType::ReadIdOnly, ActionType::ReadCompact, ActionType::ReadDefault, ActionType::ReadDetailed] {
        assert_eq!(DbProject::authorize(None, None, action), Ok(()));
    }
}

#[test]
fn election_question_candidate_need_owner_or_member() {
    for action in ALL_ACTIONS {
        assert_eq!(DbElection::authorize(Some(1), None, action), Ok(()));
        assert_eq!(DbQuestion::authorize(None, Some(1), action), Ok(()));
        assert_eq!(DbCandidate::authorize(Some(2), Some(2), action), Ok(()));
        assert_eq!(
            DbElection::authorize(Some(0), Some(0), action),
            refusal("Election Authorizer", "User is not authorized to create election")
        );
        assert_eq!(
            DbQuestion::authorize(None, None, action),
            refusal("Question Authorizer", "User is not authorized to create question")
        );
        assert_eq!(
            DbCandidate::authorize(None, Some(0), action),
            refusal("Candidate Authorizer", "User is not authorized to read/create/update/delete candidate")
        );
    }
}

#[test]
fn default_authorizer_shares_itself() {
    let a = DefaultAuthorizer;
    assert_eq!(*a.clone_to_arc(), DefaultAuthorizer);
}

#[test]
fn sort_keys_name_columns() {
    assert_eq!(SortableCandidate::Id.to_string(), "id");
    assert_eq!(SortableCandidate::CreatedAt.to_string(), "created_at");
    assert_eq!(SortableCandidate::Title.to_string(), "title");
    assert_eq!(SortableCandidate::ChoiceLabelTh.to_string(), "choice_label_th");
    assert_eq!(SortableCandidate::ChoiceLabelEn.to_string(), "choice_label_en");
    assert_eq!(SortableElection::NameTh.to_string(), "name_th");
    assert_eq!(SortableElection::NameEn.to_string(), "name_en");
    assert_eq!(SortableElection::Label.to_string(), "label");
    assert_eq!(SortableElection::HeaderTh.to_string(), "header_th");
    assert_eq!(SortableElection::HeaderEn.to_string(), "header_en");
    assert_eq!(SortableElection::DetailTh.to_string(), "detail_th");
    assert_eq!(SortableElection::DetailEn.to_string(), "detail_en");
    assert_eq!(SortableProject::Name.to_string(), "name");
    assert_eq!(SortableProject::CreatedAt.to_string(), "created_at");
    assert_eq!(SortableQuestion::Label.to_string(), "label");
    assert_eq!(SortableQuestion::FacultyCode.to_string(), "faculty_code");
    assert_eq!(SortableQuestion::StudentProgram.to_string(), "student_program");
    assert_eq!(SortableQuestion::ElectionId.to_string(), "election_id");
}

#[test]
fn sort_keys_default_to_id() {
    assert_eq!(SortableCandidate::default(), SortableCandidate::Id);
    assert_eq!(SortableElection::default(), SortableElection::Id);
    assert_eq!(SortableProject::default(), SortableProject::Id);
    assert_eq!(SortableQuestion::default(), SortableQuestion::Id);
    assert_eq!(SortableQuestion::default().to_string(), "id");
}
