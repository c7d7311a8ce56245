//! A candidate with its label and title.

use vstd::prelude::*;
use vstd::std_specs::convert::FromSpecImpl;

use crate::common::string::MultiLangString;
use crate::ids::EntityId;
use crate::models::candidate::db::DbCandidate;

verus! {

/// A candidate with its choice label (Thai and English) and title.
#[derive(Debug, PartialEq, Eq)]
pub struct CompactCandidate {
    pub id: EntityId,
    pub choice_label: MultiLangString,
    pub title: String,
}

impl From<DbCandidate> for CompactCandidate {
    fn from(candidate: DbCandidate) -> (c: CompactCandidate) {
        CompactCandidate {
            id: candidate.id,
            choice_label: MultiLangString {
                th: candidate.choice_label_th,
                en: Some(candidate.choice_label_en),
            },
            title: candidate.title,
        }
    }
}

impl FromSpecImpl<DbCandidate> for CompactCandidate {
    open spec fn obeys_from_spec() -> bool {
        true
    }

    open spec fn from_spec(candidate: DbCandidate) -> CompactCandidate {
        CompactCandidate {
            id: candidate.id,
            choice_label: MultiLangString {
                th: candidate.choice_label_th,
                en: Some(candidate.choice_label_en),
            },
            title: candidate.title,
        }
    }
}

} // verus!
