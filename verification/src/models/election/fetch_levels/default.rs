//! An election with its project, questions, header and detail.

use vstd::prelude::*;

use crate::common::string::MultiLangString;
use crate::ids::EntityId;
use crate::models::election::db::DbElection;

verus! {

/// An election with its project and questions, in the shapes `P` and `Q` the
/// caller fetched them in, and its header and detail (Thai and English).
#[derive(Debug)]
pub struct DefaultElection<P, Q> {
    pub id: EntityId,
    pub project: P,
    pub label: String,
    pub name: MultiLangString,
    pub questions: Vec<Q>,
    pub header: MultiLangString,
    pub detail: Option<MultiLangString>,
}

/// The detail of an election: present when its Thai detail is, with the
/// English detail (if any) beside it.
pub open spec fn election_detail(detail_th: Option<String>, detail_en: Option<String>) -> Option<MultiLangString> {
    match detail_th {
        Some(th) => Some(MultiLangString { th: th, en: detail_en }),
        None => None,
    }
}

/// An election has a detail exactly when it has a Thai detail; the detail then
/// holds the Thai detail and, unchanged, the English one.
pub proof fn lemma_election_detail_keeps_both(detail_th: Option<String>, detail_en: Option<String>)
    ensures
        election_detail(detail_th, detail_en) is Some <==> detail_th is Some,
        election_detail(detail_th, detail_en) matches Some(d) ==> Some(d.th) == detail_th && d.en == detail_en,
{
}

impl<P, Q> DefaultElection<P, Q> {
    /// The election of row `table`, with `project` (fetched by the row's
    /// `project_id`) and `questions` (fetched by the identifiers of the
    /// election's questions).
    pub fn from_table(table: DbElection, project: P, questions: Vec<Q>) -> (e: DefaultElection<P, Q>)
        ensures
            e == (DefaultElection {
                id: table.id,
                project: project,
                label: table.label,
                name: MultiLangString { th: table.name_th, en: Some(table.name_en) },
                questions: questions,
                header: MultiLangString { th: table.header_th, en: Some(table.header_en) },
                detail: election_detail(table.detail_th, table.detail_en),
            }),
    {
        let detail = match table.detail_th {
            Some(th) => Some(MultiLangString { th, en: table.detail_en }),
            None => None,
        };
        DefaultElection {
            id: table.id,
            project,
            label: table.label,
            name: MultiLangString { th: table.name_th, en: Some(table.name_en) },
            questions,
            header: MultiLangString { th: table.header_th, en: Some(table.header_en) },
            detail,
        }
    }
}

} // verus!
