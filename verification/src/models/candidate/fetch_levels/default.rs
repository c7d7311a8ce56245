//! A candidate with all it presents to voters and the question it answers.

use vstd::prelude::*;

use crate::common::string::MultiLangString;
use crate::ids::EntityId;
use crate::models::candidate::db::DbCandidate;

verus! {

/// A candidate with all it presents to voters, and its question in the shape
/// `Q` that the caller fetched it in.
#[derive(Debug)]
pub struct DefaultCandidate<Q> {
    pub id: EntityId,
    pub question: Q,
    pub choice_label: MultiLangString,
    pub title: String,
    pub info_line_1: String,
    pub info_line_2: String,
    pub info_line_3: String,
    pub info_line_4: String,
    pub info_line_5: String,
    pub body_title_1: String,
    pub body_1: String,
    pub body_title_2: String,
    pub body_2: String,
    pub image_file: String,
}

impl<Q> DefaultCandidate<Q> {
    /// The candidate of row `table`, with `question`, which was fetched by the
    /// row's `question_id`.
    pub fn from_table(table: DbCandidate, question: Q) -> (c: DefaultCandidate<Q>)
        ensures
            c == (DefaultCandidate {
                id: table.id,
                question: question,
                choice_label: MultiLangString {
                    th: table.choice_label_th,
                    en: Some(table.choice_label_en),
                },
                title: table.title,
                info_line_1: table.info_line_1,
                info_line_2: table.info_line_2,
                info_line_3: table.info_line_3,
                info_line_4: table.info_line_4,
                info_line_5: table.info_line_5,
                body_title_1: table.body_title_1,
                body_1: table.body_1,
                body_title_2: table.body_title_2,
                body_2: table.body_2,
                image_file: table.image_file,
            }),
    {
        DefaultCandidate {
            id: table.id,
            choice_label: MultiLangString {
                th: table.choice_label_th,
                en: Some(table.choice_label_en),
            },
            question: question,
            title: table.title,
            info_line_1: table.info_line_1,
            info_line_2: table.info_line_2,
            info_line_3: table.info_line_3,
            info_line_4: table.info_line_4,
            info_line_5: table.info_line_5,
            body_title_1: table.body_title_1,
            body_1: table.body_1,
            body_title_2: table.body_title_2,
            body_2: table.body_2,
            image_file: table.image_file,
        }
    }
}

} // verus!
