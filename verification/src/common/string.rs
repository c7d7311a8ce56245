//! Text given in Thai and, optionally, in English.

use vstd::prelude::*;

verus! {

/// A text in Thai, with its English version when there is one.
#[derive(Debug, PartialEq, Eq)]
pub struct MultiLangString {
    pub th: String,
    pub en: Option<String>,
}

} // verus!
