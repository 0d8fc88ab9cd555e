//! Records that make up a computed graph.
//!
//! The polling logic never looks inside a graph; these types give callers a
//! typed form of its parts that hold no floating-point data.

use vstd::prelude::*;

verus! {

/// Identifier of a paper.
pub type PaperID = String;

/// An author shared by several papers of a graph.
#[derive(Clone, Debug)]
pub struct CommonAuthor {
    pub id: String,
    pub mention_indexes: Vec<i32>,
    pub mentions: Vec<PaperID>,
    pub name: String,
    pub url: String,
}

/// An author as listed on one paper.
#[derive(Clone, Debug)]
pub struct PaperAuthor {
    pub ids: Vec<Option<String>>,
    pub name: String,
}

/// Identifiers of a paper in outside catalogues.
#[derive(Clone, Debug)]
pub struct ExternalIDs {
    pub acl: Option<String>,
    pub arxiv: Option<String>,
    pub corpus_id: Option<u64>,
    pub dblp: Option<String>,
    pub doi: Option<String>,
    pub mag: Option<String>,
    pub pub_med: Option<String>,
    pub pub_med_central: Option<String>,
}

/// Bibliographic data common to every paper record.
#[derive(Clone, Debug)]
pub struct BasePaper {
    pub abstract_text: Option<String>,
    pub arxiv_id: Option<String>,
    pub authors: Vec<PaperAuthor>,
    pub corpus_id: i32,
    pub doi: Option<String>,
    pub external_ids: ExternalIDs,
    pub fields_of_study: Option<Vec<String>>,
    pub id: PaperID,
    pub is_open_access: Option<bool>,
    pub journal_name: Option<String>,
    pub journal_pages: Option<String>,
    pub journal_volume: Option<String>,
    pub mag_id: Option<String>,
    pub number_of_authors: i32,
    pub paper_id: PaperID,
    pub pdf_urls: Option<Vec<String>>,
    pub pmid: Option<String>,
    pub publication_date: Option<String>,
    pub publication_types: Option<Vec<String>>,
    pub title: String,
    pub tldr: Option<String>,
    pub url: String,
    pub venue: Option<String>,
    pub year: Option<i32>,
}

/// A paper that cites several papers of the graph.
#[derive(Clone, Debug)]
pub struct CommonCitation {
    pub base_paper: BasePaper,
    pub edges_count: i32,
    pub local_references: Vec<PaperID>,
    pub paper_id: PaperID,
    pub pi_name: Option<String>,
}

/// A paper that several papers of the graph cite.
#[derive(Clone, Debug)]
pub struct CommonReference {
    pub base_paper: BasePaper,
    pub edges_count: i32,
    pub local_citations: Vec<PaperID>,
    pub paper_id: PaperID,
    pub pi_name: Option<String>,
}

} // verus!
