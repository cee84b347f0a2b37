use learner::clients::arxiv::{arxiv_query_url, feed_to_paper, ArxivEntry, ArxivFeed};
use learner::clients::doi::{
    author_name, crossref_query_url, parse_date, work_to_paper, CrossrefAffiliation,
    CrossrefAuthor, CrossrefDate, CrossrefWork,
};
use learner::clients::iacr::{
    iacr_query_url, response_to_paper, strip_oai_namespaces, DublinCore, OaiError, OaiPmhResponse,
};
use learner::datetime::{parse_rfc3339_utc, Timestamp};
use learner::errors::LearnerError;
use learner::paper::Source;

fn ts(year: i32, month: u8, day: u8) -> Timestamp {
    Timestamp { year, month, day, hour: 0, minute: 0, second: 0 }
}

fn sample_entry() -> ArxivEntry {
    ArxivEntry {
        title: "Verifiable Fully Homomorphic Encryption".to_string(),
        authors: vec!["Alexander Viand".to_string(), "Christian Knabenhans".to_string()],
        summary: "An abstract about FHE.".to_string(),
        published: Timestamp { year: 2023, month: 1, day: 17, hour: 18, minute: 59, second: 59 },
        arxiv_url: "http://arxiv.org/abs/2301.07041v1".to_string(),
    }
}

#[test]
fn test_arxiv_feed_to_paper() {
    let feed = ArxivFeed { entries: vec![sample_entry()] };
    let paper = feed_to_paper(&feed, "2301.07041").unwrap();
    assert_eq!(paper.source, Source::Arxiv);
    assert_eq!(paper.source_identifier, "2301.07041");
    assert_eq!(paper.title, "Verifiable Fully Homomorphic Encryption");
    assert_eq!(paper.authors.len(), 2);
    assert_eq!(paper.authors[0].name, "Alexander Viand");
    assert_eq!(paper.authors[0].affiliation, None);
    assert_eq!(paper.authors[0].email, None);
    assert_eq!(paper.abstract_text, "An abstract about FHE.");
    // The end-to-end arXiv shape: a derived PDF link and no DOI.
    let pdf = paper.pdf_url.clone().unwrap();
    assert_eq!(pdf, "http://arxiv.org/pdf/2301.07041v1.pdf");
    assert!(pdf.contains("/pdf/"));
    assert!(pdf.ends_with(".pdf"));
    assert_eq!(paper.doi, None);
    assert!(!paper.title.is_empty());
}

#[test]
fn test_arxiv_empty_feed_is_not_found() {
    let feed = ArxivFeed { entries: vec![] };
    match feed_to_paper(&feed, "9999.99999") {
        Err(LearnerError::NotFound) => {}
        other => panic!("expected NotFound, got {:?}", other),
    }
}

#[test]
fn test_arxiv_query_url() {
    assert_eq!(
        arxiv_query_url("2301.07041"),
        "http://export.arxiv.org/api/query?id_list=2301.07041&max_results=1"
    );
}

fn date(parts: Vec<Vec<i32>>) -> CrossrefDate {
    CrossrefDate { date_parts: parts }
}

fn sample_work() -> CrossrefWork {
    CrossrefWork {
        title: vec!["MapReduce: simplified data processing on large clusters".to_string()],
        author: vec![CrossrefAuthor {
            given: Some("Jeffrey".to_string()),
            family: Some("Dean".to_string()),
            affiliation: vec![CrossrefAffiliation { name: Some("Google".to_string()) }],
        }],
        abstract_text: None,
        published_print: Some(date(vec![vec![2008, 1]])),
        published_online: None,
        url: Some("http://dl.acm.org/citation.cfm?doid=1327452.1327492".to_string()),
        doi: "10.1145/1327452.1327492".to_string(),
        created: None,
    }
}

#[test]
fn test_crossref_work_to_paper() {
    let paper = work_to_paper(sample_work(), "10.1145/1327452.1327492").unwrap();
    assert_eq!(paper.source, Source::DOI);
    assert_eq!(paper.source_identifier, "10.1145/1327452.1327492");
    assert_eq!(paper.title, "MapReduce: simplified data processing on large clusters");
    assert_eq!(paper.authors.len(), 1);
    assert_eq!(paper.authors[0].name, "Jeffrey Dean");
    assert_eq!(paper.authors[0].affiliation, Some("Google".to_string()));
    assert_eq!(paper.abstract_text, "");
    assert_eq!(paper.publication_date, ts(2008, 1, 1));
    assert_eq!(paper.pdf_url, Some("http://dl.acm.org/citation.cfm?doid=1327452.1327492".to_string()));
    assert_eq!(paper.doi, Some("10.1145/1327452.1327492".to_string()));
}

#[test]
fn test_crossref_author_names() {
    assert_eq!(author_name(&Some("Jane".to_string()), &Some("Smith".to_string())), "Jane Smith");
    assert_eq!(author_name(&None, &Some("Smith".to_string())), "Smith");
    assert_eq!(author_name(&Some("Jane".to_string()), &None), "Jane");
    assert_eq!(author_name(&None, &None), "Unknown");
}

#[test]
fn test_crossref_date_fallback_online() {
    let mut work = sample_work();
    work.published_print = None;
    work.published_online = Some(date(vec![vec![2019, 6, 3]]));
    work.created = None;
    let paper = work_to_paper(work, "10.1/x").unwrap();
    assert_eq!(paper.publication_date, ts(2019, 6, 3));
}

#[test]
fn test_crossref_date_fallback_created() {
    let mut work = sample_work();
    work.published_print = None;
    work.published_online = None;
    work.created = Some(date(vec![vec![2011, 12]]));
    let paper = work_to_paper(work, "10.1/x").unwrap();
    assert_eq!(paper.publication_date, ts(2011, 12, 1));
}

#[test]
fn test_crossref_date_fallback_none_is_api_error() {
    let mut work = sample_work();
    work.published_print = None;
    work.published_online = None;
    work.created = None;
    match work_to_paper(work, "10.1/x") {
        Err(LearnerError::ApiError(_)) => {}
        other => panic!("expected ApiError, got {:?}", other),
    }
}

#[test]
fn test_crossref_print_takes_precedence() {
    let mut work = sample_work();
    work.published_print = Some(date(vec![vec![2008, 1]]));
    work.published_online = Some(date(vec![vec![2009, 2, 3]]));
    work.created = Some(date(vec![vec![2010, 3, 4]]));
    let paper = work_to_paper(work, "10.1/x").unwrap();
    assert_eq!(paper.publication_date, ts(2008, 1, 1));
}

#[test]
fn test_crossref_missing_title_is_api_error() {
    let mut work = sample_work();
    work.title = vec![];
    match work_to_paper(work, "10.1/x") {
        Err(LearnerError::ApiError(m)) => assert_eq!(m, "No title found"),
        other => panic!("expected ApiError, got {:?}", other),
    }
}

#[test]
fn test_crossref_parse_date_components() {
    assert_eq!(parse_date(&date(vec![vec![2024]])), Some(ts(2024, 1, 1)));
    assert_eq!(parse_date(&date(vec![vec![2024, 3]])), Some(ts(2024, 3, 1)));
    assert_eq!(parse_date(&date(vec![vec![2024, 2, 29]])), Some(ts(2024, 2, 29)));
    assert_eq!(parse_date(&date(vec![vec![2023, 2, 29]])), None);
    assert_eq!(parse_date(&date(vec![vec![2024, 13, 1]])), None);
    assert_eq!(parse_date(&date(vec![vec![2024, 0, 1]])), None);
    assert_eq!(parse_date(&date(vec![vec![]])), None);
    assert_eq!(parse_date(&date(vec![])), None);
}

#[test]
fn test_crossref_query_url() {
    assert_eq!(
        crossref_query_url("10.1145/1327452.1327492"),
        "https://api.crossref.org/works/10.1145/1327452.1327492"
    );
}

fn sample_dc() -> DublinCore {
    DublinCore {
        title: "On the Size of Pairing-based Non-interactive Arguments".to_string(),
        creators: vec!["Jens Groth".to_string()],
        description: "An abstract about SNARKs.".to_string(),
        dates: vec!["2016-03-09T14:12:42Z".to_string()],
        identifiers: vec![
            "On the Size of Pairing-based Non-interactive Arguments".to_string(),
            "https://eprint.iacr.org/2016/260".to_string(),
        ],
    }
}

#[test]
fn test_iacr_response_to_paper() {
    let resp = OaiPmhResponse { record: Some(sample_dc()), error: None };
    let paper = response_to_paper(&resp, "2016/260").unwrap();
    assert_eq!(paper.source, Source::IACR);
    assert_eq!(paper.source_identifier, "2016/260");
    assert_eq!(paper.title, "On the Size of Pairing-based Non-interactive Arguments");
    assert!(!paper.title.is_empty());
    assert_eq!(paper.authors.len(), 1);
    assert_eq!(paper.authors[0].name, "Jens Groth");
    assert_eq!(paper.abstract_text, "An abstract about SNARKs.");
    assert_eq!(
        paper.publication_date,
        Timestamp { year: 2016, month: 3, day: 9, hour: 14, minute: 12, second: 42 }
    );
    // The end-to-end IACR shape: the PDF link is derived from the identifier.
    assert_eq!(paper.pdf_url, Some("https://eprint.iacr.org/2016/260.pdf".to_string()));
    assert_eq!(paper.doi, Some("https://eprint.iacr.org/2016/260".to_string()));
}

#[test]
fn test_iacr_error_element_is_api_error() {
    let resp = OaiPmhResponse {
        record: None,
        error: Some(OaiError {
            code: "idDoesNotExist".to_string(),
            message: "No matching identifier".to_string(),
        }),
    };
    match response_to_paper(&resp, "9999/999") {
        Err(LearnerError::ApiError(m)) => {
            assert_eq!(m, "OAI-PMH error: idDoesNotExist - No matching identifier");
        }
        other => panic!("expected ApiError, got {:?}", other),
    }
}

#[test]
fn test_iacr_missing_record_is_api_error() {
    let resp = OaiPmhResponse { record: None, error: None };
    match response_to_paper(&resp, "2016/260") {
        Err(LearnerError::ApiError(m)) => assert_eq!(m, "No record found"),
        other => panic!("expected ApiError, got {:?}", other),
    }
}

#[test]
fn test_iacr_bad_identifier_shape() {
    let resp = OaiPmhResponse { record: Some(sample_dc()), error: None };
    for bad in ["2016260", "2016/260/1", ""] {
        assert!(matches!(
            response_to_paper(&resp, bad),
            Err(LearnerError::InvalidIdentifier)
        ));
        assert!(matches!(iacr_query_url(bad), Err(LearnerError::InvalidIdentifier)));
    }
}

#[test]
fn test_iacr_bad_date_is_api_error() {
    let mut dc = sample_dc();
    dc.dates = vec!["March 9, 2016".to_string()];
    let resp = OaiPmhResponse { record: Some(dc), error: None };
    match response_to_paper(&resp, "2016/260") {
        Err(LearnerError::ApiError(m)) => assert_eq!(m, "Invalid date format"),
        other => panic!("expected ApiError, got {:?}", other),
    }
}

#[test]
fn test_iacr_no_eprint_identifier_leaves_doi_unset() {
    let mut dc = sample_dc();
    dc.identifiers = vec!["10.1007/something".to_string(), "a plain title".to_string()];
    let resp = OaiPmhResponse { record: Some(dc), error: None };
    let paper = response_to_paper(&resp, "2016/260").unwrap();
    assert_eq!(paper.doi, None);
}

#[test]
fn test_iacr_query_url() {
    assert_eq!(
        iacr_query_url("2016/260").unwrap(),
        "https://eprint.iacr.org/oai?verb=GetRecord&identifier=oai:eprint.iacr.org:2016/260&metadataPrefix=oai_dc"
    );
}

#[test]
fn test_strip_oai_namespaces() {
    let raw = "<OAI-PMH xmlns:oai_dc=\"http://www.openarchives.org/OAI/2.0/oai_dc/\" xmlns:dc=\"http://purl.org/dc/elements/1.1/\"><oai_dc:dc><dc:title>T</dc:title></oai_dc:dc></OAI-PMH>";
    let cleaned = strip_oai_namespaces(raw);
    assert_eq!(cleaned, "<OAI-PMH  ><dc><title>T</title></dc></OAI-PMH>");
    assert!(!cleaned.contains("oai_dc:"));
    assert!(!cleaned.contains("dc:"));
}

#[test]
fn test_parse_rfc3339_utc() {
    let t = parse_rfc3339_utc("2016-03-09T14:12:42Z").unwrap();
    assert_eq!(
        t,
        Timestamp { year: 2016, month: 3, day: 9, hour: 14, minute: 12, second: 42 }
    );
    // An offset is converted to UTC.
    let t = parse_rfc3339_utc("2016-03-09T14:12:42+01:00").unwrap();
    assert_eq!(t.hour, 13);
    assert_eq!(parse_rfc3339_utc("not a date"), None);
    assert_eq!(parse_rfc3339_utc("2016-13-09T14:12:42Z"), None);
}

#[test]
fn test_timestamp_from_ymd() {
    assert_eq!(Timestamp::from_ymd(2024, 1, 1), Some(ts(2024, 1, 1)));
    assert_eq!(Timestamp::from_ymd(2024, 2, 29), Some(ts(2024, 2, 29)));
    assert_eq!(Timestamp::from_ymd(1900, 2, 29), None);
    assert_eq!(Timestamp::from_ymd(2000, 2, 29), Some(ts(2000, 2, 29)));
    assert_eq!(Timestamp::from_ymd(2024, 4, 31), None);
    assert_eq!(Timestamp::from_ymd(2024, 12, 31), Some(ts(2024, 12, 31)));
}
