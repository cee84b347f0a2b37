use learner::errors::LearnerError;
use learner::paper::{classify, extract_arxiv_id, extract_doi, extract_iacr_id, Source};

#[test]
fn test_source_round_trip() {
    for source in [Source::Arxiv, Source::IACR, Source::DOI] {
        let text = source.to_str();
        let parsed = Source::from_str(text.as_str()).unwrap();
        assert_eq!(parsed, source);
    }
    assert_eq!(Source::Arxiv.to_str(), "Arxiv");
    assert_eq!(Source::IACR.to_str(), "IACR");
    assert_eq!(Source::DOI.to_str(), "DOI");
}

#[test]
fn test_source_parse_case_insensitive() {
    assert_eq!(Source::from_str("arxiv").unwrap(), Source::Arxiv);
    assert_eq!(Source::from_str("ArXiv").unwrap(), Source::Arxiv);
    assert_eq!(Source::from_str("IACR").unwrap(), Source::IACR);
    assert_eq!(Source::from_str("iacr").unwrap(), Source::IACR);
    assert_eq!(Source::from_str("doi").unwrap(), Source::DOI);
    assert_eq!(Source::from_str("DOI").unwrap(), Source::DOI);
}

#[test]
fn test_source_parse_invalid() {
    match Source::from_str("SpringerLink") {
        Err(LearnerError::InvalidSource(s)) => assert_eq!(s, "springerlink"),
        other => panic!("expected InvalidSource, got {:?}", other),
    }
    // The payload is the full Unicode lowercase of the rejected input.
    match Source::from_str("ÉCOLE") {
        Err(LearnerError::InvalidSource(s)) => assert_eq!(s, "école"),
        other => panic!("expected InvalidSource, got {:?}", other),
    }
}

#[test]
fn test_classify_arxiv_new_id() {
    let r = classify("2301.07041").unwrap();
    assert_eq!(r.source, Source::Arxiv);
    assert_eq!(r.identifier, "2301.07041");
}

#[test]
fn test_classify_arxiv_old_id() {
    let r = classify("hep-th/0601001").unwrap();
    assert_eq!(r.source, Source::Arxiv);
    assert_eq!(r.identifier, "hep-th/0601001");
    // The old-style pattern admits letters and hyphens only before the
    // slash, so a category written with a dot is not recognized.
    assert!(matches!(
        classify("math.AG/0601001"),
        Err(LearnerError::InvalidIdentifier)
    ));
}

#[test]
fn test_classify_arxiv_url() {
    let r = classify("https://arxiv.org/abs/2301.07041").unwrap();
    assert_eq!(r.source, Source::Arxiv);
    assert_eq!(r.identifier, "2301.07041");
}

#[test]
fn test_classify_iacr_id() {
    let r = classify("2016/260").unwrap();
    assert_eq!(r.source, Source::IACR);
    assert_eq!(r.identifier, "2016/260");
}

#[test]
fn test_classify_iacr_url() {
    let r = classify("https://eprint.iacr.org/2016/260").unwrap();
    assert_eq!(r.source, Source::IACR);
    assert_eq!(r.identifier, "2016/260");
}

#[test]
fn test_classify_doi_id() {
    let r = classify("10.1145/1327452.1327492").unwrap();
    assert_eq!(r.source, Source::DOI);
    assert_eq!(r.identifier, "10.1145/1327452.1327492");
}

#[test]
fn test_classify_doi_url() {
    let r = classify("https://doi.org/10.1145/1327452.1327492").unwrap();
    assert_eq!(r.source, Source::DOI);
    assert_eq!(r.identifier, "10.1145/1327452.1327492");
}

#[test]
fn test_classify_unknown_host() {
    match classify("https://example.com/abs/2301.07041") {
        Err(LearnerError::InvalidIdentifier) => {}
        other => panic!("expected InvalidIdentifier, got {:?}", other),
    }
}

#[test]
fn test_classify_garbage() {
    for bad in ["", "invalid-id", "12345", "2301.071", "10.12/abc", "totally wrong"] {
        match classify(bad) {
            Err(LearnerError::InvalidIdentifier) => {}
            other => panic!("expected InvalidIdentifier for {:?}, got {:?}", bad, other),
        }
    }
}

#[test]
fn test_extract_arxiv_id_from_path() {
    assert_eq!(extract_arxiv_id("/abs/2301.07041").unwrap(), "2301.07041");
    // The category prefix of an old-style identifier holds a slash, so the
    // abs-page path of such an identifier has no slash-free trailing segment
    // preceded by "abs/".
    assert!(matches!(
        extract_arxiv_id("/abs/math.AG/0601001"),
        Err(LearnerError::InvalidIdentifier)
    ));
    assert!(matches!(extract_arxiv_id("/pdf/2301.07041"), Err(LearnerError::InvalidIdentifier)));
    assert!(matches!(extract_arxiv_id("/abs/"), Err(LearnerError::InvalidIdentifier)));
}

#[test]
fn test_extract_iacr_id_from_path() {
    assert_eq!(extract_iacr_id("/2016/260").unwrap(), "2016/260");
    assert_eq!(extract_iacr_id("/archive/2023/1").unwrap(), "2023/1");
    assert!(matches!(extract_iacr_id("/2016/"), Err(LearnerError::InvalidIdentifier)));
    assert!(matches!(extract_iacr_id("/16/260"), Err(LearnerError::InvalidIdentifier)));
}

#[test]
fn test_extract_doi_from_path() {
    assert_eq!(extract_doi("/10.1145/1327452.1327492").unwrap(), "10.1145/1327452.1327492");
    assert!(matches!(extract_doi("no-slash"), Err(LearnerError::InvalidIdentifier)));
}

#[test]
fn test_is_duplicate_error() {
    assert!(LearnerError::Duplicate.is_duplicate_error());
    assert!(!LearnerError::NotFound.is_duplicate_error());
    assert!(!LearnerError::InvalidIdentifier.is_duplicate_error());
}
