use learner::database::Database;
use learner::datetime::Timestamp;
use learner::paper::{Author, Paper, Source};

fn create_test_paper() -> Paper {
    Paper {
        title: "Test Paper".to_string(),
        abstract_text: "This is a test abstract".to_string(),
        publication_date: Timestamp { year: 2024, month: 1, day: 1, hour: 0, minute: 0, second: 0 },
        source: Source::Arxiv,
        source_identifier: "2401.00000".to_string(),
        pdf_url: Some("https://arxiv.org/pdf/2401.00000".to_string()),
        doi: Some("10.1000/test.123".to_string()),
        authors: vec![
            Author {
                name: "John Doe".to_string(),
                affiliation: Some("Test University".to_string()),
                email: Some("john@test.edu".to_string()),
            },
            Author { name: "Jane Smith".to_string(), affiliation: None, email: None },
        ],
    }
}

#[test]
fn test_new_database_is_empty() {
    let db = Database::new();
    let result = db.get_paper_by_source_id(&Source::Arxiv, "2401.00000").unwrap();
    assert!(result.is_none());
    assert_eq!(db.search_papers("anything").unwrap().len(), 0);
}

#[test]
fn test_save_and_retrieve_paper() {
    let mut db = Database::new();
    let paper = create_test_paper();

    let paper_id = db.save_paper(&paper).unwrap();
    assert!(paper_id > 0);

    let retrieved = db
        .get_paper_by_source_id(&paper.source, &paper.source_identifier)
        .unwrap()
        .expect("Paper should exist");

    assert_eq!(retrieved.title, paper.title);
    assert_eq!(retrieved.abstract_text, paper.abstract_text);
    assert_eq!(retrieved.publication_date, paper.publication_date);
    assert_eq!(retrieved.source, paper.source);
    assert_eq!(retrieved.source_identifier, paper.source_identifier);
    assert_eq!(retrieved.pdf_url, paper.pdf_url);
    assert_eq!(retrieved.doi, paper.doi);

    assert_eq!(retrieved.authors.len(), paper.authors.len());
    assert_eq!(retrieved.authors[0].name, paper.authors[0].name);
    assert_eq!(retrieved.authors[0].affiliation, paper.authors[0].affiliation);
    assert_eq!(retrieved.authors[0].email, paper.authors[0].email);
    assert_eq!(retrieved.authors[1].name, paper.authors[1].name);
    assert_eq!(retrieved.authors[1].affiliation, None);
    assert_eq!(retrieved.authors[1].email, None);
}

#[test]
fn test_get_nonexistent_paper() {
    let db = Database::new();
    let result = db.get_paper_by_source_id(&Source::Arxiv, "nonexistent").unwrap();
    assert!(result.is_none());
}

#[test]
fn test_full_text_search() {
    let mut db = Database::new();

    let mut paper1 = create_test_paper();
    paper1.title = "Neural Networks in Machine Learning".to_string();
    paper1.abstract_text = "This paper discusses deep learning".to_string();
    paper1.source_identifier = "2401.00001".to_string();

    let mut paper2 = create_test_paper();
    paper2.title = "Advanced Algorithms".to_string();
    paper2.abstract_text = "Classical computer science topics".to_string();
    paper2.source_identifier = "2401.00002".to_string();

    db.save_paper(&paper1).unwrap();
    db.save_paper(&paper2).unwrap();

    let results = db.search_papers("neural").unwrap();
    assert_eq!(results.len(), 1);
    assert_eq!(results[0].title, paper1.title);
    // Search results carry the persisted fields but no authors.
    assert!(results[0].authors.is_empty());
    assert_eq!(results[0].publication_date, paper1.publication_date);
    assert_eq!(results[0].pdf_url, paper1.pdf_url);

    let results = db.search_papers("learning").unwrap();
    assert_eq!(results.len(), 1);
    assert_eq!(results[0].source_identifier, paper1.source_identifier);

    let results = db.search_papers("algorithms").unwrap();
    assert_eq!(results.len(), 1);
    assert_eq!(results[0].title, paper2.title);
}

#[test]
fn test_duplicate_paper_handling() {
    let mut db = Database::new();
    let paper = create_test_paper();

    let result1 = db.save_paper(&paper);
    assert!(result1.is_ok());
    assert!(result1.unwrap() > 0);

    let result2 = db.save_paper(&paper);
    match result2 {
        Err(e) => assert!(e.is_duplicate_error()),
        Ok(_) => panic!("saving the same (source, identifier) pair twice must fail"),
    }
}

#[test]
fn test_paper_save_method() {
    let mut db = Database::new();
    let paper = create_test_paper();
    let id = paper.save(&mut db).unwrap();
    assert!(id > 0);
    let second = paper.save(&mut db);
    assert!(second.is_err());
    assert!(second.unwrap_err().is_duplicate_error());
}

#[test]
fn test_same_identifier_different_source_is_no_duplicate() {
    let mut db = Database::new();
    let paper1 = create_test_paper();
    let mut paper2 = create_test_paper();
    paper2.source = Source::IACR;

    assert_eq!(db.save_paper(&paper1).unwrap(), 1);
    assert_eq!(db.save_paper(&paper2).unwrap(), 2);
}

#[test]
fn test_search_is_case_insensitive_and_ordered() {
    let mut db = Database::new();

    let mut paper1 = create_test_paper();
    paper1.title = "Quantum Computing Overview".to_string();
    paper1.source_identifier = "2401.00003".to_string();

    let mut paper2 = create_test_paper();
    paper2.title = "More QUANTUM results".to_string();
    paper2.source_identifier = "2401.00004".to_string();

    db.save_paper(&paper1).unwrap();
    db.save_paper(&paper2).unwrap();

    let results = db.search_papers("quantum").unwrap();
    assert_eq!(results.len(), 2);
    assert_eq!(results[0].source_identifier, paper1.source_identifier);
    assert_eq!(results[1].source_identifier, paper2.source_identifier);
}
