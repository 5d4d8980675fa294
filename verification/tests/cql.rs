use crd_api::cql::{Boolean, ConstructionError, Index, Query, Relation};

#[test]
fn cql_test() {
    let q1 = Query::SearchClause {
        index: "question".into(),
        relation: Relation::Equal,
        search_term: vec!["rust".to_string()],
    };
    let q2 = Query::SearchClause {
        index: "answer".into(),
        relation: Relation::Any,
        search_term: vec!["programming".to_string(), "language".to_string()],
    };
    let q = Query::ScopedClause {
        left: q1.into(),
        boolean: Boolean::And,
        right: q2.into(),
    };
    let s: String = q.to_string();
    assert_eq!(s, "question = rust and answer any programming language")
}

#[test]
fn cql_test2() {
    let q = Query::any("question", &["本"])
        .unwrap()
        .and(Query::any("answer", &["村上春樹"]).unwrap());
    assert_eq!(q.to_string(), "question any 本 and answer any 村上春樹")
}

#[test]
fn cql_test3() {
    let q1 = Query::any("question", &["本", "音楽"])
        .unwrap()
        .and(Query::equal("solution", &["resolved"]).unwrap())
        .or(Query::equal("ptn-type", &["学生"]).unwrap());
    let q2 = Query::ScopedClause {
        left: Query::ScopedClause {
            left: Query::SearchClause {
                index: "question".into(),
                relation: Relation::Any,
                search_term: vec!["本".to_string(), "音楽".to_string()],
            }
            .into(),
            boolean: Boolean::And,
            right: Query::SearchClause {
                index: "solution".into(),
                relation: Relation::Equal,
                search_term: vec!["resolved".to_string()],
            }
            .into(),
        }
        .into(),
        boolean: Boolean::Or,
        right: Query::SearchClause {
            index: "ptn-type".into(),
            relation: Relation::Equal,
            search_term: vec!["学生".to_string()],
        }
        .into(),
    };
    assert_eq!(q1, q2);
}

#[test]
fn leaf_without_terms_is_refused_for_every_relation() {
    assert_eq!(Query::equal("question", &[]), Err(ConstructionError));
    assert_eq!(Query::any("", &[]), Err(ConstructionError));
    assert_eq!(Query::all("anywhere", &[]), Err(ConstructionError));
    assert_eq!(Query::new(&[]), Err(ConstructionError));
    assert_eq!(Query::leaf("ndc", Relation::All, &[]), Err(ConstructionError));
}

#[test]
fn leaf_is_field_symbol_terms() {
    let q = Query::leaf("question", Relation::Equal, &["rust"]).unwrap();
    assert_eq!(q.to_string(), "question = rust");
    let q = Query::all("anywhere", &["rust", "language"]).unwrap();
    assert_eq!(q.to_string(), "anywhere all rust language");
    let q = Query::any("keyword", &["a", "b", "c"]).unwrap();
    assert_eq!(q.to_string(), "keyword any a b c");
}

#[test]
fn plain_search_looks_anywhere() {
    let q = Query::new(&["some"]).unwrap();
    assert_eq!(q.to_string(), "anywhere = some");
    assert_eq!(q, Query::equal("anywhere", &["some"]).unwrap());
}

#[test]
fn terms_are_written_as_they_stand() {
    let q = Query::equal("question", &["\"two words\"", "a&b"]).unwrap();
    assert_eq!(q.to_string(), "question = \"two words\" a&b");
}

#[test]
fn leaf_on_the_right_is_bare() {
    let a = Query::any("question", &["本"]).unwrap();
    let b = Query::equal("solution", &["0"]).unwrap();
    let text_a = a.to_string();
    let text_b = b.to_string();
    assert_eq!(a.clone().and(b.clone()).to_string(), format!("{text_a} and {text_b}"));
    assert_eq!(a.clone().or(b.clone()).to_string(), format!("{text_a} or {text_b}"));
    assert_eq!(a.not(b).to_string(), format!("{text_a} not {text_b}"));
}

#[test]
fn combination_on_the_right_is_parenthesized() {
    let a = Query::any("question", &["本"]).unwrap();
    let b = Query::equal("solution", &["0"])
        .unwrap()
        .or(Query::equal("solution", &["1"]).unwrap());
    let text_a = a.to_string();
    let text_b = b.to_string();
    assert_eq!(a.and(b).to_string(), format!("{text_a} and ( {text_b} )"));
}

#[test]
fn combination_on_the_left_is_never_parenthesized() {
    let q = Query::any("question", &["本", "音楽"])
        .unwrap()
        .and(Query::equal("solution", &["resolved"]).unwrap())
        .or(Query::equal("ptn-type", &["学生"]).unwrap());
    assert_eq!(
        q.to_string(),
        "question any 本 音楽 and solution = resolved or ptn-type = 学生"
    );
}

#[test]
fn nested_combinations_on_the_right() {
    let leaf = |field: &str| Query::equal(field, &["x"]).unwrap();
    let q = leaf("a").and(leaf("b").or(leaf("c").not(leaf("d"))));
    assert_eq!(q.to_string(), "a = x and ( b = x or ( c = x not d = x ) )");
}

#[test]
fn leaf_with_no_term_built_by_hand_ends_in_a_space() {
    let q = Query::SearchClause {
        index: "question".into(),
        relation: Relation::Any,
        search_term: vec![],
    };
    assert_eq!(q.to_string(), "question any ");
}

#[test]
fn symbols_and_keywords() {
    assert_eq!(Relation::All.as_str(), "all");
    assert_eq!(Relation::Any.as_str(), "any");
    assert_eq!(Relation::Equal.as_str(), "=");
    assert_eq!(Boolean::And.as_str(), "and");
    assert_eq!(Boolean::Or.as_str(), "or");
    assert_eq!(Boolean::Not.as_str(), "not");
}

#[test]
fn a_clone_is_equal_and_writes_the_same_text() {
    let q = Query::any("question", &["本"])
        .unwrap()
        .and(Query::any("answer", &["村上春樹"]).unwrap());
    let copy = q.clone();
    assert_eq!(copy, q);
    assert_eq!(copy.to_string(), q.to_string());
}

#[test]
fn a_field_name_is_kept_as_it_stands() {
    let index = Index::from("ptn-type");
    assert_eq!(index.as_str(), "ptn-type");
    assert_eq!(index.clone(), index);
    let q = Query::SearchClause {
        index,
        relation: Relation::All,
        search_term: vec!["学生".to_string()],
    };
    assert_eq!(q.to_string(), "ptn-type all 学生");
}
