use strichliste::model::Money;
use strichliste::models::article::article::{Article, ArticleDB};
use strichliste::models::article::article_core::{self, articles_for_user, sort_articles_by_amount, DEFAULT_ARTICLE_AMOUNT};
use strichliste::models::article::article_sounds::ArticleSound;
use strichliste::models::article::barcode::{Barcode, BarcodeDB, BarcodeDiff};
use strichliste::models::money::MoneyParseError;
use strichliste::routes::articles::create::{create_article, CreateArticleError};
use strichliste::routes::articles::edit::{update_article, BarcodeEditor, UpdateArticleError};
use strichliste::routes::articles::show::sort_articles_by_name;

fn article(id: i64, name: &str) -> Article {
    let mut a = Article::new(name.to_string(), Money { value: 100 });
    a.id = Some(id);
    a
}

fn codes(b: &[Barcode]) -> Vec<&str> {
    b.iter().map(|c| c.0.as_str()).collect()
}

#[test]
fn new_articles_are_not_stored() {
    let a = Article::new("Mate".to_string(), Money { value: 150 });
    assert!(a.id.is_none());
    assert_eq!(a.name, "Mate");
    assert_eq!(a.cost, Money { value: 150 });
    assert!(a.sounds.is_empty());
    assert!(a.barcodes.is_empty());
    let b = strichliste::models::article::Article::new();
    assert!(b.id.is_none());
    assert_eq!(b.name, "");
    assert_eq!(b.cost, 0);
    assert_eq!(DEFAULT_ARTICLE_AMOUNT, 9);
}

#[test]
fn article_from_its_rows() {
    let row = ArticleDB { id: 4, name: "Club Mate".to_string(), cost: 150 };
    let sounds = vec![ArticleSound { id: 1, name: "glug".to_string(), path: "glug.mp3".to_string() }];
    let barcodes = vec![
        BarcodeDB { article_id: 4, barcode_content: "4029764001807".to_string() },
        BarcodeDB { article_id: 4, barcode_content: "123".to_string() },
    ];
    let a = Article::from_db(row, sounds, barcodes);
    assert_eq!(a.id, Some(4));
    assert_eq!(a.name, "Club Mate");
    assert_eq!(a.cost, Money { value: 150 });
    assert_eq!(a.sounds.len(), 1);
    assert_eq!(a.sounds[0].path, "glug.mp3");
    assert_eq!(codes(&a.barcodes), vec!["4029764001807", "123"]);
}

#[test]
fn barcode_from_its_row() {
    let b: Barcode = BarcodeDB { article_id: 1, barcode_content: "777".to_string() }.into();
    assert_eq!(b.0, "777");
}

#[test]
fn barcode_in_use_message() {
    let e = article_core::ArticleDB::barcode_in_use("4711");
    assert_eq!(e.message, "The barcode '4711' is already used elsewhere!");
}

#[test]
fn most_bought_articles_first() {
    let sorted = sort_articles_by_amount(vec![(1, 3), (2, 10), (3, 3), (4, 0), (5, 10)]);
    assert_eq!(sorted, vec![(2, 10), (5, 10), (1, 3), (3, 3), (4, 0)]);
    assert!(sort_articles_by_amount(Vec::new()).is_empty());
}

#[test]
fn favorites_then_the_other_articles() {
    let favorites = vec![article(3, "c"), article(1, "a")];
    let all = vec![article(1, "a"), article(2, "b"), article(3, "c"), article(4, "d")];
    let offered = articles_for_user(favorites, all);
    let ids: Vec<Option<i64>> = offered.iter().map(|a| a.id).collect();
    assert_eq!(ids, vec![Some(3), Some(1), Some(2), Some(4)]);
    let offered = articles_for_user(Vec::new(), vec![article(8, "x")]);
    assert_eq!(offered.len(), 1);
}

#[test]
fn articles_by_name() {
    let sorted = sort_articles_by_name(vec![
        article(1, "banana"),
        article(2, "Apple"),
        article(3, "apple"),
        article(4, "Cherry"),
        article(5, "Apple"),
    ]);
    let ids: Vec<Option<i64>> = sorted.iter().map(|a| a.id).collect();
    assert_eq!(ids, vec![Some(2), Some(5), Some(4), Some(3), Some(1)]);
}

#[test]
fn create_article_checks_in_order() {
    assert_eq!(create_article("Mate", "1.50").ok(), Some(Money { value: 150 }));
    assert!(matches!(create_article("", "x"), Err(CreateArticleError::EmptyName)));
    assert!(matches!(create_article("Mate", ""), Err(CreateArticleError::EmptyCost)));
    match create_article("Mate", "1.5x") {
        Err(CreateArticleError::InvalidCost(MoneyParseError::InvalidCents(t))) => assert_eq!(t, "5x"),
        _ => panic!("expected invalid cents"),
    }
    match create_article("Mate", "eins") {
        Err(CreateArticleError::InvalidCost(MoneyParseError::InvalidEuros(t))) => assert_eq!(t, "eins"),
        _ => panic!("expected invalid euros"),
    }
}

#[test]
fn create_article_error_messages() {
    assert_eq!(CreateArticleError::EmptyName.message(), "Name cannot be empty!");
    assert_eq!(CreateArticleError::EmptyCost.message(), "Cost cannot be empty!");
    assert_eq!(
        CreateArticleError::InvalidCost(MoneyParseError::InvalidEuros("q".to_string())).message(),
        "Invalid Euros: q"
    );
}

#[test]
fn update_article_keeps_what_did_not_change() {
    let a = Article::new("Mate".to_string(), Money { value: 150 });
    let u = update_article(&a, "Mate", "1.50", None).unwrap();
    assert!(u.name.is_none());
    assert!(u.cost.is_none());
    assert!(u.barcodes.is_none());

    let diffs = vec![BarcodeDiff::Added("1".to_string())];
    let u = update_article(&a, " Tea ", "2", Some(diffs)).unwrap();
    assert_eq!(u.name.as_deref(), Some("Tea"));
    assert_eq!(u.cost, Some(Money { value: 200 }));
    assert_eq!(u.barcodes.map(|b| b.len()), Some(1));
}

#[test]
fn update_article_refuses_a_bad_price() {
    let a = Article::new("Mate".to_string(), Money { value: 150 });
    match update_article(&a, "Mate", "1.5.0", None) {
        Err(e) => {
            assert_eq!(e.cost, "1.5.0");
            assert!(matches!(e.error, MoneyParseError::InvalidCents(ref t) if t == "5.0"));
        },
        Ok(_) => panic!("expected an error"),
    }
    let e = UpdateArticleError { cost: "x".to_string(), error: MoneyParseError::InvalidEuros("x".to_string()) };
    assert_eq!(e.message(), "Failed to convert 'x' to internal money representation: Invalid Euros: x");
}

#[test]
fn barcode_editor_notes_its_changes() {
    let mut ed = BarcodeEditor::new(vec![Barcode("1".to_string()), Barcode("2".to_string()), Barcode("1".to_string())]);
    assert!(ed.diff.is_empty());
    ed.remove("1".to_string());
    assert_eq!(codes(&ed.barcodes), vec!["2", "1"]);
    ed.add("3".to_string());
    assert_eq!(codes(&ed.barcodes), vec!["2", "1", "3"]);
    ed.add(String::new());
    assert_eq!(codes(&ed.barcodes), vec!["2", "1", "3"]);
    assert_eq!(ed.diff.len(), 2);
    assert!(matches!(&ed.diff[0], BarcodeDiff::Removed(c) if c == "1"));
    assert!(matches!(&ed.diff[1], BarcodeDiff::Added(c) if c == "3"));
}

#[test]
fn editor_changes_replay_to_its_list() {
    let start = vec!["a".to_string(), "b".to_string()];
    let mut ed = BarcodeEditor::new(start.iter().map(|c| Barcode(c.clone())).collect());
    ed.add("c".to_string());
    ed.remove("a".to_string());
    ed.add("a".to_string());
    let mut replayed = start.clone();
    for d in &ed.diff {
        match d {
            BarcodeDiff::Removed(c) => {
                let i = replayed.iter().position(|x| x == c).unwrap();
                replayed.remove(i);
            },
            BarcodeDiff::Added(c) => replayed.push(c.clone()),
        }
    }
    assert_eq!(codes(&ed.barcodes), replayed.iter().map(|s| s.as_str()).collect::<Vec<_>>());
}
