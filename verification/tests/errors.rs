use strichliste::backend::database::{DBError, UserDB};
use strichliste::model::{
    AudioPlayback, CreateTransactionError, GetUserPreferencesError, GroupId, Money, SetUserPreferencesError,
    SplitCostError, UserId, UserPreferences,
};
use strichliste::models::Group;
use strichliste::routes::state::FrontendStore;

#[test]
fn create_transaction_error_messages() {
    match CreateTransactionError::new("boom") {
        CreateTransactionError::StringMessage(m) => assert_eq!(m, "boom"),
        _ => panic!("expected a message"),
    }
    assert_eq!(CreateTransactionError::new("boom").to_string(), "Failed to create transaction: boom");
    let users = vec!["anna".to_string(), "ben".to_string()];
    assert_eq!(
        CreateTransactionError::TooLittleMoneyError(users.clone()).to_string(),
        "the following users have too little money: anna, ben"
    );
    assert_eq!(
        CreateTransactionError::TooMuchMoneyError(vec!["cleo".to_string()]).to_string(),
        "the following users have too much money: cleo"
    );
    assert_eq!(CreateTransactionError::ServerFn("x".to_string()).to_string(), "server fn error: x");
    assert_eq!(
        CreateTransactionError::ArticleDoesNotExist(17).to_string(),
        "The article with id 17 does not exist!"
    );
    assert_eq!(
        CreateTransactionError::UserDoesNotExist(UserId(-2)).to_string(),
        "The user with id -2 does not exist!"
    );
}

#[test]
fn split_cost_error_messages() {
    let e = SplitCostError::from(CreateTransactionError::ArticleDoesNotExist(3));
    match &e {
        SplitCostError::CreateTransactionError(m) => assert_eq!(m, "The article with id 3 does not exist!"),
        _ => panic!("expected a transaction error"),
    }
    assert_eq!(e.to_string(), "Failed to create transaction: The article with id 3 does not exist!");
    assert_eq!(SplitCostError::ServerFn("a".to_string()).to_string(), "Server function error: a");
    assert_eq!(SplitCostError::DatabaseError("b".to_string()).to_string(), "Database error: b");
    assert_eq!(SplitCostError::MoneyParseError("c".to_string()).to_string(), "Failed to parse money: c");
    assert_eq!(SplitCostError::MoneyError("d".to_string()).to_string(), "Money error: d");
    assert_eq!(
        SplitCostError::UserDoesNotExistError("eve".to_string()).to_string(),
        "User with nickname 'eve' does not exist!"
    );
    assert_eq!(SplitCostError::MayNotBeEmptyError("Users".to_string()).to_string(), "Users may not be empty");
}

#[test]
fn user_preferences_error_messages() {
    assert_eq!(GetUserPreferencesError::ServerFn("x".to_string()).to_string(), "Server function error: x");
    assert_eq!(GetUserPreferencesError::Database("y".to_string()).to_string(), "Database error: y");
    assert_eq!(SetUserPreferencesError::ServerFn("x".to_string()).to_string(), "Server function error: x");
    assert_eq!(SetUserPreferencesError::Database("y".to_string()).to_string(), "Database error: y");
    assert_eq!(
        SetUserPreferencesError::UserDoesNotExist(UserId(12)).to_string(),
        "User with id '12' does not exist"
    );
}

#[test]
fn defaults() {
    assert!(!UserPreferences::default().alternative_coloring);
    assert!(FrontendStore::default().cached_sounds.is_empty());
    let mut store = FrontendStore::default();
    store.cached_sounds.insert(AudioPlayback::Deposit(Money { value: 1 }), "/sounds/a.mp3".to_string());
    assert_eq!(store.cached_sounds.len(), 1);
}

#[test]
fn database_values() {
    let e = DBError::new("no table".to_string());
    assert_eq!(e.message, "no table");
    let g = Group { id: GroupId(5), members: vec![UserDB { id: 3, nickname: "ida".to_string(), money: 0 }] };
    assert_eq!(g.members.len(), 1);
    assert_eq!(g.id, GroupId(5));
}
