use strichliste::backend::database::UserDB;
use strichliste::backend::user::User;
use strichliste::model::{GroupId, Money, UserId};
use strichliste::models::money::MoneyParseError;
use strichliste::routes::split_cost::components::single_user_selection::{select_users, MAX_USER_DISPLAY_LIMIT};
use strichliste::routes::user::components::scan_input::ScanInput;
use strichliste::routes::user::create::{create_user, EmptyUsername};
use strichliste::routes::user::send_money::show::{receivers_for, send_money, SendMoneyError};

fn user(id: i64, nickname: &str, money: i64) -> User {
    User { id: UserId(id), nickname: nickname.to_string(), card_number: None, money: Money { value: money } }
}

fn names(v: &[String]) -> Vec<&str> {
    v.iter().map(|s| s.as_str()).collect()
}

#[test]
fn create_user_trims_the_name() {
    assert_eq!(create_user("  alice \t").unwrap(), "alice");
    assert_eq!(create_user("bob").unwrap(), "bob");
    assert_eq!(create_user("   ").unwrap(), "");
    assert_eq!(create_user(""), Err(EmptyUsername));
    assert_eq!(EmptyUsername.message(), "Name cannot be empty!");
}

#[test]
fn ids_in_decimal() {
    assert_eq!(UserId(42).to_string(), "42");
    assert_eq!(UserId(-3).to_string(), "-3");
    assert_eq!(GroupId(0).to_string(), "0");
    assert_eq!(GroupId(1234567).to_string(), "1234567");
}

#[test]
fn user_from_row_and_add_money() {
    let row = UserDB { id: 9, nickname: "ida".to_string(), money: 120 };
    let mut u = User::from_row(row, Some("0815".to_string()));
    assert_eq!(u.id, UserId(9));
    assert_eq!(u.nickname, "ida");
    assert_eq!(u.card_number.as_deref(), Some("0815"));
    assert_eq!(u.money, Money { value: 120 });
    u.add_money(Money { value: -200 });
    assert_eq!(u.money, Money { value: -80 });
    assert_eq!(u.nickname, "ida");
}

#[test]
fn send_money_moves_the_amount() {
    let (from, to) =
        send_money("2.50", Some(user(3, "anna", 1000)), "ben".to_string(), Some(user(4, "ben", 0))).unwrap();
    assert_eq!(from.money, Money { value: 750 });
    assert_eq!(to.money, Money { value: 250 });
    assert_eq!(from.id, UserId(3));
    assert_eq!(to.id, UserId(4));
    assert_eq!(from.money.value + to.money.value, 1000);
}

#[test]
fn send_money_errors_in_order() {
    match send_money("x", None, "ben".to_string(), None) {
        Err(SendMoneyError::InvalidAmount { amount, error: MoneyParseError::InvalidEuros(t) }) => {
            assert_eq!(amount, "x");
            assert_eq!(t, "x");
        },
        _ => panic!("expected an invalid amount"),
    }
    match send_money("1.999", None, "ben".to_string(), None) {
        Err(SendMoneyError::InvalidAmount { error: MoneyParseError::InvalidCents(t), .. }) => assert_eq!(t, "999"),
        _ => panic!("expected invalid cents"),
    }
    assert!(matches!(
        send_money("-1", Some(user(3, "a", 0)), "b".to_string(), Some(user(4, "b", 0))),
        Err(SendMoneyError::NegativeAmount)
    ));
    assert!(matches!(
        send_money("1", None, "b".to_string(), Some(user(4, "b", 0))),
        Err(SendMoneyError::UnknownSender)
    ));
    match send_money("1", Some(user(3, "a", 0)), "nobody".to_string(), None) {
        Err(SendMoneyError::UnknownReceiver(n)) => assert_eq!(n, "nobody"),
        _ => panic!("expected an unknown receiver"),
    }
    assert!(matches!(
        send_money("1", Some(user(3, "a", 0)), "a".to_string(), Some(user(3, "a", 0))),
        Err(SendMoneyError::SameUser)
    ));
}

#[test]
fn send_money_error_messages() {
    let e = SendMoneyError::InvalidAmount {
        amount: "1,x".to_string(),
        error: MoneyParseError::InvalidCents("x".to_string()),
    };
    assert_eq!(e.message(), "Failed to convert '1,x' to internal representation: Invalid Cents: x");
    assert_eq!(SendMoneyError::NegativeAmount.message(), "Amount to be sent must be > 0!");
    assert_eq!(
        SendMoneyError::UnknownSender.message(),
        "The user you are trying to send the money from does not exist!"
    );
    assert_eq!(
        SendMoneyError::UnknownReceiver("zed".to_string()).message(),
        "There is no such user with the nick 'zed'!"
    );
    assert_eq!(SendMoneyError::SameUser.message(), "Sending and receiving user must not be the same!");
}

#[test]
fn receivers_are_the_other_matching_users() {
    let users = vec![user(1, "Anna", 0), user(2, "hannah", 0), user(3, "Bob", 0), user(4, "JOHANNA", 5)];
    let found = receivers_for(&users, UserId(2), "ANN");
    let ids: Vec<UserId> = found.iter().map(|u| u.id).collect();
    assert_eq!(ids, vec![UserId(1), UserId(4)]);
    assert_eq!(found[1].money, Money { value: 5 });
    assert_eq!(found[1].nickname, "JOHANNA");
    let all_others = receivers_for(&users, UserId(3), "");
    assert_eq!(all_others.len(), 3);
    assert!(receivers_for(&users, UserId(1), "zz").is_empty());
}

#[test]
fn select_users_ignores_case_and_filter() {
    let nicks: Vec<String> = ["Anna", "Bernd", "hANNes", "Jo", "Annika"].iter().map(|s| s.to_string()).collect();
    let picked = select_users(&nicks, "ann", None);
    assert_eq!(names(&picked), vec!["Anna", "hANNes", "Annika"]);
    let filter = vec!["Anna".to_string()];
    let picked = select_users(&nicks, "ANN", Some(&filter));
    assert_eq!(names(&picked), vec!["hANNes", "Annika"]);
    assert!(select_users(&nicks, "xyz", None).is_empty());
}

#[test]
fn select_users_proposes_at_most_the_limit() {
    let nicks: Vec<String> = (0..9).map(|i| format!("user{i}")).collect();
    let picked = select_users(&nicks, "USER", None);
    assert_eq!(picked.len(), MAX_USER_DISPLAY_LIMIT);
    assert_eq!(names(&picked), vec!["user0", "user1", "user2", "user3", "user4"]);
}

#[test]
fn scan_input_collects_keys_until_enter() {
    let mut s = ScanInput::new(0);
    assert_eq!(s.on_key("4", 1_000, false), None);
    assert_eq!(s.on_key("0", 1_100, false), None);
    assert_eq!(s.on_key("1", 1_200, false), None);
    assert_eq!(s.on_key("Enter", 1_300, false), Some("401".to_string()));
    assert_eq!(s.input, "");
    assert_eq!(s.on_key("Enter", 1_400, false), None);
}

#[test]
fn scan_input_ignores_keys_while_a_field_has_the_focus() {
    let mut s = ScanInput::new(0);
    assert_eq!(s.on_key("7", 100, true), None);
    assert_eq!(s.input, "");
    assert_eq!(s.last_input, 0);
}

#[test]
fn scan_input_drops_stale_text() {
    let mut s = ScanInput::new(0);
    assert_eq!(s.on_key("1", 1_000, false), None);
    assert_eq!(s.on_key("2", 32_000, false), None);
    assert_eq!(s.input, "2");
    assert_eq!(s.on_key("3", 62_000, false), None);
    assert_eq!(s.input, "23");
    assert_eq!(s.on_key("Enter", 93_000, false), None);
    assert_eq!(s.input, "");
}

#[test]
fn scan_reads_what_was_typed() {
    let mut s = ScanInput::new(0);
    let keys = ["9", "7", "8", "3"];
    for (i, k) in keys.iter().enumerate() {
        assert_eq!(s.on_key(k, 100 * i as i64, false), None);
    }
    assert_eq!(s.on_key("Enter", 500, false), Some("9783".to_string()));
}
