use strichliste::model::{GroupId, Money, UserId};
use strichliste::models::money::MoneyParseError;
use strichliste::models::{AudioPlayback, Transaction, TransactionType};
use strichliste::routes::user::components::transaction_view::view::balance_effect;
use strichliste::routes::user::show::{
    custom_money_change, get_item_sound_url, is_regular_user, money_change_request, sound_candidates,
    sound_for_transaction, transaction_groups, NoSoundFile, TransactionRequestError,
};

fn transaction(t_type: TransactionType, money: i64) -> Transaction {
    Transaction {
        id: 1,
        group_id: GroupId(9),
        is_undone: false,
        t_type,
        money: Money { value: money },
        description: None,
        timestamp: 0,
    }
}

#[test]
fn the_till_and_the_snack_bar_have_no_page() {
    assert!(!is_regular_user(UserId(1)));
    assert!(!is_regular_user(UserId(2)));
    assert!(is_regular_user(UserId(3)));
    assert!(is_regular_user(UserId(0)));
}

#[test]
fn transaction_groups_of_each_type() {
    let g = GroupId(9);
    let m = Money { value: 100 };
    assert_eq!(transaction_groups(g, m, TransactionType::Deposit), Ok((GroupId(1), g)));
    assert_eq!(transaction_groups(g, m, TransactionType::Withdraw), Ok((g, GroupId(1))));
    assert_eq!(transaction_groups(g, m, TransactionType::Bought(3)), Ok((g, GroupId(2))));
    assert_eq!(
        transaction_groups(g, m, TransactionType::Sent(GroupId(4))),
        Err(TransactionRequestError::Unsupported)
    );
    assert_eq!(
        transaction_groups(g, Money { value: -1 }, TransactionType::Deposit),
        Err(TransactionRequestError::NegativeMoney)
    );
    assert_eq!(transaction_groups(g, Money { value: 0 }, TransactionType::Withdraw), Ok((g, GroupId(1))));
}

#[test]
fn transaction_request_error_messages() {
    assert_eq!(TransactionRequestError::NegativeMoney.message(), "Money may not be negative");
    assert_eq!(TransactionRequestError::Unsupported.message(), "WIP");
}

#[test]
fn money_change_request_books_deposits_and_withdrawals() {
    assert_eq!(money_change_request(Money { value: 50 }), (Money { value: 50 }, TransactionType::Deposit));
    assert_eq!(money_change_request(Money { value: -50 }), (Money { value: 50 }, TransactionType::Withdraw));
    assert_eq!(money_change_request(Money { value: 0 }), (Money { value: 0 }, TransactionType::Withdraw));
}

#[test]
fn booked_change_is_taken_back_by_undo() {
    for v in [1i64, -1, 250, -250, 0] {
        let (money, t_type) = money_change_request(Money { value: v });
        assert_eq!(balance_effect(t_type, money), v);
    }
}

#[test]
fn custom_money_change_reads_the_text() {
    assert_eq!(custom_money_change(true, "").unwrap(), None);
    assert_eq!(custom_money_change(true, "0").unwrap(), None);
    assert_eq!(custom_money_change(true, "2.50").unwrap(), Some(Money { value: 250 }));
    assert_eq!(custom_money_change(false, "2.50").unwrap(), Some(Money { value: -250 }));
    match custom_money_change(true, "zwei") {
        Err(MoneyParseError::InvalidEuros(t)) => assert_eq!(t, "zwei"),
        _ => panic!("expected invalid euros"),
    }
    match custom_money_change(false, "2.555") {
        Err(MoneyParseError::InvalidCents(t)) => assert_eq!(t, "555"),
        _ => panic!("expected invalid cents"),
    }
}

#[test]
fn sounds_for_booked_transactions() {
    assert_eq!(
        sound_for_transaction(&transaction(TransactionType::Bought(12), 150)),
        Some(AudioPlayback::Bought(12))
    );
    assert_eq!(
        sound_for_transaction(&transaction(TransactionType::Deposit, 150)),
        Some(AudioPlayback::Deposit(Money { value: 150 }))
    );
    assert_eq!(
        sound_for_transaction(&transaction(TransactionType::Withdraw, 150)),
        Some(AudioPlayback::Withdraw(Money { value: 150 }))
    );
    assert_eq!(
        sound_for_transaction(&transaction(TransactionType::Sent(GroupId(3)), 150)),
        Some(AudioPlayback::Sent(Money { value: 150 }))
    );
    assert_eq!(sound_for_transaction(&transaction(TransactionType::Received(GroupId(3)), 150)), None);
    assert_eq!(sound_for_transaction(&transaction(TransactionType::SentAndReceived(GroupId(3)), 150)), None);
}

#[test]
fn sound_candidates_by_kind() {
    let failed = vec!["fail.mp3".to_string()];
    let generic = vec!["ok.mp3".to_string(), "yes.mp3".to_string()];
    let own = vec!["crunch.mp3".to_string()];
    assert_eq!(sound_candidates(AudioPlayback::Failed, &failed, &generic, Some(&own)), &failed);
    assert_eq!(sound_candidates(AudioPlayback::Bought(1), &failed, &generic, Some(&own)), &own);
    assert_eq!(sound_candidates(AudioPlayback::Bought(1), &failed, &generic, None), &generic);
    assert_eq!(sound_candidates(AudioPlayback::Undo, &failed, &generic, Some(&own)), &generic);
    assert_eq!(
        sound_candidates(AudioPlayback::Deposit(Money { value: 1 }), &failed, &generic, None),
        &generic
    );
}

#[test]
fn sound_url_is_one_of_the_candidates() {
    let files = vec!["a.mp3".to_string(), "b.mp3".to_string(), "c.mp3".to_string()];
    for _ in 0..20 {
        let url = get_item_sound_url(&files).unwrap();
        assert!(url.starts_with("/sounds/"));
        assert!(files.iter().any(|f| url == format!("/sounds/{f}")));
    }
    let one = vec!["only.mp3".to_string()];
    assert_eq!(get_item_sound_url(&one).unwrap(), "/sounds/only.mp3");
}

#[test]
fn no_sound_url_without_candidates() {
    let none: Vec<String> = Vec::new();
    assert_eq!(get_item_sound_url(&none), Err(NoSoundFile));
    assert_eq!(NoSoundFile.message(), "Failed to get sound file");
}
