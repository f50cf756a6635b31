use strichliste::model::{GroupId, Money};
use strichliste::models::{Transaction, TransactionType};
use strichliste::routes::user::components::transaction_view::view::{
    balance_effect, describe_transfer, format_amount, sort_newest_first, undo_offered,
};

fn at(id: i64, timestamp: i64) -> Transaction {
    Transaction {
        id,
        group_id: GroupId(3),
        is_undone: false,
        t_type: TransactionType::Deposit,
        money: Money { value: 1 },
        description: None,
        timestamp,
    }
}

#[test]
fn balance_effect_by_type() {
    let m = Money { value: 120 };
    assert_eq!(balance_effect(TransactionType::Deposit, m), 120);
    assert_eq!(balance_effect(TransactionType::Received(GroupId(4)), m), 120);
    assert_eq!(balance_effect(TransactionType::SentAndReceived(GroupId(4)), m), 120);
    assert_eq!(balance_effect(TransactionType::Withdraw, m), -120);
    assert_eq!(balance_effect(TransactionType::Bought(8), m), -120);
    assert_eq!(balance_effect(TransactionType::Sent(GroupId(4)), m), -120);
}

#[test]
fn undo_is_offered_for_two_whole_minutes() {
    let t = 1_000_000;
    assert!(undo_offered(false, t, t));
    assert!(undo_offered(false, t + 179_999, t));
    assert!(!undo_offered(false, t + 180_000, t));
    assert!(!undo_offered(true, t, t));
    assert!(undo_offered(false, t - 5_000, t));
}

#[test]
fn amounts_as_the_list_shows_them() {
    let m = Money { value: 150 };
    assert_eq!(format_amount(TransactionType::Deposit, m), "+1.50€");
    assert_eq!(format_amount(TransactionType::Deposit, Money { value: -150 }), "-1.50€");
    assert_eq!(format_amount(TransactionType::Withdraw, m), "-1.50€");
    assert_eq!(format_amount(TransactionType::Bought(2), m), "-1.50€");
    assert_eq!(format_amount(TransactionType::Received(GroupId(4)), m), "+1.50€");
    assert_eq!(format_amount(TransactionType::Sent(GroupId(4)), m), "-1.50€");
}

#[test]
fn transfer_description_lists_the_members() {
    let members = vec!["anna".to_string(), "ben".to_string(), "cleo".to_string()];
    assert_eq!(describe_transfer(&members, &None), "anna, ben, cleo");
    assert_eq!(describe_transfer(&members, &Some("pizza".to_string())), "anna, ben, cleo: pizza");
    let one = vec!["dora".to_string()];
    assert_eq!(describe_transfer(&one, &Some(String::new())), "dora: ");
    let none: Vec<String> = Vec::new();
    assert_eq!(describe_transfer(&none, &None), "");
}

#[test]
fn newest_transactions_come_first() {
    let sorted = sort_newest_first(vec![at(1, 10), at(2, 30), at(3, 20), at(4, 30)]);
    let ids: Vec<i64> = sorted.iter().map(|t| t.id).collect();
    assert_eq!(ids, vec![2, 4, 3, 1]);
    assert!(sort_newest_first(Vec::new()).is_empty());
}
