use strichliste::backend::database::TransactionDB;
use strichliste::model::Money;
use strichliste::routes::user::components::transaction_view::server::{check_undo, undo_balances, UndoError};

fn row(is_undone: bool) -> TransactionDB {
    TransactionDB {
        id: 5,
        sender: 10,
        receiver: 11,
        is_undone,
        t_type_data: Some(11),
        money: 300,
        description: None,
        timestamp: 0,
    }
}

fn values(v: &[Money]) -> Vec<i64> {
    v.iter().map(|m| m.value).collect()
}

fn zeros(n: usize) -> Vec<Money> {
    vec![Money { value: 0 }; n]
}

#[test]
fn check_undo_in_order() {
    assert_eq!(check_undo(false, Some(row(false))).unwrap_err(), UndoError::InvalidUser);
    assert_eq!(check_undo(false, None).unwrap_err(), UndoError::InvalidUser);
    assert_eq!(check_undo(true, None).unwrap_err(), UndoError::InvalidTransaction);
    assert_eq!(check_undo(true, Some(row(true))).unwrap_err(), UndoError::AlreadyUndone);
    let t = check_undo(true, Some(row(false))).unwrap();
    assert_eq!(t.id, 5);
    assert!(!t.is_undone);
}

#[test]
fn undo_error_messages() {
    assert_eq!(UndoError::InvalidUser.message(), "Invalid user!");
    assert_eq!(UndoError::InvalidTransaction.message(), "Invalid transaction!");
    assert_eq!(UndoError::AlreadyUndone.message(), "The transaction is already undone!");
}

#[test]
fn undo_between_two_single_users() {
    let (s, r) = undo_balances(250, &vec![Money { value: 100 }], &vec![Money { value: 400 }]);
    assert_eq!(values(&s), vec![350]);
    assert_eq!(values(&r), vec![150]);
}

#[test]
fn undo_of_an_even_split() {
    let (s, r) = undo_balances(300, &zeros(3), &zeros(2));
    assert_eq!(values(&s), vec![100, 100, 100]);
    assert_eq!(values(&r), vec![-150, -150]);
}

#[test]
fn undo_of_an_uneven_split_gives_one_cent_more_than_the_rest() {
    // 10 cents among 3: shares of 3, and the first 10 % 3 + 1 = 2 members get a cent more.
    let (s, r) = undo_balances(10, &zeros(3), &zeros(4));
    assert_eq!(values(&s), vec![4, 4, 3]);
    assert_eq!(values(&r), vec![-3, -3, -3, -2]);
}

#[test]
fn undo_shares_total_one_cent_more_when_uneven() {
    let (s, _) = undo_balances(1, &zeros(2), &zeros(1));
    assert_eq!(values(&s), vec![1, 1]);
    assert_eq!(s.iter().map(|m| m.value).sum::<i64>(), 2);
    let (s, _) = undo_balances(7, &zeros(7), &zeros(1));
    assert_eq!(s.iter().map(|m| m.value).sum::<i64>(), 7);
}

#[test]
fn undo_of_nothing_changes_nothing() {
    let (s, r) = undo_balances(0, &vec![Money { value: 5 }], &vec![Money { value: -5 }, Money { value: 0 }]);
    assert_eq!(values(&s), vec![5]);
    assert_eq!(values(&r), vec![-5, 0]);
}
