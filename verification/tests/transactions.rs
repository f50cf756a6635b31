use strichliste::backend::database::{TransactionDB, DBGROUP_AUFLADUNG_ID, DBGROUP_SNACKBAR_ID};
use strichliste::model::{GroupId, Money};
use strichliste::models::{Transaction, TransactionDelta, TransactionType};

fn transaction(group: i64, t_type: TransactionType, money: i64) -> Transaction {
    Transaction {
        id: 7,
        group_id: GroupId(group),
        is_undone: false,
        t_type,
        money: Money { value: money },
        description: Some("lunch".to_string()),
        timestamp: 1_700_000_000_000,
    }
}

fn row(sender: i64, receiver: i64, t_type_data: Option<i64>) -> TransactionDB {
    TransactionDB {
        id: 3,
        sender,
        receiver,
        is_undone: true,
        t_type_data,
        money: 250,
        description: None,
        timestamp: 42,
    }
}

#[test]
fn post_amount_adds_the_delta() {
    assert_eq!(TransactionDelta { amount_pre: 1000, delta: -250 }.post_amount(), 750);
    assert_eq!(strichliste::model::TransactionDelta { amount_pre: -5, delta: 5 }.post_amount(), 0);
}

#[test]
fn stored_row_of_each_type() {
    let r: TransactionDB = transaction(10, TransactionType::Deposit, 500).into();
    assert_eq!((r.sender, r.receiver, r.t_type_data), (10, DBGROUP_AUFLADUNG_ID, None));
    assert_eq!(r.money, 500);
    assert_eq!(r.id, 7);
    assert_eq!(r.description.as_deref(), Some("lunch"));
    assert_eq!(r.timestamp, 1_700_000_000_000);

    let r: TransactionDB = transaction(10, TransactionType::Withdraw, 500).into();
    assert_eq!((r.sender, r.receiver, r.t_type_data), (DBGROUP_AUFLADUNG_ID, 10, None));

    let r: TransactionDB = transaction(10, TransactionType::Bought(99), 120).into();
    assert_eq!((r.sender, r.receiver, r.t_type_data), (10, DBGROUP_SNACKBAR_ID, Some(99)));

    let r: TransactionDB = transaction(10, TransactionType::Received(GroupId(11)), 120).into();
    assert_eq!((r.sender, r.receiver, r.t_type_data), (11, 10, Some(11)));

    let r: TransactionDB = transaction(10, TransactionType::Sent(GroupId(11)), 120).into();
    assert_eq!((r.sender, r.receiver, r.t_type_data), (10, 11, Some(11)));

    let r: TransactionDB = transaction(10, TransactionType::SentAndReceived(GroupId(12)), 120).into();
    assert_eq!((r.sender, r.receiver, r.t_type_data), (10, 12, Some(12)));
}

#[test]
fn from_db_reads_each_kind() {
    let groups = vec![GroupId(10), GroupId(20)];

    let t = Transaction::from_db(row(DBGROUP_AUFLADUNG_ID, 10, None), &groups).unwrap();
    assert_eq!(t.t_type, TransactionType::Deposit);
    assert_eq!(t.group_id, GroupId(10));
    assert_eq!(t.id, 3);
    assert!(t.is_undone);
    assert_eq!(t.money, Money { value: 250 });
    assert_eq!(t.timestamp, 42);
    assert!(t.description.is_none());

    let t = Transaction::from_db(row(10, DBGROUP_AUFLADUNG_ID, None), &groups).unwrap();
    assert_eq!(t.t_type, TransactionType::Withdraw);
    assert_eq!(t.group_id, GroupId(10));

    let t = Transaction::from_db(row(10, DBGROUP_SNACKBAR_ID, Some(5)), &groups).unwrap();
    assert_eq!(t.t_type, TransactionType::Bought(5));

    let t = Transaction::from_db(row(10, 20, Some(20)), &groups).unwrap();
    assert_eq!(t.t_type, TransactionType::SentAndReceived(GroupId(20)));
    assert_eq!(t.group_id, GroupId(10));

    let t = Transaction::from_db(row(10, 30, Some(30)), &groups).unwrap();
    assert_eq!(t.t_type, TransactionType::Sent(GroupId(30)));
    assert_eq!(t.group_id, GroupId(10));

    let t = Transaction::from_db(row(30, 20, Some(30)), &groups).unwrap();
    assert_eq!(t.t_type, TransactionType::Received(GroupId(30)));
    assert_eq!(t.group_id, GroupId(20));
}

#[test]
fn from_db_refuses_a_row_of_other_groups() {
    let groups = vec![GroupId(10)];
    match Transaction::from_db(row(30, 40, None), &groups) {
        Err(e) => assert_eq!(
            e.message,
            "invalid state when converting TransactionDB to Transaction either sender or reciever must be group id"
        ),
        Ok(_) => panic!("expected an error"),
    }
}

#[test]
fn stored_transaction_reads_back() {
    let groups = vec![GroupId(10)];
    for t_type in [
        TransactionType::Bought(4),
        TransactionType::Sent(GroupId(11)),
        TransactionType::Received(GroupId(11)),
    ] {
        let t = transaction(10, t_type, 120);
        let back = Transaction::from_db(t.clone().into(), &groups).unwrap();
        assert_eq!(back.t_type, t.t_type);
        assert_eq!(back.group_id, t.group_id);
        assert_eq!(back.money, t.money);
        assert_eq!(back.description, t.description);
        assert_eq!(back.timestamp, t.timestamp);
        assert_eq!(back.id, t.id);
    }
    let both = vec![GroupId(10), GroupId(11)];
    let t = transaction(10, TransactionType::SentAndReceived(GroupId(11)), 120);
    let back = Transaction::from_db(t.clone().into(), &both).unwrap();
    assert_eq!(back.t_type, t.t_type);
    assert_eq!(back.group_id, t.group_id);
}

#[test]
fn a_deposit_does_not_read_back_as_a_deposit() {
    let groups = vec![GroupId(5)];
    let t = transaction(5, TransactionType::Deposit, 100);
    let back = Transaction::from_db(t.into(), &groups).unwrap();
    assert_eq!(back.t_type, TransactionType::Withdraw);
}
