use monoledger::codec::LedgerTree;
use monoledger::codec::TreeEntry;
use monoledger::ledger::fast_forward_allowed;
use monoledger::ledger::RemoteLedger;

fn single_entry(name: &[u8], data: &[u8]) -> LedgerTree {
    LedgerTree { entries: vec![TreeEntry { name: name.to_vec(), data: data.to_vec() }] }
}

#[test]
fn test_conflict() {
    let mut remote = RemoteLedger::new();

    let tb1 = single_entry(b"single", b"0");
    let tb2 = single_entry(b"double", b"27");

    // Two pushes race for the root: exactly one is accepted.
    assert!(remote.push(None, tb1).is_some());
    let tb2_again = single_entry(b"double", b"27");
    assert!(remote.push(None, tb2).is_none());

    // The loser fetches the winner's commit and pushes on top of it.
    let (commit1, tree1) = {
        let (id, tree) = remote.fetch().unwrap();
        (id, tree.entries[0].data.clone())
    };
    assert_eq!(tree1, b"0".to_vec());
    assert!(remote.push(Some(commit1), tb2_again).is_some());

    // Both entries were observable in order.
    let (_commit2, tree2) = remote.fetch().unwrap();
    assert_eq!(tree2.entries[0].name, b"double".to_vec());
    assert_eq!(tree2.entries[0].data, b"27".to_vec());
}

#[test]
fn push_is_compare_and_swap() {
    let mut remote = RemoteLedger::new();
    assert_eq!(remote.tip(), None);

    // A push that names a parent on an empty remote is rejected.
    assert_eq!(remote.push(Some(1), single_entry(b"a", b"1")), None);

    // The root push names no parent and gets commit 1.
    assert_eq!(remote.push(None, single_entry(b"a", b"1")), Some(1));
    assert_eq!(remote.tip(), Some(1));

    // A stale parent is rejected; the current tip is accepted.
    assert_eq!(remote.push(None, single_entry(b"b", b"2")), None);
    assert_eq!(remote.push(Some(1), single_entry(b"b", b"2")), Some(2));
    assert_eq!(remote.tip(), Some(2));
}

#[test]
fn history_is_append_only() {
    let mut remote = RemoteLedger::new();
    assert!(remote.fetch().is_none());

    assert_eq!(remote.push(None, single_entry(b"n", b"one")), Some(1));
    assert_eq!(remote.push(Some(1), single_entry(b"n", b"two")), Some(2));
    assert_eq!(remote.push(Some(2), single_entry(b"n", b"three")), Some(3));

    let (id, tree) = remote.fetch().unwrap();
    assert_eq!(id, 3);
    assert_eq!(tree.entries[0].data, b"three".to_vec());

    // A rejected push moves nothing.
    assert_eq!(remote.push(Some(1), single_entry(b"n", b"four")), None);
    let (id, tree) = remote.fetch().unwrap();
    assert_eq!(id, 3);
    assert_eq!(tree.entries[0].data, b"three".to_vec());
}

#[test]
fn update_loop_reaches_final_counter() {
    // The fetch-transform-push loop of a counter ledger: each round reads the
    // tip, increments, and pushes onto the commit it read.
    let mut remote = RemoteLedger::new();
    for i in 0..10u64 {
        let (parent, value) = match remote.fetch() {
            None => (None, None),
            Some((id, tree)) => {
                let text = String::from_utf8(tree.entries[0].data.clone()).unwrap();
                (Some(id), Some(text.parse::<u64>().unwrap()))
            }
        };
        let next = match value {
            None => 0,
            Some(v) => {
                assert_eq!(v, i - 1);
                v + 1
            }
        };
        let tree = single_entry(b"single", next.to_string().as_bytes());
        assert!(remote.push(parent, tree).is_some());
    }
    let (_, tree) = remote.fetch().unwrap();
    assert_eq!(tree.entries[0].data, b"9".to_vec());
}

#[test]
fn fast_forward_rules() {
    // An absent ref is created; an equal or ancestral target moves it; a
    // target behind the ref is divergence and is refused.
    assert!(fast_forward_allowed(None, 3));
    assert!(fast_forward_allowed(Some(3), 3));
    assert!(fast_forward_allowed(Some(2), 5));
    assert!(!fast_forward_allowed(Some(5), 2));
}
