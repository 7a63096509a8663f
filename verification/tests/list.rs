use saildb::list::{DistributedList, DistributedListPeer, ListReply, ListRequest};
use saildb::action::ListAction;

#[test]
fn default_list_is_empty() {
    let list: DistributedList<u64> = DistributedList::default();
    assert_eq!(list.get(0), None);
}

#[test]
fn push_then_get() {
    let mut list = DistributedList::default();
    list.push(String::from("a"));
    list.push(String::from("b"));
    assert_eq!(list.get(0), Some(String::from("a")));
    assert_eq!(list.get(1), Some(String::from("b")));
    assert_eq!(list.get(2), None);
}

#[test]
fn remove_shifts_later_values() {
    let mut list = DistributedList::default();
    for v in [10u64, 20, 30, 40] {
        list.push(v);
    }
    assert_eq!(list.remove(1), 20);
    assert_eq!(list.get(0), Some(10));
    assert_eq!(list.get(1), Some(30));
    assert_eq!(list.get(2), Some(40));
    assert_eq!(list.get(3), None);
}

#[test]
fn push_then_take_last_restores() {
    let mut list = DistributedList::default();
    list.push(1u8);
    list.push(2u8);
    assert_eq!(list.remove(1), 2);
    assert_eq!(list.get(0), Some(1));
    assert_eq!(list.get(1), None);
}

#[test]
fn list_serve_answers_each_request() {
    let mut list = DistributedList::default();
    assert!(matches!(list.serve(ListRequest::Push { value: 7u32 }), ListReply::Pushed));
    assert!(matches!(list.serve(ListRequest::Get { index: 0 }), ListReply::Got(Some(7))));
    assert!(matches!(list.serve(ListRequest::Get { index: 5 }), ListReply::Got(None)));
    assert!(matches!(list.serve(ListRequest::Remove { index: 0 }), ListReply::Removed(7)));
    assert!(matches!(list.serve(ListRequest::Get { index: 0 }), ListReply::Got(None)));
}

#[test]
fn list_request_names_its_action() {
    assert_eq!(ListRequest::<u8>::Get { index: 1 }.action(), ListAction::Get);
    assert_eq!(ListRequest::Push { value: 1u8 }.action(), ListAction::Push);
    assert_eq!(ListRequest::<u8>::Remove { index: 1 }.action(), ListAction::Remove);
}

#[test]
fn peer_keeps_its_channel() {
    let peer: DistributedListPeer<u8, &str> = DistributedListPeer::from("chan");
    assert_eq!(peer.0, "chan");
}
