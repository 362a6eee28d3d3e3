use wdn_node::message::{LocalMessage, Message, Waiter, CHANNEL_CAPACITY};

fn distribute(index: u64) -> Message {
    Message::LocalMessage(LocalMessage::ReqNodeDistributeTask(index))
}

fn index_of(msg: &Message) -> u64 {
    match msg {
        Message::LocalMessage(LocalMessage::ReqNodeDistributeTask(index)) => *index,
        _ => panic!("another message"),
    }
}

#[test]
fn messages_are_served_in_the_order_of_enqueue() {
    let mut waiter = Waiter::new(7);
    let caller = waiter.get_caller();
    let other = waiter.get_caller();
    assert_eq!(caller.waiter_id(), 7);
    caller.notify(&mut waiter, distribute(1)).unwrap();
    other.notify(&mut waiter, distribute(2)).unwrap();
    assert_eq!(caller.call(&mut waiter, distribute(3)).unwrap(), 0);
    caller.notify(&mut waiter, distribute(4)).unwrap();
    assert_eq!(other.call(&mut waiter, distribute(5)).unwrap(), 1);
    let mut served = Vec::new();
    while let Some(inner) = waiter.next() {
        served.push((index_of(&inner.msg), inner.sender));
    }
    assert_eq!(served, vec![(1, None), (2, None), (3, Some(0)), (4, None), (5, Some(1))]);
    assert!(waiter.next().is_none());
}

#[test]
fn waiter_answers_requests_only() {
    let mut waiter = Waiter::new(1);
    let caller = waiter.get_caller();
    let slot = caller.call(&mut waiter, distribute(1)).unwrap();
    caller.notify(&mut waiter, distribute(2)).unwrap();
    let silent = caller.call(&mut waiter, distribute(3)).unwrap();
    let mut seen = Vec::new();
    let answer = waiter.wait(|msg| {
        seen.push(index_of(&msg));
        Some(Message::LocalMessage(LocalMessage::AckKeeperInit(true)))
    });
    match answer {
        Some((to, Message::LocalMessage(LocalMessage::AckKeeperInit(true)))) => {
            assert_eq!(to, slot)
        }
        _ => panic!("no answer"),
    }
    // A notification has no reply slot: its answer goes nowhere.
    let answer = waiter.wait(|msg| {
        seen.push(index_of(&msg));
        Some(Message::LocalMessage(LocalMessage::AckKeeperInit(true)))
    });
    assert!(answer.is_none());
    // A request without an answer gets none.
    let answer = waiter.wait(|msg| {
        seen.push(index_of(&msg));
        None
    });
    assert!(answer.is_none());
    assert_eq!(silent, slot + 1);
    assert_eq!(seen, vec![1, 2, 3]);
    assert!(waiter.wait(|_| panic!("nothing to serve")).is_none());
}

#[test]
fn waiter_holds_a_hundred_messages() {
    let mut waiter = Waiter::new(1);
    let caller = waiter.get_caller();
    assert_eq!(CHANNEL_CAPACITY, 100);
    for i in 0..100 {
        caller.notify(&mut waiter, distribute(i)).unwrap();
    }
    assert_eq!(caller.notify(&mut waiter, distribute(100)).unwrap_err().message, "send failed");
    assert!(caller.call(&mut waiter, distribute(100)).is_err());
    assert_eq!(index_of(&waiter.next().unwrap().msg), 0);
    caller.notify(&mut waiter, distribute(100)).unwrap();
    for i in 1..=100 {
        assert_eq!(index_of(&waiter.next().unwrap().msg), i);
    }
    assert!(waiter.next().is_none());
}

#[test]
fn caller_writes_to_its_own_waiter_only() {
    let mut waiter = Waiter::new(1);
    let mut other = Waiter::new(2);
    let caller = waiter.get_caller();
    assert!(caller.notify(&mut other, distribute(1)).is_err());
    assert!(caller.call(&mut other, distribute(1)).is_err());
    assert!(other.next().is_none());
    assert!(caller.notify(&mut waiter, distribute(1)).is_ok());
}

