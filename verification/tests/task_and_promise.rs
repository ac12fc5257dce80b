use futures::Canceled;
use futures::Future;
use futures::Poll;
use futures::Task;
use futures::done;
use futures::promise;
use futures::select::select;
use futures::stream::Stream;
use futures::stream::channel;
use futures::then::then;

#[test]
fn task_records_and_drains_events() {
    let mut task = Task::new();
    assert!(!task.is_ready(3));
    task.ready(3);
    task.ready(3);
    task.ready(5);
    assert!(task.is_ready(3));
    assert!(task.is_ready(5));
    assert!(!task.is_ready(4));
    let drained = task.events();
    assert_eq!(drained.len(), 2);
    assert!(drained.contains(&3));
    assert!(drained.contains(&5));
    assert!(!task.is_ready(3));
    assert_eq!(task.events().len(), 0);
}

#[test]
fn task_handle_notifies() {
    let mut task = Task::new();
    let handle = task.handle();
    handle.notify(&mut task, 9);
    assert!(task.is_ready(9));
}

#[test]
fn promise_waits_for_its_value() {
    let mut task = Task::new();
    let (mut p, c) = promise::<i32>();
    assert!(p.poll(&mut task).is_not_ready());
    c.complete(4);
    assert!(matches!(p.poll(&mut task), Poll::Ready(4)));
}

#[test]
fn promise_cancellation() {
    let mut task = Task::new();
    let (mut p, c) = promise::<i32>();
    drop(c);
    assert!(matches!(p.poll(&mut task), Poll::Failed(Canceled)));
}

#[test]
fn promise_value_sent_to_dropped_promise_is_discarded() {
    let (p, c) = promise::<i32>();
    drop(p);
    c.complete(4);
}

#[test]
fn select_races() {
    let mut task = Task::new();
    let (a, ca) = promise::<i32>();
    let (b, cb) = promise::<i32>();
    ca.complete(1);
    cb.complete(2);
    let mut f = select(a, b);
    match f.poll(&mut task) {
        Poll::Ready((v, mut rest)) => {
            assert_eq!(v, 1);
            assert!(matches!(rest.poll(&mut task), Poll::Ready(2)));
        },
        _ => panic!("the completed promise was ready"),
    }
}

#[test]
fn sender_fails_once_receiver_is_gone() {
    let mut task = Task::new();
    let (tx, rx) = channel::<u32, u32>();
    drop(rx);
    let mut f = tx.send(Ok(1));
    match f.poll(&mut task) {
        Poll::Failed(e) => assert_eq!(e.unsent, Ok(1)),
        _ => panic!("the send had failed"),
    }
}

#[test]
fn receiver_sees_sent_error() {
    let mut task = Task::new();
    let (tx, mut rx) = channel::<u32, u32>();
    let mut f = tx.send(Err(3));
    assert!(f.poll(&mut task).is_ready());
    assert!(matches!(rx.poll(&mut task), Poll::Failed(3)));
}

#[test]
fn tailcall_hands_out_the_tail() {
    let mut task = Task::new();
    let (p, c) = promise::<u32>();
    let mut f = then(done::<u32, Canceled>(Ok(1)), move |_| p);
    assert!(f.poll(&mut task).is_not_ready());
    let mut tail = f.tailcall().expect("the chain was waiting on its tail");
    assert!(tail.poll(&mut task).is_not_ready());
    c.complete(9);
    assert!(matches!(tail.poll(&mut task), Poll::Ready(9)));
    assert!(f.tailcall().is_none());
}
