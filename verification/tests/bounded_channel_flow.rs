use futures::Future;
use futures::Poll;
use futures::Task;
use futures::stream::Stream;
use futures::stream::bounded_channel;

#[test]
fn bounded_send_waits_for_the_receiver() {
    let mut task = Task::new();
    let (tx, mut rx) = bounded_channel::<u32, u32>();
    let tx = match tx.send(Ok(1)).poll(&mut task) {
        Poll::Ready(tx) => tx,
        _ => panic!("the single slot was free"),
    };
    let mut second = tx.send(Ok(2));
    assert!(second.poll(&mut task).is_not_ready());
    assert!(second.poll(&mut task).is_not_ready());
    assert!(matches!(rx.poll(&mut task), Poll::Ready(Some(1))));
    assert!(matches!(second.poll(&mut task), Poll::Ready(_)));
    assert!(matches!(rx.poll(&mut task), Poll::Ready(Some(2))));
}

#[test]
fn bounded_send_fails_once_receiver_is_gone() {
    let mut task = Task::new();
    let (tx, rx) = bounded_channel::<u32, u32>();
    drop(rx);
    let mut f = tx.send(Ok(7));
    match f.poll(&mut task) {
        Poll::Failed(e) => assert_eq!(e.unsent, Ok(7)),
        _ => panic!("the send had failed"),
    }
}

#[test]
fn bounded_drop_sender_ends_the_stream() {
    let mut task = Task::new();
    let (tx, mut rx) = bounded_channel::<u32, u32>();
    drop(tx);
    assert!(matches!(rx.poll(&mut task), Poll::Ready(None)));
}
