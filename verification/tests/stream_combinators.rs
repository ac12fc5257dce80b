use futures::Future;
use futures::Poll;
use futures::Task;
use futures::stream::Stream;
use futures::stream::channel;
use futures::stream::filter_stream;
use futures::stream::fuse_stream;
use futures::stream::map_stream;
use futures::stream::take_while_stream;

#[test]
fn stream_map_transforms_each_item() {
    let mut task = Task::new();
    let (tx, rx) = channel::<u32, u32>();
    let tx = match tx.send(Ok(1)).poll(&mut task) {
        Poll::Ready(tx) => tx,
        _ => panic!("the receiver is alive"),
    };
    let mut doubled = map_stream(rx, |x: u32| x * 2);
    assert!(matches!(doubled.poll(&mut task), Poll::Ready(Some(2))));
    let tx = match tx.send(Ok(5)).poll(&mut task) {
        Poll::Ready(tx) => tx,
        _ => panic!("the receiver is alive"),
    };
    assert!(matches!(doubled.poll(&mut task), Poll::Ready(Some(10))));
    drop(tx);
    assert!(matches!(doubled.poll(&mut task), Poll::Ready(None)));
}

#[test]
fn stream_fuse_reports_the_end_forever() {
    let mut task = Task::new();
    let (tx, rx) = channel::<u32, u32>();
    drop(tx);
    let mut fused = fuse_stream(rx);
    assert!(matches!(fused.poll(&mut task), Poll::Ready(None)));
    assert!(matches!(fused.poll(&mut task), Poll::Ready(None)));
    assert!(matches!(fused.poll(&mut task), Poll::Ready(None)));
}

#[test]
fn stream_filter_drops_rejected_items() {
    let mut task = Task::new();
    let (tx, rx) = channel::<u32, u32>();
    let tx = match tx.send(Ok(3)).poll(&mut task) {
        Poll::Ready(tx) => tx,
        _ => panic!("the receiver is alive"),
    };
    let tx = match tx.send(Ok(4)).poll(&mut task) {
        Poll::Ready(tx) => tx,
        _ => panic!("the receiver is alive"),
    };
    let mut evens = filter_stream(rx, |x: &u32| x % 2 == 0);
    assert!(evens.poll(&mut task).is_not_ready());
    assert!(matches!(evens.poll(&mut task), Poll::Ready(Some(4))));
    drop(tx);
    assert!(matches!(evens.poll(&mut task), Poll::Ready(None)));
}

#[test]
fn stream_take_while_cuts_the_prefix() {
    let mut task = Task::new();
    let (tx, rx) = channel::<u32, u32>();
    let tx = match tx.send(Ok(1)).poll(&mut task) {
        Poll::Ready(tx) => tx,
        _ => panic!("the receiver is alive"),
    };
    let tx = match tx.send(Ok(2)).poll(&mut task) {
        Poll::Ready(tx) => tx,
        _ => panic!("the receiver is alive"),
    };
    let tx = match tx.send(Ok(9)).poll(&mut task) {
        Poll::Ready(tx) => tx,
        _ => panic!("the receiver is alive"),
    };
    let mut small = take_while_stream(rx, |x: &u32| *x < 5);
    assert!(matches!(small.poll(&mut task), Poll::Ready(Some(1))));
    assert!(matches!(small.poll(&mut task), Poll::Ready(Some(2))));
    assert!(matches!(small.poll(&mut task), Poll::Ready(None)));
    drop(tx);
}
