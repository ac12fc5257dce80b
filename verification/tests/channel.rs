use futures::BoxFuture;
use futures::Poll;
use futures::Task;
use futures::and_then::and_then;
use futures::boxed;
use futures::done;
use futures::forget;
use futures::map_err::map_err;
use futures::stream::Receiver;
use futures::stream::Sender;
use futures::stream::Stream;
use futures::stream::channel;

fn sassert_empty(s: &mut Receiver<u32, u32>) {
    let mut task = Task::new();
    match s.poll(&mut task) {
        Poll::NotReady => (),
        Poll::Ready(item) => panic!("stream yielded {:?} when none was expected", item),
        Poll::Failed(e) => panic!("stream errored with {} when nothing was expected", e),
    }
}

fn sassert_next(s: &mut Receiver<u32, u32>, expected: u32) {
    let mut task = Task::new();
    match s.poll(&mut task) {
        Poll::NotReady => panic!("stream was empty when a value was expected"),
        Poll::Ready(Some(v)) => assert_eq!(v, expected),
        Poll::Ready(None) => panic!("stream ended when a value was expected"),
        Poll::Failed(e) => panic!("stream errored with {} when a value was expected", e),
    }
}

fn sassert_done(s: &mut Receiver<u32, u32>) {
    let mut task = Task::new();
    match s.poll(&mut task) {
        Poll::NotReady => panic!("stream was empty when its end was expected"),
        Poll::Ready(Some(v)) => panic!("stream yielded {} when its end was expected", v),
        Poll::Ready(None) => (),
        Poll::Failed(e) => panic!("stream errored with {} when its end was expected", e),
    }
}

fn send(n: u32, sender: Sender<u32, u32>) -> BoxFuture<(), ()> {
    if n == 0 {
        return boxed(done(Ok(())));
    }
    boxed(and_then(map_err(sender.send(Ok(n)), |_| ()), move |sender| send(n - 1, sender)))
}

#[test]
fn sequence() {
    let (tx, mut rx) = channel();

    sassert_empty(&mut rx);
    sassert_empty(&mut rx);

    let amt: u32 = 20;
    forget(send(amt, tx));
    for i in (1..amt + 1).rev() {
        sassert_next(&mut rx, i);
    }
    sassert_done(&mut rx);
}

#[test]
fn drop_sender() {
    let (tx, mut rx) = channel::<u32, u32>();
    drop(tx);
    sassert_done(&mut rx);
}
