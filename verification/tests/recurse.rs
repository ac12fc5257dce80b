use std::sync::mpsc::channel;

use futures::BoxFuture;
use futures::and_then::and_then;
use futures::boxed;
use futures::finished;
use futures::forget;

fn doit(n: usize) -> BoxFuture<(), ()> {
    if n == 0 {
        boxed(finished(()))
    } else {
        boxed(and_then(finished(n - 1), doit))
    }
}

#[test]
fn lots() {
    let (tx, rx) = channel();
    forget(futures::map::map(doit(1_000), move |_| tx.send(()).unwrap()));
    rx.recv().unwrap();
}
