use futures::Future;
use futures::Poll;
use futures::Task;
use futures::boxed;
use futures::BoxFuture;
use futures::empty;
use futures::failed;
use futures::finished;
use futures::select_all::select_all;

#[test]
fn select_all_picks_first_ready() {
    let mut task = Task::new();
    let futs: Vec<BoxFuture<u32, u32>> = vec![
        boxed(empty::<u32, u32>()),
        boxed(finished::<u32, u32>(2)),
        boxed(empty::<u32, u32>()),
    ];
    let mut f = select_all(futs);
    match f.poll(&mut task) {
        Poll::Ready((v, index, mut rest)) => {
            assert_eq!(v, 2);
            assert_eq!(index, 1);
            assert_eq!(rest.len(), 2);
            assert!(rest[0].poll(&mut task).is_not_ready());
            assert!(rest[1].poll(&mut task).is_not_ready());
        },
        _ => panic!("one future was ready"),
    }
}

#[test]
fn select_all_reports_first_error() {
    let mut task = Task::new();
    let futs: Vec<BoxFuture<u32, u32>> = vec![
        boxed(empty::<u32, u32>()),
        boxed(failed::<u32, u32>(7)),
    ];
    let mut f = select_all(futs);
    match f.poll(&mut task) {
        Poll::Failed((e, index, rest)) => {
            assert_eq!(e, 7);
            assert_eq!(index, 1);
            assert_eq!(rest.len(), 1);
        },
        _ => panic!("one future had failed"),
    }
}

#[test]
fn select_all_stays_pending_without_progress() {
    let mut task = Task::new();
    let futs: Vec<futures::Empty<u32, u32>> = vec![empty(), empty()];
    let mut f = select_all(futs);
    assert!(f.poll(&mut task).is_not_ready());
    assert!(f.poll(&mut task).is_not_ready());
}
