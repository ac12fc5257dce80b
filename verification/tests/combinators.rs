use futures::Future;
use futures::Poll;
use futures::Task;
use futures::and_then::and_then;
use futures::assert_future;
use futures::boxed;
use futures::done;
use futures::empty;
use futures::failed;
use futures::finished;
use futures::flatten::flatten;
use futures::fuse::fuse;
use futures::join::join;
use futures::lazy::lazy;
use futures::map_err::map_err;
use futures::or_else::or_else;
use futures::run;
use futures::select::select;
use futures::then::then;

#[test]
fn immediate_success() {
    let mut task = Task::new();
    let mut f = futures::map::map(done::<u32, u32>(Ok(7)), |x| x + 1);
    assert!(matches!(f.poll(&mut task), Poll::Ready(8)));
}

#[test]
fn map_forwards_error() {
    let mut task = Task::new();
    let mut f = futures::map::map(failed::<u32, u32>(3), |x| x + 1);
    assert!(matches!(f.poll(&mut task), Poll::Failed(3)));
}

#[test]
fn map_err_transforms_error() {
    let mut task = Task::new();
    let mut f = map_err(failed::<u32, u32>(1), |x| x + 3);
    assert!(matches!(f.poll(&mut task), Poll::Failed(4)));
}

#[test]
fn map_err_forwards_success() {
    let mut task = Task::new();
    let mut f = map_err(finished::<u32, u32>(1), |_x: u32| -> u32 {
        panic!("should not be called on success")
    });
    assert!(matches!(f.poll(&mut task), Poll::Ready(1)));
}

#[test]
fn and_then_chains_on_success() {
    let mut task = Task::new();
    let mut f = and_then(finished::<u32, u32>(1), |x| Ok::<u32, u32>(x + 3));
    assert!(matches!(f.poll(&mut task), Poll::Ready(4)));
}

#[test]
fn and_then_short_circuits_error() {
    let mut task = Task::new();
    let mut f = and_then(failed::<u32, u32>(2), |_x| -> Result<u32, u32> {
        panic!("should not be called in case of an error")
    });
    assert!(matches!(f.poll(&mut task), Poll::Failed(2)));
}

#[test]
fn or_else_recovers_from_error() {
    let mut task = Task::new();
    let mut f = or_else(failed::<u32, u32>(1), |x| Ok::<u32, u32>(x + 3));
    assert!(matches!(f.poll(&mut task), Poll::Ready(4)));
}

#[test]
fn or_else_forwards_success() {
    let mut task = Task::new();
    let mut f = or_else(finished::<u32, u32>(1), |_x| -> Result<u32, u32> {
        panic!("should not be called in case of success")
    });
    assert!(matches!(f.poll(&mut task), Poll::Ready(1)));
}

#[test]
fn then_sees_success() {
    let mut task = Task::new();
    let mut f = then(finished::<u32, u32>(1), |x: Result<u32, u32>| x.map(|y| y + 3));
    assert!(matches!(f.poll(&mut task), Poll::Ready(4)));
}

#[test]
fn then_sees_error() {
    let mut task = Task::new();
    let mut f = then(failed::<u32, u32>(1), |x: Result<u32, u32>| {
        match x {
            Ok(_) => panic!("expected an error"),
            Err(y) => finished::<u32, u32>(y + 3),
        }
    });
    assert!(matches!(f.poll(&mut task), Poll::Ready(4)));
}

#[test]
fn flatten_runs_inner_future() {
    let mut task = Task::new();
    let mut f = flatten(finished::<_, u32>(finished::<u32, u32>(1)));
    assert!(matches!(f.poll(&mut task), Poll::Ready(1)));
}

#[test]
fn flatten_forwards_outer_error() {
    let mut task = Task::new();
    let outer = done::<futures::Done<u32, u32>, u32>(Err(9));
    let mut f = flatten(outer);
    assert!(matches!(f.poll(&mut task), Poll::Failed(9)));
}

#[test]
fn fuse_reports_completion_once() {
    let mut task = Task::new();
    let mut f = fuse(finished::<i32, u32>(2));
    assert!(f.poll(&mut task).is_ready());
    assert!(f.poll(&mut task).is_not_ready());
    assert!(f.poll(&mut task).is_not_ready());
    assert!(f.poll(&mut task).is_not_ready());
}

#[test]
fn join_pairs_successes() {
    let mut task = Task::new();
    let mut f = join(finished::<u32, u32>(1), finished::<u32, u32>(2));
    assert!(matches!(f.poll(&mut task), Poll::Ready((1, 2))));
}

#[test]
fn join_fails_with_second_error() {
    let mut task = Task::new();
    let mut f = join(finished::<u32, u32>(1), failed::<u32, u32>(7));
    assert!(matches!(f.poll(&mut task), Poll::Failed(7)));
}

#[test]
fn join_fails_with_first_error() {
    let mut task = Task::new();
    let mut f = join(failed::<u32, u32>(6), finished::<u32, u32>(1));
    assert!(matches!(f.poll(&mut task), Poll::Failed(6)));
}

#[test]
fn select_takes_the_ready_side() {
    let mut task = Task::new();
    let mut f = select(finished::<u32, u32>(1), empty::<u32, u32>());
    match f.poll(&mut task) {
        Poll::Ready((v, mut rest)) => {
            assert_eq!(v, 1);
            assert!(rest.poll(&mut task).is_not_ready());
        },
        _ => panic!("the first future was ready"),
    }

    let mut g = select(empty::<u32, u32>(), finished::<u32, u32>(2));
    match g.poll(&mut task) {
        Poll::Ready((v, mut rest)) => {
            assert_eq!(v, 2);
            assert!(rest.poll(&mut task).is_not_ready());
        },
        _ => panic!("the second future was ready"),
    }
}

#[test]
fn select_forwards_error() {
    let mut task = Task::new();
    let mut f = select(failed::<u32, u32>(5), empty::<u32, u32>());
    match f.poll(&mut task) {
        Poll::Failed((e, _rest)) => assert_eq!(e, 5),
        _ => panic!("the first future had failed"),
    }
}

#[test]
fn lazy_runs_on_first_poll() {
    let mut task = Task::new();
    let mut f = lazy(|| Ok::<u32, u32>(5));
    assert!(matches!(f.poll(&mut task), Poll::Ready(5)));
}

#[test]
fn empty_never_completes() {
    let mut task = Task::new();
    let mut f = empty::<u32, u32>();
    assert!(f.poll(&mut task).is_not_ready());
    f.schedule(&mut task);
    assert!(f.poll(&mut task).is_not_ready());
}

#[test]
fn done_completes_immediately() {
    let mut task = Task::new();
    let mut ok = done::<u32, u32>(Ok(1));
    assert!(matches!(ok.poll(&mut task), Poll::Ready(1)));
    let mut bad = done::<u32, u32>(Err(2));
    assert!(matches!(bad.poll(&mut task), Poll::Failed(2)));
}

#[test]
fn poll_accessors() {
    let ready = Poll::<u32, u32>::Ready(1);
    assert!(ready.is_ready());
    assert!(!ready.is_not_ready());
    let pending = Poll::<u32, u32>::NotReady;
    assert!(!pending.is_ready());
    assert!(pending.is_not_ready());
    let oops = Poll::<u32, u32>::Failed(2);
    assert!(oops.is_ready());
}

#[test]
fn poll_map_and_map_err() {
    let ready = Poll::<u32, u32>::Ready(1);
    assert!(matches!(ready.map(|x| x + 1), Poll::Ready(2)));
    let oops = Poll::<u32, u32>::Failed(2);
    assert!(matches!(oops.map(|x| x + 1), Poll::Failed(2)));
    assert!(matches!(Poll::<u32, u32>::Failed(2).map_err(|e| e + 1), Poll::Failed(3)));
    assert!(matches!(Poll::<u32, u32>::Ready(1).map_err(|e| e + 1), Poll::Ready(1)));
    assert!(matches!(Poll::<u32, u32>::NotReady.map(|x| x), Poll::NotReady));
}

#[test]
fn run_drives_to_completion() {
    let f = and_then(finished::<u32, u32>(1), |x| Ok::<u32, u32>(x + 1));
    assert!(matches!(run(f, 16), Some(Ok(2))));
    assert!(matches!(run(failed::<u32, u32>(3), 16), Some(Err(3))));
}

#[test]
fn run_gives_up_after_budget() {
    assert!(run(empty::<u32, u32>(), 5).is_none());
}

#[test]
fn boxed_future_still_polls() {
    let mut task = Task::new();
    let mut f = boxed(finished::<u32, u32>(4));
    assert!(matches!(f.poll(&mut task), Poll::Ready(4)));
}

#[test]
fn assert_future_is_identity() {
    let mut task = Task::new();
    let mut f = assert_future::<u32, u32, _>(finished(1));
    assert!(matches!(f.poll(&mut task), Poll::Ready(1)));
}
