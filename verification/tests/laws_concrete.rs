use futures::Future;
use futures::Poll;
use futures::Task;
use futures::and_then::and_then;
use futures::collect::collect;
use futures::done;
use futures::failed;
use futures::finished;
use futures::join::join3;
use futures::join::join4;
use futures::join::join5;

#[test]
fn map_identity_leaves_result() {
    let mut task = Task::new();
    let mut plain = finished::<u32, u32>(5);
    let mut mapped = futures::map::map(finished::<u32, u32>(5), |x| x);
    let direct = match plain.poll(&mut task) {
        Poll::Ready(v) => v,
        _ => panic!("a finished future is ready"),
    };
    match mapped.poll(&mut task) {
        Poll::Ready(v) => assert_eq!(v, direct),
        _ => panic!("the mapped future is ready"),
    }
}

#[test]
fn and_then_left_identity() {
    let mut task = Task::new();
    let g = |x: u32| Ok::<u32, u32>(x * 10);
    let mut chained = and_then(finished::<u32, u32>(7), g);
    let mut direct = done::<u32, u32>(g(7));
    let expected = match direct.poll(&mut task) {
        Poll::Ready(v) => v,
        _ => panic!("a done future is ready"),
    };
    match chained.poll(&mut task) {
        Poll::Ready(v) => assert_eq!(v, expected),
        _ => panic!("the chained future is ready"),
    }
}

#[test]
fn and_then_right_identity() {
    let mut task = Task::new();
    let mut plain = done::<u32, u32>(Ok(9));
    let mut chained = and_then(done::<u32, u32>(Ok(9)), |x| finished::<u32, u32>(x));
    let expected = match plain.poll(&mut task) {
        Poll::Ready(v) => v,
        _ => panic!("a done future is ready"),
    };
    match chained.poll(&mut task) {
        Poll::Ready(v) => assert_eq!(v, expected),
        _ => panic!("the chained future is ready"),
    }
}

#[test]
fn then_matches_direct_call() {
    let mut task = Task::new();
    let h = |r: Result<u32, u32>| -> Result<u32, u32> {
        match r {
            Ok(v) => Ok(v + 1),
            Err(e) => Err(e + 1),
        }
    };
    let mut ok_side = futures::then::then(done::<u32, u32>(Ok(4)), h);
    assert!(matches!(ok_side.poll(&mut task), Poll::Ready(5)));
    let mut err_side = futures::then::then(done::<u32, u32>(Err(4)), h);
    assert!(matches!(err_side.poll(&mut task), Poll::Failed(5)));
}

#[test]
fn join3_collects_all_values() {
    let mut task = Task::new();
    let mut f = join3(
        finished::<u32, u32>(1),
        finished::<u32, u32>(2),
        finished::<u32, u32>(3),
    );
    assert!(matches!(f.poll(&mut task), Poll::Ready((1, 2, 3))));
}

#[test]
fn join4_collects_all_values() {
    let mut task = Task::new();
    let mut f = join4(
        finished::<u32, u32>(1),
        finished::<u32, u32>(2),
        finished::<u32, u32>(3),
        finished::<u32, u32>(4),
    );
    assert!(matches!(f.poll(&mut task), Poll::Ready((1, 2, 3, 4))));
}

#[test]
fn join5_collects_all_values_and_errors() {
    let mut task = Task::new();
    let mut f = join5(
        finished::<u32, u32>(1),
        finished::<u32, u32>(2),
        finished::<u32, u32>(3),
        finished::<u32, u32>(4),
        finished::<u32, u32>(5),
    );
    assert!(matches!(f.poll(&mut task), Poll::Ready((1, 2, 3, 4, 5))));
    let mut g = join5(
        finished::<u32, u32>(1),
        finished::<u32, u32>(2),
        failed::<u32, u32>(9),
        finished::<u32, u32>(4),
        finished::<u32, u32>(5),
    );
    assert!(matches!(g.poll(&mut task), Poll::Failed(9)));
}

#[test]
fn collect_keeps_order() {
    let mut task = Task::new();
    let futs = vec![
        finished::<u32, u32>(1),
        finished::<u32, u32>(2),
        finished::<u32, u32>(3),
    ];
    let mut f = collect(futs);
    match f.poll(&mut task) {
        Poll::Ready(vs) => assert_eq!(vs, vec![1, 2, 3]),
        _ => panic!("all futures were ready"),
    }
}

#[test]
fn collect_of_nothing_is_empty() {
    let mut task = Task::new();
    let futs: Vec<futures::Done<u32, u32>> = vec![];
    let mut f = collect(futs);
    match f.poll(&mut task) {
        Poll::Ready(vs) => assert_eq!(vs.len(), 0),
        _ => panic!("an empty collect is ready"),
    }
}

#[test]
fn collect_stops_at_first_error() {
    let mut task = Task::new();
    let futs = vec![
        done::<u32, u32>(Ok(1)),
        done::<u32, u32>(Err(8)),
        done::<u32, u32>(Ok(3)),
    ];
    let mut f = collect(futs);
    assert!(matches!(f.poll(&mut task), Poll::Failed(8)));
}
