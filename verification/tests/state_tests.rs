use middleware_state::handler::Request;
use middleware_state::render::{render_body, usize_to_string};
use middleware_state::state::index;

fn req(path: &str) -> Request {
    Request { path: String::from(path) }
}

#[test]
fn fresh_request_reports_all_ones() {
    let mut mutex_counter: usize = 0;
    let mut local_counter: u32 = 0;
    let mut atomic_counter: usize = 0;
    let r = req("/");
    let resp = index(&mut mutex_counter, &mut local_counter, &mut atomic_counter, &r);
    assert_eq!(resp.status, 200);
    assert_eq!(
        resp.body,
        "global mutex counter: 1, local counter: 1, global atomic counter: 1"
    );
    assert_eq!(mutex_counter, 1);
    assert_eq!(local_counter, 1);
    assert_eq!(atomic_counter, 1);
}

#[test]
fn two_requests_same_worker() {
    let mut mutex_counter: usize = 0;
    let mut local_counter: u32 = 0;
    let mut atomic_counter: usize = 0;
    let r = req("/");
    let _ = index(&mut mutex_counter, &mut local_counter, &mut atomic_counter, &r);
    let resp = index(&mut mutex_counter, &mut local_counter, &mut atomic_counter, &r);
    assert_eq!(local_counter, 2);
    assert_eq!(
        resp.body,
        "global mutex counter: 2, local counter: 2, global atomic counter: 2"
    );
}

#[test]
fn two_requests_different_workers() {
    // The two globals are shared; each worker has a local counter of its own.
    let mut mutex_counter: usize = 0;
    let mut atomic_counter: usize = 0;
    let mut local_first: u32 = 0;
    let mut local_second: u32 = 0;
    let r = req("/");
    let _ = index(&mut mutex_counter, &mut local_first, &mut atomic_counter, &r);
    let resp = index(&mut mutex_counter, &mut local_second, &mut atomic_counter, &r);
    assert_eq!(local_second, 1);
    assert_eq!(local_first, 1);
    assert_eq!(mutex_counter, 2);
    assert_eq!(atomic_counter, 2);
    assert_eq!(
        resp.body,
        "global mutex counter: 2, local counter: 1, global atomic counter: 2"
    );
}

#[test]
fn sequential_requests_count_up() {
    let mut mutex_counter: usize = 0;
    let mut local_counter: u32 = 0;
    let mut atomic_counter: usize = 0;
    let r = req("/");
    for n in 1..=5u32 {
        let _ = index(&mut mutex_counter, &mut local_counter, &mut atomic_counter, &r);
        assert_eq!(local_counter, n);
    }
    assert_eq!(mutex_counter, 5);
    assert_eq!(atomic_counter, 5);
}

#[test]
fn globals_count_all_workers_requests() {
    // Four requests spread unevenly over two workers: the globals read the
    // total, each local only its own share.
    let mut mutex_counter: usize = 0;
    let mut atomic_counter: usize = 0;
    let mut local_a: u32 = 0;
    let mut local_b: u32 = 0;
    let r = req("/");
    let _ = index(&mut mutex_counter, &mut local_a, &mut atomic_counter, &r);
    let _ = index(&mut mutex_counter, &mut local_b, &mut atomic_counter, &r);
    let _ = index(&mut mutex_counter, &mut local_a, &mut atomic_counter, &r);
    let _ = index(&mut mutex_counter, &mut local_a, &mut atomic_counter, &r);
    assert_eq!(mutex_counter, 4);
    assert_eq!(atomic_counter, 4);
    assert_eq!(local_a, 3);
    assert_eq!(local_b, 1);
}

#[test]
fn decimal_rendering_exact() {
    assert_eq!(usize_to_string(0), "0");
    assert_eq!(usize_to_string(7), "7");
    assert_eq!(usize_to_string(10), "10");
    assert_eq!(usize_to_string(409), "409");
    assert_eq!(usize_to_string(1000000), "1000000");
    assert_eq!(usize_to_string(usize::MAX), usize::MAX.to_string());
}

#[test]
fn render_body_exact() {
    assert_eq!(
        render_body(3, 1, 2),
        "global mutex counter: 3, local counter: 1, global atomic counter: 2"
    );
}
