use middleware_state::handler::{FixedHandler, Handler, Request};
use middleware_state::middleware::{start_message, SayHi, SayHiMiddleware};
use middleware_state::state::{AppCounters, IndexHandler};

fn req(path: &str) -> Request {
    Request { path: String::from(path) }
}

#[test]
fn decorator_passes_success_unchanged() {
    let inner = FixedHandler { status: 200, body: String::from("hello"), fail: false };
    let mut wrapped = SayHiMiddleware { service: inner };
    match wrapped.call(req("/greet")) {
        Ok(resp) => {
            assert_eq!(resp.status, 200);
            assert_eq!(resp.body, "hello");
        }
        Err(_) => panic!("the decorator turned a success into an error"),
    }
}

#[test]
fn decorator_propagates_error_unchanged() {
    let inner = FixedHandler { status: 500, body: String::from("inner failure"), fail: true };
    let mut wrapped = SayHiMiddleware { service: inner };
    match wrapped.call(req("/boom")) {
        Ok(_) => panic!("the decorator swallowed an error"),
        Err(e) => assert_eq!(e.message, "inner failure"),
    }
}

#[test]
fn factory_wraps_the_given_handler() {
    let inner = FixedHandler { status: 204, body: String::from(""), fail: false };
    let mut wrapped = match SayHi.new_transform(inner) {
        Ok(m) => m,
        Err(()) => panic!("wrapping never fails"),
    };
    match wrapped.call(req("/")) {
        Ok(resp) => assert_eq!(resp.status, 204),
        Err(_) => panic!("the decorator turned a success into an error"),
    }
}

#[test]
fn decorator_forwards_readiness() {
    let inner = FixedHandler { status: 200, body: String::from("ok"), fail: false };
    let wrapped = SayHiMiddleware { service: inner };
    assert!(wrapped.poll_ready().is_ok());
}

#[test]
fn fresh_server_end_to_end_through_decorator() {
    let counters = AppCounters { mutex_counter: 0, local_counter: 0, atomic_counter: 0 };
    let mut wrapped = SayHiMiddleware { service: IndexHandler { counters } };
    match wrapped.call(req("/")) {
        Ok(resp) => {
            assert_eq!(resp.status, 200);
            assert_eq!(
                resp.body,
                "global mutex counter: 1, local counter: 1, global atomic counter: 1"
            );
        }
        Err(_) => panic!("the counter handler never fails"),
    }
    match wrapped.call(req("/")) {
        Ok(resp) => {
            assert_eq!(
                resp.body,
                "global mutex counter: 2, local counter: 2, global atomic counter: 2"
            );
        }
        Err(_) => panic!("the counter handler never fails"),
    }
}

#[test]
fn start_message_names_the_path() {
    assert_eq!(start_message("/index"), "Hi from start. You requested: /index");
}
