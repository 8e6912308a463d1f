use async_dnssd::error::Error;
use async_dnssd::raw::DNSService;
use async_dnssd::stream::{Poll, ServiceStream, StreamState};

fn fresh() -> ServiceStream<u32> {
    ServiceStream::new(DNSService::start(0).unwrap())
}

#[test]
fn fresh_stream_is_idle() {
    let mut s = fresh();
    assert_eq!(s.state(), StreamState::Idle);
    assert_eq!(s.poll(), Poll::NotReady);
    assert_eq!(s.state(), StreamState::Idle);
    assert_eq!(s.dispatched(0), Poll::NotReady);
    assert_eq!(s.state(), StreamState::Idle);
}

#[test]
fn stream_yields_replies_in_order_of_delivery() {
    for n in [0u32, 1, 2, 5, 100] {
        let mut s = fresh();
        for i in 0..n {
            assert!(s.deliver(Ok(i)));
            assert_eq!(s.state(), StreamState::Draining);
        }
        for i in 0..n {
            assert_eq!(s.state(), StreamState::Draining);
            assert_eq!(s.poll(), Poll::Ready(Ok(i)));
        }
        assert_eq!(s.state(), StreamState::Idle);
        assert_eq!(s.poll(), Poll::NotReady);
    }
}

#[test]
fn delivery_and_polls_may_interleave() {
    let mut s = fresh();
    assert!(s.deliver(Ok(1)));
    assert!(s.deliver(Ok(2)));
    assert_eq!(s.poll(), Poll::Ready(Ok(1)));
    assert!(s.deliver(Ok(3)));
    assert_eq!(s.dispatched(0), Poll::Ready(Ok(2)));
    assert_eq!(s.poll(), Poll::Ready(Ok(3)));
    assert_eq!(s.poll(), Poll::NotReady);
    assert!(s.deliver(Ok(4)));
    assert_eq!(s.poll(), Poll::Ready(Ok(4)));
    assert_eq!(s.state(), StreamState::Idle);
}

#[test]
fn error_reply_is_an_item_and_the_stream_goes_on() {
    let mut s = fresh();
    assert!(s.deliver(Ok(1)));
    assert!(s.deliver(Err(Error::ReplyError(-65538))));
    assert!(s.deliver(Err(Error::DecodingError)));
    assert!(s.deliver(Ok(2)));
    assert_eq!(s.poll(), Poll::Ready(Ok(1)));
    assert_eq!(s.poll(), Poll::Ready(Err(Error::ReplyError(-65538))));
    assert_eq!(s.state(), StreamState::Draining);
    assert_eq!(s.poll(), Poll::Ready(Err(Error::DecodingError)));
    assert_eq!(s.poll(), Poll::Ready(Ok(2)));
    assert_eq!(s.state(), StreamState::Idle);
    assert!(s.deliver(Ok(3)));
    assert_eq!(s.poll(), Poll::Ready(Ok(3)));
}

#[test]
fn failed_dispatch_ends_the_stream_with_one_error() {
    let mut s = fresh();
    assert!(s.deliver(Ok(1)));
    assert!(s.deliver(Ok(2)));
    assert_eq!(s.dispatched(-65563), Poll::Ready(Err(Error::NativeRejection(-65563))));
    assert_eq!(s.state(), StreamState::Terminated);
    assert_eq!(s.poll(), Poll::Ended);
    assert_eq!(s.dispatched(0), Poll::Ended);
    assert_eq!(s.dispatched(-65563), Poll::Ended);
    assert!(!s.deliver(Ok(3)));
    assert_eq!(s.poll(), Poll::Ended);
    // the native handle is still to be released, once
    assert!(s.cancel());
    assert!(!s.cancel());
}

#[test]
fn cancel_drops_what_was_buffered_and_releases_once() {
    let mut s = fresh();
    assert!(s.deliver(Ok(1)));
    assert!(s.cancel());
    assert_eq!(s.state(), StreamState::Terminated);
    assert_eq!(s.poll(), Poll::Ended);
    assert!(!s.deliver(Ok(2)));
    assert_eq!(s.poll(), Poll::Ended);
    assert!(!s.cancel());
    assert_eq!(s.poll(), Poll::Ended);
}

#[test]
fn stream_on_a_released_handle_is_at_its_end() {
    let mut s: ServiceStream<u32> = ServiceStream::new(DNSService::released());
    assert_eq!(s.state(), StreamState::Terminated);
    assert!(!s.deliver(Ok(1)));
    assert_eq!(s.poll(), Poll::Ended);
    assert!(!s.cancel());
}
