use async_dnssd::channel::{delivery, forward, Refused};
use async_dnssd::error::Error;
use async_dnssd::interface::Interface;
use async_dnssd::service::query_flags::{
    QueriedRecordFlag, QueriedRecordFlags, QueryRecordFlag, QueryRecordFlags,
};
use async_dnssd::service::query_record::{
    decode_reply, query_record, query_record_callback, QueryRecordResult,
};
use async_dnssd::stream::{Poll, StreamState};
use futures::sync::mpsc::unbounded;
use futures::Stream;

fn localhost_reply() -> Result<QueryRecordResult, Error> {
    decode_reply(
        0x2,
        3,
        0,
        Some(b"example.local.\0"),
        1,
        1,
        4,
        Some(&[127, 0, 0, 1]),
        120,
    )
}

#[test]
fn successful_reply_is_decoded_field_by_field() {
    let r = localhost_reply().unwrap();
    assert_eq!(r.fullname, "example.local.");
    assert_eq!(r.interface, Interface::Index(3));
    assert_eq!(r.rr_type, 1);
    assert_eq!(r.rr_class, 1);
    assert_eq!(r.rdata, vec![127, 0, 0, 1]);
    assert_eq!(r.ttl, 120);
    assert!(r.flags.contains(QueriedRecordFlag::Add));
    assert!(!r.flags.contains(QueriedRecordFlag::MoreComing));
    assert_eq!(r.flags, QueriedRecordFlags::from(QueriedRecordFlag::Add));
}

#[test]
fn reply_values_pass_through_uninterpreted() {
    let r = decode_reply(
        0xffff_ffff,
        0,
        0,
        Some(b"a\0"),
        0xffff,
        0x8001,
        3,
        Some(&[0, 0, 0]),
        0xffff_ffff,
    )
    .unwrap();
    assert_eq!(r.flags, QueriedRecordFlag::Add | QueriedRecordFlag::MoreComing);
    assert_eq!(r.interface, Interface::Any);
    assert_eq!(r.fullname, "a");
    assert_eq!(r.rr_type, 0xffff);
    assert_eq!(r.rr_class, 0x8001);
    assert_eq!(r.rdata, vec![0, 0, 0]);
    assert_eq!(r.ttl, 0xffff_ffff);
}

#[test]
fn reply_with_error_code_is_a_reply_error() {
    let r = decode_reply(0x2, 3, -65538, Some(b"example.local.\0"), 1, 1, 4, Some(&[127, 0, 0, 1]), 120);
    assert_eq!(r, Err(Error::ReplyError(-65538)));
    // the error code wins over everything else in the reply
    let r = decode_reply(0, 0, 7, None, 0, 0, 9, None, 0);
    assert_eq!(r, Err(Error::ReplyError(7)));
}

#[test]
fn zero_length_data_is_empty_whatever_the_buffer() {
    let r = decode_reply(0, 0, 0, Some(b"a\0"), 16, 1, 0, None, 1).unwrap();
    assert_eq!(r.rdata, Vec::<u8>::new());
    let r = decode_reply(0, 0, 0, Some(b"a\0"), 16, 1, 0, Some(&[1, 2, 3]), 1).unwrap();
    assert_eq!(r.rdata, Vec::<u8>::new());
    let r = decode_reply(0, 0, 0, Some(b"a\0"), 16, 1, 0, Some(&[]), 1).unwrap();
    assert_eq!(r.rdata, Vec::<u8>::new());
}

#[test]
fn inconsistent_data_buffer_is_a_decoding_error() {
    assert_eq!(
        decode_reply(0, 0, 0, Some(b"a\0"), 16, 1, 4, None, 1),
        Err(Error::DecodingError)
    );
    assert_eq!(
        decode_reply(0, 0, 0, Some(b"a\0"), 16, 1, 4, Some(&[1, 2, 3]), 1),
        Err(Error::DecodingError)
    );
    assert_eq!(
        decode_reply(0, 0, 0, Some(b"a\0"), 16, 1, 2, Some(&[1, 2, 3]), 1),
        Err(Error::DecodingError)
    );
}

#[test]
fn unreadable_name_is_a_decoding_error() {
    assert_eq!(decode_reply(0, 0, 0, None, 1, 1, 0, None, 1), Err(Error::DecodingError));
    assert_eq!(decode_reply(0, 0, 0, Some(b"abc"), 1, 1, 0, None, 1), Err(Error::DecodingError));
    assert_eq!(decode_reply(0, 0, 0, Some(b"a\0b\0"), 1, 1, 0, None, 1), Err(Error::DecodingError));
    assert_eq!(decode_reply(0, 0, 0, Some(b"\xff\0"), 1, 1, 0, None, 1), Err(Error::DecodingError));
    assert_eq!(decode_reply(0, 0, 0, Some(b""), 1, 1, 0, None, 1), Err(Error::DecodingError));
}

#[test]
fn data_may_hold_zero_bytes() {
    let r = decode_reply(0, 0, 0, Some(b"a\0"), 16, 1, 5, Some(&[0, 1, 0, 2, 0]), 1).unwrap();
    assert_eq!(r.rdata, vec![0, 1, 0, 2, 0]);
}

#[test]
fn query_is_written_down_for_the_native_layer() {
    let req = query_record(
        QueryRecordFlags::from(QueryRecordFlag::LongLivedQuery),
        Interface::Index(2),
        "example.local.",
        1,
        1,
    )
    .unwrap();
    assert_eq!(req.flags, 0x100);
    assert_eq!(req.interface_index, 2);
    assert_eq!(req.fullname, b"example.local.\0".to_vec());
    assert_eq!(req.rr_type, 1);
    assert_eq!(req.rr_class, 1);
    let req = query_record(QueryRecordFlags::empty(), Interface::Any, "x", 28, 255).unwrap();
    assert_eq!(req.flags, 0);
    assert_eq!(req.interface_index, 0);
    assert_eq!(req.fullname, vec![b'x', 0]);
    assert_eq!(req.rr_type, 28);
    assert_eq!(req.rr_class, 255);
}

#[test]
fn query_for_a_name_with_a_zero_byte_is_invalid_input() {
    let r = query_record(QueryRecordFlags::empty(), Interface::Any, "exa\0mple", 1, 1);
    assert_eq!(r, Err(Error::InvalidInput));
}

#[test]
fn rejected_start_is_a_native_rejection() {
    let req = query_record(QueryRecordFlags::empty(), Interface::Any, "example.local.", 1, 1).unwrap();
    match req.started(-65540) {
        Err(e) => assert_eq!(e, Error::NativeRejection(-65540)),
        Ok(_) => panic!("a rejected start gave a query"),
    }
    let q = req.started(0);
    assert!(q.is_ok());
}

#[test]
fn callback_sends_the_decoded_reply_through_the_channel() {
    let (tx, rx) = unbounded::<Result<QueryRecordResult, Error>>();
    let sent = query_record_callback(&tx, 0x2, 3, 0, Some(b"example.local.\0"), 1, 1, 4, Some(&[127, 0, 0, 1]), 120);
    assert_eq!(sent, Ok(()));
    let sent = query_record_callback(&tx, 0, 0, -65538, None, 0, 0, 0, None, 0);
    assert_eq!(sent, Ok(()));
    drop(tx);
    let got: Vec<Result<QueryRecordResult, Error>> = rx.wait().map(|r| r.unwrap()).collect();
    assert_eq!(got.len(), 2);
    assert_eq!(got[0], localhost_reply());
    assert_eq!(got[1], Err(Error::ReplyError(-65538)));
}

#[test]
fn callback_after_the_consumer_is_gone_is_a_noop() {
    let (tx, rx) = unbounded::<Result<QueryRecordResult, Error>>();
    drop(rx);
    let sent = query_record_callback(&tx, 0x2, 3, 0, Some(b"example.local.\0"), 1, 1, 4, Some(&[127, 0, 0, 1]), 120);
    assert_eq!(sent, Err(Refused { error: Error::ChannelClosed, item: localhost_reply() }));
    let sent = query_record_callback(&tx, 0, 0, -65538, None, 0, 0, 0, None, 0);
    assert_eq!(
        sent,
        Err(Refused { error: Error::ChannelClosed, item: Err(Error::ReplyError(-65538)) })
    );
}

#[test]
fn forward_queues_while_the_receiver_lives_and_hands_back_after() {
    let (tx, rx) = unbounded::<u32>();
    assert_eq!(forward(&tx, 7), Ok(()));
    assert_eq!(forward(&tx, 8), Ok(()));
    let mut items = rx.wait();
    assert_eq!(items.next(), Some(Ok(7)));
    assert_eq!(items.next(), Some(Ok(8)));
    drop(items);
    assert_eq!(forward(&tx, 9), Err(Refused { error: Error::ChannelClosed, item: 9 }));
}

#[test]
fn delivery_reads_what_the_channel_gave_back() {
    assert_eq!(delivery::<u32>(None), Ok(()));
    assert_eq!(delivery(Some(5u32)), Err(Refused { error: Error::ChannelClosed, item: 5 }));
}

#[test]
fn query_for_example_local_yields_one_result() {
    let req = query_record(QueryRecordFlags::empty(), Interface::Any, "example.local.", 1, 1).unwrap();
    assert_eq!(req.fullname, b"example.local.\0".to_vec());
    let mut query = req.started(0).unwrap();
    assert_eq!(query.state(), StreamState::Idle);
    assert_eq!(query.poll(), Poll::NotReady);

    let (tx, rx) = unbounded::<Result<QueryRecordResult, Error>>();
    let sent = query_record_callback(&tx, 0x2, 0, 0, Some(b"example.local.\0"), 1, 1, 4, Some(&[127, 0, 0, 1]), 120);
    assert_eq!(sent, Ok(()));
    drop(tx);
    for reply in rx.wait() {
        assert!(query.deliver(reply.unwrap()));
    }
    assert_eq!(query.state(), StreamState::Draining);

    match query.dispatched(0) {
        Poll::Ready(Ok(r)) => {
            assert_eq!(r.fullname, "example.local.");
            assert_eq!(r.rr_type, 1);
            assert_eq!(r.rr_class, 1);
            assert_eq!(r.rdata, vec![127, 0, 0, 1]);
            assert_eq!(r.ttl, 120);
            assert!(r.flags.contains(QueriedRecordFlag::Add));
            assert!(!r.flags.contains(QueriedRecordFlag::MoreComing));
        }
        other => panic!("expected one result, got {:?}", other),
    }
    assert_eq!(query.state(), StreamState::Idle);
    assert_eq!(query.poll(), Poll::NotReady);
}

#[test]
fn consumer_dropping_the_query_makes_later_replies_noops() {
    let req = query_record(QueryRecordFlags::empty(), Interface::Any, "example.local.", 1, 1).unwrap();
    let mut query = req.started(0).unwrap();
    assert!(query.deliver(localhost_reply()));
    assert!(query.cancel());
    assert_eq!(query.state(), StreamState::Terminated);
    assert!(!query.deliver(localhost_reply()));
    assert_eq!(query.poll(), Poll::Ended);
    assert_eq!(query.dispatched(0), Poll::Ended);
    assert_eq!(query.dispatched(-65537), Poll::Ended);
    assert!(!query.cancel());
    assert_eq!(query.state(), StreamState::Terminated);
}
