//! Querying for an arbitrary DNS record.
use vstd::prelude::*;
use futures::sync::mpsc::UnboundedSender;
use crate::channel::{forward, Refused};
use crate::cstr::{from_c_bytes, name_text, no_zero_byte, to_c_bytes, well_formed_name};
use crate::error::Error;
use crate::interface::Interface;
use crate::native::NO_ERROR;
use crate::raw::DNSService;
use crate::service::query_flags::{
    QueriedRecordFlag,
    QueriedRecordFlags,
    QueryRecordFlags,
};
use crate::stream::{Poll, ServiceStream, StreamState, StreamView};
use vstd::string::StringSliceAdditionalSpecFns;

verus! {

/// One result of a record query.
#[derive(Clone, PartialEq, Eq, Hash, Debug)]
pub struct QueryRecordResult {
    /// The flags that came with the result.
    pub flags: QueriedRecordFlags,
    /// The interface on which the record was found.
    pub interface: Interface,
    /// The full domain name of the record.
    pub fullname: String,
    /// The type of the record, as the native layer gave it.
    pub rr_type: u16,
    /// The class of the record, as the native layer gave it.
    pub rr_class: u16,
    /// The data of the record.  It may hold zero bytes.
    pub rdata: Vec<u8>,
    /// How long the record stays valid, in seconds.
    pub ttl: u32,
}

/// A [`QueryRecordResult`] as mathematical values.
pub struct QueryRecordResultView {
    pub flags: Set<QueriedRecordFlag>,
    pub interface: Interface,
    pub fullname: Seq<char>,
    pub rr_type: u16,
    pub rr_class: u16,
    pub rdata: Seq<u8>,
    pub ttl: u32,
}

impl View for QueryRecordResult {
    type V = QueryRecordResultView;

    open spec fn view(&self) -> QueryRecordResultView {
        QueryRecordResultView {
            flags: self.flags@,
            interface: self.interface,
            fullname: self.fullname@,
            rr_type: self.rr_type,
            rr_class: self.rr_class,
            rdata: self.rdata@,
            ttl: self.ttl,
        }
    }
}

/// The name of a reply can be read: the native layer gave a buffer, and the
/// buffer is a well-formed name.
pub open spec fn reply_name_readable(fullname: Option<&[u8]>) -> bool {
    fullname matches Some(bytes) && well_formed_name(bytes@)
}

/// The data buffer of a reply fits the length that came with it.  A length
/// of zero fits any buffer, and no buffer at all.
pub open spec fn reply_data_consistent(rd_len: u16, rdata: Option<&[u8]>) -> bool {
    rd_len == 0 || (rdata matches Some(bytes) && bytes@.len() == rd_len)
}

/// The data of a reply whose buffer fits its length.
pub open spec fn reply_data(rd_len: u16, rdata: Option<&[u8]>) -> Seq<u8> {
    if rd_len == 0 {
        Seq::empty()
    } else {
        rdata->Some_0@
    }
}

/// What one reply of the native layer means.
///
/// A reply with an error code is that error, whatever else it holds.  A
/// successful reply whose name cannot be read, or whose data buffer does not
/// fit its length, is a decoding error.  Every other reply is a result made
/// of the reply's own values.
pub open spec fn decoded_reply(
    flags: u32,
    interface_index: u32,
    error_code: i32,
    fullname: Option<&[u8]>,
    rr_type: u16,
    rr_class: u16,
    rd_len: u16,
    rdata: Option<&[u8]>,
    ttl: u32,
) -> Result<QueryRecordResultView, Error> {
    if error_code != NO_ERROR {
        Err(Error::ReplyError(error_code))
    } else if !reply_name_readable(fullname) || !reply_data_consistent(rd_len, rdata) {
        Err(Error::DecodingError)
    } else {
        Ok(
            QueryRecordResultView {
                flags: QueriedRecordFlags::decoded(flags),
                interface: Interface::of_raw(interface_index),
                fullname: name_text(fullname->Some_0@),
                rr_type,
                rr_class,
                rdata: reply_data(rd_len, rdata),
                ttl,
            },
        )
    }
}

/// `reply` is what the decoding of a native reply has to give when the
/// reply means `meaning`.
pub open spec fn reply_matches(
    reply: Result<QueryRecordResult, Error>,
    meaning: Result<QueryRecordResultView, Error>,
) -> bool {
    match meaning {
        Ok(view) => reply is Ok && reply->Ok_0@ == view,
        Err(e) => reply is Err && reply->Err_0 == e,
    }
}

/// A reply that carries an error code means that error, whatever else it
/// holds: it is never a result, and never another error.
pub proof fn lemma_error_code_is_reply_error(
    flags: u32,
    interface_index: u32,
    error_code: i32,
    fullname: Option<&[u8]>,
    rr_type: u16,
    rr_class: u16,
    rd_len: u16,
    rdata: Option<&[u8]>,
    ttl: u32,
)
    requires
        error_code != NO_ERROR,
    ensures
        decoded_reply(
            flags,
            interface_index,
            error_code,
            fullname,
            rr_type,
            rr_class,
            rd_len,
            rdata,
            ttl,
        ) == Err::<QueryRecordResultView, Error>(Error::ReplyError(error_code)),
{
}

/// A length of zero gives empty data and fits every buffer, also none at
/// all: what the buffer is has no part in it.
pub proof fn lemma_zero_length_data_is_empty(rdata: Option<&[u8]>)
    ensures
        reply_data_consistent(0, rdata),
        reply_data(0, rdata) == Seq::<u8>::empty(),
{
}

/// A successful reply with a readable name and a fitting data buffer is a
/// result, made of the values of the reply.
pub proof fn lemma_successful_reply_is_a_result(
    flags: u32,
    interface_index: u32,
    fullname: Option<&[u8]>,
    rr_type: u16,
    rr_class: u16,
    rd_len: u16,
    rdata: Option<&[u8]>,
    ttl: u32,
)
    requires
        reply_name_readable(fullname),
        reply_data_consistent(rd_len, rdata),
    ensures
        decoded_reply(
            flags,
            interface_index,
            NO_ERROR,
            fullname,
            rr_type,
            rr_class,
            rd_len,
            rdata,
            ttl,
        ) matches Ok(result) && result.rr_type == rr_type && result.rr_class == rr_class
            && result.ttl == ttl && result.rdata == reply_data(rd_len, rdata)
            && result.fullname == name_text(fullname->Some_0@),
{
}

/// Copies the data of a reply.  With a length of zero the buffer is not
/// looked at.
fn copy_reply_data(rd_len: u16, rdata: Option<&[u8]>) -> (r: Result<Vec<u8>, Error>)
    ensures
        reply_data_consistent(rd_len, rdata) ==> r is Ok && r->Ok_0@ == reply_data(rd_len, rdata),
        !reply_data_consistent(rd_len, rdata) ==> r == Err::<Vec<u8>, Error>(Error::DecodingError),
{
    if rd_len == 0 {
        return Ok(Vec::new());
    }
    match rdata {
        None => Err(Error::DecodingError),
        Some(bytes) => {
            if bytes.len() != rd_len as usize {
                return Err(Error::DecodingError);
            }
            let mut out: Vec<u8> = Vec::new();
            let mut i: usize = 0;
            while i < bytes.len()
                invariant
                    i <= bytes.len(),
                    out@ == bytes@.subrange(0, i as int),
                decreases bytes.len() - i,
            {
                out.push(bytes[i]);
                assert(out@ =~= bytes@.subrange(0, i + 1));
                i += 1;
            }
            assert(bytes@.subrange(0, i as int) =~= bytes@);
            Ok(out)
        },
    }
}

/// Decodes one reply of the native layer into a typed result or a typed
/// error.
///
/// `fullname` is the name buffer up to and including its closing zero byte,
/// `rdata` the data buffer; each is `None` where the native layer gave no
/// buffer.
pub fn decode_reply(
    flags: u32,
    interface_index: u32,
    error_code: i32,
    fullname: Option<&[u8]>,
    rr_type: u16,
    rr_class: u16,
    rd_len: u16,
    rdata: Option<&[u8]>,
    ttl: u32,
) -> (reply: Result<QueryRecordResult, Error>)
    ensures
        reply_matches(
            reply,
            decoded_reply(
                flags,
                interface_index,
                error_code,
                fullname,
                rr_type,
                rr_class,
                rd_len,
                rdata,
                ttl,
            ),
        ),
{
    match Error::from_reply(error_code) {
        Err(e) => { return Err(e); },
        Ok(()) => {},
    }
    let name = match fullname {
        None => { return Err(Error::DecodingError); },
        Some(bytes) => match from_c_bytes(bytes) {
            Err(e) => { return Err(e); },
            Ok(name) => name,
        },
    };
    let data = match copy_reply_data(rd_len, rdata) {
        Err(e) => { return Err(e); },
        Ok(data) => data,
    };
    Ok(
        QueryRecordResult {
            flags: QueriedRecordFlags::from_native(flags),
            interface: Interface::from_raw(interface_index),
            fullname: name,
            rr_type,
            rr_class,
            rdata: data,
            ttl,
        },
    )
}

/// The reply handler of a record query: decodes one reply of the native
/// layer and offers the outcome, result or error, to the channel.
///
/// What is offered is what [`decode_reply`] gives for the same values.  A
/// consumer that is gone makes this a no-op that reports
/// [`Error::ChannelClosed`] and hands the decoded reply back; the caller at
/// the native boundary drops that report.
pub fn query_record_callback(
    sender: &UnboundedSender<Result<QueryRecordResult, Error>>,
    flags: u32,
    interface_index: u32,
    error_code: i32,
    fullname: Option<&[u8]>,
    rr_type: u16,
    rr_class: u16,
    rd_len: u16,
    rdata: Option<&[u8]>,
    ttl: u32,
) -> (r: Result<(), Refused<Result<QueryRecordResult, Error>>>)
    ensures
        r matches Err(refused) ==> refused.error == Error::ChannelClosed && reply_matches(
            refused.item,
            decoded_reply(
                flags,
                interface_index,
                error_code,
                fullname,
                rr_type,
                rr_class,
                rd_len,
                rdata,
                ttl,
            ),
        ),
{
    let reply = decode_reply(
        flags,
        interface_index,
        error_code,
        fullname,
        rr_type,
        rr_class,
        rd_len,
        rdata,
        ttl,
    );
    forward(sender, reply)
}

/// The values of a native query-record call.
#[derive(Clone, PartialEq, Eq, Hash, Debug)]
pub struct QueryRecordRequest {
    /// The flags of the query, as a native flag word.
    pub flags: u32,
    /// The native index of the interface to query on.
    pub interface_index: u32,
    /// The name to query for, closed by a zero byte.
    pub fullname: Vec<u8>,
    /// The type of the records to query for.
    pub rr_type: u16,
    /// The class of the records to query for.
    pub rr_class: u16,
}

/// A [`QueryRecordRequest`] as mathematical values.
pub struct QueryRecordRequestView {
    pub flags: u32,
    pub interface_index: u32,
    pub fullname: Seq<u8>,
    pub rr_type: u16,
    pub rr_class: u16,
}

impl View for QueryRecordRequest {
    type V = QueryRecordRequestView;

    open spec fn view(&self) -> QueryRecordRequestView {
        QueryRecordRequestView {
            flags: self.flags,
            interface_index: self.interface_index,
            fullname: self.fullname@,
            rr_type: self.rr_type,
            rr_class: self.rr_class,
        }
    }
}

/// Pending query.
pub struct QueryRecord(ServiceStream<QueryRecordResult>);

impl View for QueryRecord {
    type V = StreamView<QueryRecordResult>;

    closed spec fn view(&self) -> StreamView<QueryRecordResult> {
        self.0@
    }
}

impl QueryRecord {
    /// The state of the query's stream.
    pub fn state(&self) -> (s: StreamState)
        ensures
            s == self@.state(),
    {
        self.0.state()
    }

    /// Delivers one decoded reply to the query.  Returns whether the query
    /// took it: a query at its end takes nothing.
    pub fn deliver(&mut self, reply: Result<QueryRecordResult, Error>) -> (taken: bool)
        ensures
            final(self)@ == old(self)@.deliver(reply),
            taken == !old(self)@.terminated,
    {
        self.0.deliver(reply)
    }

    /// Takes the next result off the query; see [`ServiceStream::poll`].
    pub fn poll(&mut self) -> (item: Poll<QueryRecordResult>)
        ensures
            item == old(self)@.polled(),
            final(self)@ == old(self)@.after_poll(),
    {
        self.0.poll()
    }

    /// Reports that the native dispatch routine ran and returned `code`, and
    /// takes the next result off the query; see
    /// [`ServiceStream::dispatched`].
    pub fn dispatched(&mut self, code: i32) -> (item: Poll<QueryRecordResult>)
        ensures
            item == old(self)@.dispatched(code),
            final(self)@ == old(self)@.after_dispatch(code),
    {
        self.0.dispatched(code)
    }

    /// Cancels the query.  Returns whether the native handle is to be
    /// released now: it is the first time only.
    pub fn cancel(&mut self) -> (release_now: bool)
        ensures
            final(self)@ == old(self)@.cancel(),
            release_now == !old(self)@.released,
    {
        self.0.cancel()
    }
}

impl QueryRecordRequest {
    /// Reads the answer `code` of the native layer to the start of this
    /// query: the pending query on success, the rejection otherwise.
    pub fn started(&self, code: i32) -> (r: Result<QueryRecord, Error>)
        ensures
            code == NO_ERROR ==> r is Ok && r->Ok_0@ == StreamView::<QueryRecordResult>::started(),
            code != NO_ERROR ==> r is Err && r->Err_0 == Error::NativeRejection(code),
    {
        match DNSService::start(code) {
            Err(e) => Err(e),
            Ok(service) => Ok(QueryRecord(ServiceStream::new(service))),
        }
    }
}

/// Query for an arbitrary DNS record.
///
/// Writes the query down for the native layer.  A name that holds a zero
/// byte cannot be written down and is refused as [`Error::InvalidInput`].
/// Once the native layer has answered the call,
/// [`QueryRecordRequest::started`] gives the pending query.
pub fn query_record(
    flags: QueryRecordFlags,
    interface: Interface,
    fullname: &str,
    rr_type: u16,
    rr_class: u16,
) -> (r: Result<QueryRecordRequest, Error>)
    ensures
        no_zero_byte(fullname.spec_bytes()) ==> r is Ok && r->Ok_0@ == (QueryRecordRequestView {
            flags: QueryRecordFlags::encoded(flags@),
            interface_index: interface.raw(),
            fullname: fullname.spec_bytes().push(0),
            rr_type,
            rr_class,
        }),
        !no_zero_byte(fullname.spec_bytes()) ==> r is Err && r->Err_0 == Error::InvalidInput,
{
    let name = match to_c_bytes(fullname) {
        Err(e) => { return Err(e); },
        Ok(name) => name,
    };
    Ok(
        QueryRecordRequest {
            flags: flags.to_native(),
            interface_index: interface.into_raw(),
            fullname: name,
            rr_type,
            rr_class,
        },
    )
}

} // verus!
