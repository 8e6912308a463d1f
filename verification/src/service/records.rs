//! Records that were registered on a handle.
use vstd::prelude::*;
use crate::error::Error;
use crate::raw::{DNSRecord, DNSService, UpdateRecord};

verus! {

/// A successful record registration.
///
/// The record lives on the handle it was registered on.  It goes away when
/// this value is released, unless it was kept before: then it goes away with
/// the handle and not before.  The release of the handle takes every record
/// with it, kept or not.
#[derive(Debug)]
pub struct Record(DNSRecord);

impl Record {
    /// The raw record that this value stands for.
    pub closed spec fn raw(&self) -> DNSRecord {
        self.0
    }

    /// The number of the record on the handle it was registered on.
    pub fn number(&self) -> (id: usize)
        ensures
            id == self.raw().id(),
    {
        self.0.number()
    }

    /// Type of the record.
    pub fn rr_type(&self) -> (t: u16)
        ensures
            t == self.raw().record_type(),
    {
        self.0.rr_type()
    }

    /// Prepares the update of the record: new data and a new time to live,
    /// with no flags.  Type and class of a record cannot change; the native
    /// layer holds to that, and its answer is read by [`Error::from_call`].
    ///
    /// `owner` is the handle on which the record was registered.  An update
    /// that cannot be handed to the native layer is refused as
    /// [`Error::InvalidInput`]: the record is not alive on `owner`, or the
    /// data is longer than the native length field can say.
    pub fn update_raw_record(&self, owner: &DNSService, rdata: &[u8], ttl: u32) -> (r: Result<
        UpdateRecord,
        Error,
    >)
        ensures
            self.raw().can_update(owner@, rdata@) ==> r == Ok::<UpdateRecord, Error>(
                UpdateRecord {
                    record: self.raw().id(),
                    flags: 0,
                    rd_len: rdata@.len() as u16,
                    ttl,
                },
            ),
            !self.raw().can_update(owner@, rdata@) ==> r == Err::<UpdateRecord, Error>(
                Error::InvalidInput,
            ),
    {
        self.0.update_record(owner, 0, rdata, ttl)
    }

    /// Keeps the record alive for as long as `owner`, the handle on which it
    /// was registered, lives.
    pub fn keep(self, owner: &mut DNSService)
        ensures
            final(owner)@ == old(owner)@.keep_record(self.raw().id() as int),
    {
        owner.keep_record(self.0)
    }

    /// Gives the record up.  Returns whether its native resource is to be
    /// released now: it is when `owner`, the handle on which it was
    /// registered, has not been released before.
    pub fn release(self, owner: &mut DNSService) -> (release_now: bool)
        ensures
            final(owner)@ == old(owner)@.remove_record(self.raw().id() as int),
            release_now == old(owner)@.owned(self.raw().id() as int),
    {
        owner.remove_record(self.0)
    }
}

/// The registration that a raw record stands for.
pub fn new_record(r: DNSRecord) -> (record: Record)
    ensures
        record.raw() == r,
{
    Record(r)
}

} // verus!
