//! The raw handle of one native operation, and the records registered on it.
//!
//! The native layer owns the resources; this module owns the decisions.  A
//! [`DNSService`] knows whether its native handle is still to be released
//! and in which state each record is that was registered on it.  Its methods
//! take what the native layer answered and say what is to be done next.
use vstd::prelude::*;
use crate::error::Error;
use crate::native::NO_ERROR;

verus! {

/// Where a registered record stands.
#[derive(Clone, Copy, PartialEq, Eq, Structural, Hash, Debug)]
pub enum RecordState {
    /// The record is alive and goes away with the value that stands for it.
    Owned,
    /// The record is alive and goes away with its owning handle only.
    Kept,
    /// The native resource of the record is gone.
    Released,
}

/// A raw handle as mathematical values.
pub struct ServiceView {
    /// The native handle has been released.
    pub released: bool,
    /// The state of every record registered on the handle, in the order of
    /// registration.
    pub records: Seq<RecordState>,
}

impl ServiceView {
    /// A handle that was just started: alive, without records.
    pub open spec fn started() -> ServiceView {
        ServiceView { released: false, records: Seq::empty() }
    }

    /// Releasing the handle leaves no record alive.
    pub open spec fn wf(self) -> bool {
        self.released ==> forall|i: int|
            0 <= i < self.records.len() ==> self.records[i] == RecordState::Released
    }

    /// The record with number `id` is alive.
    pub open spec fn alive(self, id: int) -> bool {
        0 <= id < self.records.len() && self.records[id] != RecordState::Released
    }

    /// The record with number `id` is alive and not kept.
    pub open spec fn owned(self, id: int) -> bool {
        0 <= id < self.records.len() && self.records[id] == RecordState::Owned
    }

    /// A record with data `rdata` can be registered on the handle: it is
    /// not released, and the length of the data fits the native length
    /// field.
    pub open spec fn can_add(self, rdata: Seq<u8>) -> bool {
        !self.released && rdata.len() <= u16::MAX
    }

    /// The handle after the native layer answered `code` to the registration
    /// of a record.
    pub open spec fn add_record(self, code: i32) -> ServiceView {
        if !self.released && code == NO_ERROR {
            ServiceView { records: self.records.push(RecordState::Owned), ..self }
        } else {
            self
        }
    }

    /// The handle after the record with number `id` was handed over to it.
    pub open spec fn keep_record(self, id: int) -> ServiceView {
        if self.owned(id) {
            ServiceView { records: self.records.update(id, RecordState::Kept), ..self }
        } else {
            self
        }
    }

    /// The handle after the value that stood for record `id` went away.
    pub open spec fn remove_record(self, id: int) -> ServiceView {
        if self.owned(id) {
            ServiceView { records: self.records.update(id, RecordState::Released), ..self }
        } else {
            self
        }
    }

    /// The handle after its release.
    pub open spec fn release(self) -> ServiceView {
        ServiceView {
            released: true,
            records: Seq::new(self.records.len(), |i: int| RecordState::Released),
        }
    }

    /// No step on a handle breaks its rule: once it is released, none of
    /// its records is alive.
    pub proof fn lemma_steps_keep_wf(self, code: i32, id: int)
        requires
            self.wf(),
        ensures
            ServiceView::started().wf(),
            self.add_record(code).wf(),
            self.keep_record(id).wf(),
            self.remove_record(id).wf(),
            self.release().wf(),
    {
    }

    /// A kept record stays alive and kept through every step but the
    /// release of its handle: neither the registration of another record, nor
    /// keeping or dropping any record, touches it.
    pub proof fn lemma_kept_until_release(self, kept: int, code: i32, id: int)
        requires
            0 <= kept < self.records.len(),
            self.records[kept] == RecordState::Kept,
        ensures
            self.add_record(code).records[kept] == RecordState::Kept,
            self.keep_record(id).records[kept] == RecordState::Kept,
            self.remove_record(id).records[kept] == RecordState::Kept,
    {
    }

    /// The release of a handle releases all its records, kept or not, and
    /// nothing brings one back: every later step leaves them released.
    pub proof fn lemma_release_frees_all(self, code: i32, id: int, i: int)
        requires
            0 <= i < self.records.len(),
        ensures
            self.release().released,
            self.release().records.len() == self.records.len(),
            self.release().records[i] == RecordState::Released,
            self.release().add_record(code) == self.release(),
            self.release().keep_record(id) == self.release(),
            self.release().remove_record(id) == self.release(),
            self.release().release() == self.release(),
    {
        assert(self.release().release().records =~= self.release().records);
    }
}

/// The raw handle of one native operation: a query, a registration or a
/// connection.
#[derive(Debug)]
pub struct DNSService {
    released: bool,
    records: Vec<RecordState>,
}

/// One record that was registered on a [`DNSService`].
#[derive(Debug)]
pub struct DNSRecord {
    id: usize,
    rr_type: u16,
}

/// The values of a native add-record call.
#[derive(Clone, Copy, PartialEq, Eq, Structural, Hash, Debug)]
pub struct AddRecord {
    /// The native flags of the call.
    pub flags: u32,
    /// The type of the new record.
    pub rr_type: u16,
    /// The class of the new record.
    pub rr_class: u16,
    /// The length of the record's data.
    pub rd_len: u16,
    /// The time to live of the record, in seconds.
    pub ttl: u32,
}

/// The values of a native update-record call.
#[derive(Clone, Copy, PartialEq, Eq, Structural, Hash, Debug)]
pub struct UpdateRecord {
    /// The number of the record on its handle.
    pub record: usize,
    /// The native flags of the call.
    pub flags: u32,
    /// The length of the new data.
    pub rd_len: u16,
    /// The new time to live, in seconds.
    pub ttl: u32,
}

impl View for DNSService {
    type V = ServiceView;

    closed spec fn view(&self) -> ServiceView {
        ServiceView { released: self.released, records: self.records@ }
    }
}

impl DNSService {
    #[verifier::type_invariant]
    spec fn inv(self) -> bool {
        self@.wf()
    }

    /// Reads the answer of the native layer to the start of an operation: a
    /// fresh handle on success, the rejection otherwise.
    pub fn start(code: i32) -> (r: Result<DNSService, Error>)
        ensures
            code == NO_ERROR ==> r is Ok && r->Ok_0@ == ServiceView::started(),
            code != NO_ERROR ==> r is Err && r->Err_0 == Error::NativeRejection(code),
    {
        match Error::from_call(code) {
            Err(e) => Err(e),
            Ok(()) => Ok(DNSService { released: false, records: Vec::new() }),
        }
    }

    /// A handle that is released already and never had a record.
    pub fn released() -> (r: DNSService)
        ensures
            r@ == ServiceView::started().release(),
    {
        let r = DNSService { released: true, records: Vec::new() };
        assert(r@.records =~= ServiceView::started().release().records);
        r
    }

    /// Whether the native handle has been released.
    pub fn is_released(&self) -> (r: bool)
        ensures
            r == self@.released,
    {
        self.released
    }

    /// The number of records that were registered on the handle.
    pub fn record_count(&self) -> (n: usize)
        ensures
            n == self@.records.len(),
    {
        self.records.len()
    }

    /// The state of the record with number `id`, if there is one.
    pub fn record_state(&self, id: usize) -> (r: Option<RecordState>)
        ensures
            id < self@.records.len() ==> r == Some(self@.records[id as int]),
            id >= self@.records.len() ==> r is None,
    {
        if id < self.records.len() {
            Some(self.records[id])
        } else {
            None
        }
    }

    /// Prepares the native call that registers a record on this handle.
    ///
    /// What cannot be handed to the native layer is refused as
    /// [`Error::InvalidInput`]; see [`ServiceView::can_add`].  What the
    /// native layer answers to the call is read by
    /// [`DNSService::add_record`].
    pub fn prepare_add_record(
        &self,
        flags: u32,
        rr_type: u16,
        rr_class: u16,
        rdata: &[u8],
        ttl: u32,
    ) -> (r: Result<AddRecord, Error>)
        ensures
            self@.can_add(rdata@) ==> r == Ok::<AddRecord, Error>(
                AddRecord { flags, rr_type, rr_class, rd_len: rdata@.len() as u16, ttl },
            ),
            !self@.can_add(rdata@) ==> r == Err::<AddRecord, Error>(Error::InvalidInput),
    {
        if self.released || rdata.len() > 0xffff {
            return Err(Error::InvalidInput);
        }
        Ok(AddRecord { flags, rr_type, rr_class, rd_len: rdata.len() as u16, ttl })
    }

    /// Reads the answer `code` of the native layer to the registration of a
    /// record of type `rr_type`.
    ///
    /// On a released handle nothing can be registered: that is refused as
    /// [`Error::InvalidInput`].  A native error code is handed on as a
    /// rejection.  Otherwise the record is entered as owned by the value
    /// that is returned.
    pub fn add_record(&mut self, rr_type: u16, code: i32) -> (r: Result<DNSRecord, Error>)
        ensures
            final(self)@ == old(self)@.add_record(code),
            old(self)@.released ==> r is Err && r->Err_0 == Error::InvalidInput,
            !old(self)@.released && code != NO_ERROR ==> r is Err && r->Err_0
                == Error::NativeRejection(code),
            !old(self)@.released && code == NO_ERROR ==> r is Ok && r->Ok_0.id()
                == old(self)@.records.len() && r->Ok_0.record_type() == rr_type,
    {
        if self.released {
            return Err(Error::InvalidInput);
        }
        match Error::from_call(code) {
            Err(e) => Err(e),
            Ok(()) => {
                let id: usize = self.records.len();
                let mut records: Vec<RecordState> = Vec::new();
                core::mem::swap(&mut self.records, &mut records);
                records.push(RecordState::Owned);
                self.records = records;
                Ok(DNSRecord { id, rr_type })
            },
        }
    }

    /// Hands `record` over to the handle: from now on it goes away with the
    /// handle and not before.  Nothing is to be done at the native layer.
    pub fn keep_record(&mut self, record: DNSRecord)
        ensures
            final(self)@ == old(self)@.keep_record(record.id() as int),
    {
        proof {
            use_type_invariant(&*self);
        }
        let id: usize = record.id;
        if id < self.records.len() {
            match self.records[id] {
                RecordState::Owned => {
                    self.replace(id, RecordState::Kept);
                },
                _ => {},
            }
        }
    }

    /// The value that stood for `record` goes away.  Returns whether the
    /// native resource of the record is to be released now: it is when the
    /// record was still owned by that value.  A record that was kept, or
    /// whose handle is released, is left alone.
    pub fn remove_record(&mut self, record: DNSRecord) -> (release_now: bool)
        ensures
            final(self)@ == old(self)@.remove_record(record.id() as int),
            release_now == old(self)@.owned(record.id() as int),
    {
        proof {
            use_type_invariant(&*self);
        }
        let id: usize = record.id;
        if id < self.records.len() {
            match self.records[id] {
                RecordState::Owned => {
                    self.replace(id, RecordState::Released);
                    return true;
                },
                _ => {},
            }
        }
        false
    }

    /// Releases the handle, and with it every record registered on it.
    /// Returns whether the native release is to be made now: it is the first
    /// time only.
    pub fn release(&mut self) -> (release_now: bool)
        ensures
            final(self)@ == old(self)@.release(),
            release_now == !old(self)@.released,
    {
        proof {
            use_type_invariant(&*self);
        }
        if self.released {
            assert(self@.records =~= self@.release().records);
            return false;
        }
        let n: usize = self.records.len();
        let mut released: Vec<RecordState> = Vec::new();
        let mut i: usize = 0;
        while i < n
            invariant
                i <= n,
                released@ == Seq::new(i as nat, |k: int| RecordState::Released),
            decreases n - i,
        {
            released.push(RecordState::Released);
            assert(released@ =~= Seq::new((i + 1) as nat, |k: int| RecordState::Released));
            i += 1;
        }
        self.records = released;
        self.released = true;
        true
    }

    /// Puts `state` in the place of record `id`.
    fn replace(&mut self, id: usize, state: RecordState)
        requires
            id < old(self)@.records.len(),
            !old(self)@.released,
        ensures
            final(self)@ == (ServiceView {
                records: old(self)@.records.update(id as int, state),
                ..old(self)@
            }),
    {
        let n: usize = self.records.len();
        let mut next: Vec<RecordState> = Vec::new();
        let mut i: usize = 0;
        while i < n
            invariant
                i <= n,
                n == self.records@.len(),
                id < n,
                next@ == self.records@.update(id as int, state).subrange(0, i as int),
            decreases n - i,
        {
            if i == id {
                next.push(state);
            } else {
                next.push(self.records[i]);
            }
            assert(next@ =~= self.records@.update(id as int, state).subrange(0, i + 1));
            i += 1;
        }
        assert(next@ =~= self.records@.update(id as int, state));
        self.records = next;
    }
}

impl DNSRecord {
    /// The number of the record on its handle.
    pub closed spec fn id(&self) -> usize {
        self.id
    }

    /// The type of the record.
    pub closed spec fn record_type(&self) -> u16 {
        self.rr_type
    }

    /// The number of the record on its handle.
    pub fn number(&self) -> (id: usize)
        ensures
            id == self.id(),
    {
        self.id
    }

    /// The type of the record.
    pub fn rr_type(&self) -> (t: u16)
        ensures
            t == self.record_type(),
    {
        self.rr_type
    }

    /// The update of this record can be handed to the native layer: the
    /// record is alive on `owner`, and the length of the data fits the
    /// native length field.
    pub open spec fn can_update(&self, owner: ServiceView, rdata: Seq<u8>) -> bool {
        owner.alive(self.id() as int) && rdata.len() <= u16::MAX
    }

    /// Prepares the native call that gives this record new data and a new
    /// time to live.  Type and class of a record cannot change.
    ///
    /// What cannot be handed to the native layer is refused as
    /// [`Error::InvalidInput`]; see [`DNSRecord::can_update`].  What the
    /// native layer answers to the call is read by [`Error::from_call`].
    pub fn update_record(&self, owner: &DNSService, flags: u32, rdata: &[u8], ttl: u32) -> (r:
        Result<UpdateRecord, Error>)
        ensures
            self.can_update(owner@, rdata@) ==> r == Ok::<UpdateRecord, Error>(
                UpdateRecord { record: self.id(), flags, rd_len: rdata@.len() as u16, ttl },
            ),
            !self.can_update(owner@, rdata@) ==> r == Err::<UpdateRecord, Error>(
                Error::InvalidInput,
            ),
    {
        let alive = match owner.record_state(self.id) {
            Some(RecordState::Owned) => true,
            Some(RecordState::Kept) => true,
            _ => false,
        };
        if !alive || rdata.len() > 0xffff {
            return Err(Error::InvalidInput);
        }
        Ok(UpdateRecord { record: self.id, flags, rd_len: rdata.len() as u16, ttl })
    }
}

} // verus!
