//! The sensor record and the state machine that guards it.
//!
//! A [`SensorRecord`] holds the last accepted reading; it is reachable only
//! through a [`SensorStateMachine`], which refuses every mutation whose proof
//! artifact fails verification.  The category label is a pure function of the
//! temperature and is recomputed on every accepted update, so no state is
//! observable where the two disagree.

use crate::zkproof::{proof_accepted, verify_zk_proof};
use vstd::prelude::*;
use vstd::utf8::encode_utf8;

verus! {

/// The storage fixed for the location label at creation time, in UTF-8
/// bytes: a label whose encoding is longer cannot be stored and must abort
/// the whole update.
pub const MAX_LOCATION_LEN: usize = 100;

/// The classification of a temperature, derived and never set directly.
#[derive(Clone, Copy, Debug, PartialEq, Eq, Structural)]
pub enum Category {
    Cold,
    Moderate,
    Hot,
}

/// The threshold function: half-open intervals, inclusive lower bound.
pub open spec fn category_of(temp: u64) -> Category {
    if temp < 65 {
        Category::Cold
    } else if temp < 80 {
        Category::Moderate
    } else {
        Category::Hot
    }
}

/// Classify a temperature.
pub fn derive_category(temp: u64) -> (category: Category)
    ensures
        category == category_of(temp),
{
    if temp < 65 {
        Category::Cold
    } else if temp < 80 {
        Category::Moderate
    } else {
        Category::Hot
    }
}

/// The label under which each category is persisted and reported.
pub open spec fn label_of(category: Category) -> Seq<char> {
    match category {
        Category::Cold => "cold"@,
        Category::Moderate => "moderate"@,
        Category::Hot => "hot"@,
    }
}

impl Category {
    /// The human-readable form of the label.
    pub fn label(&self) -> (label: String)
        ensures
            label@ == label_of(*self),
    {
        match self {
            Category::Cold => "cold".to_owned(),
            Category::Moderate => "moderate".to_owned(),
            Category::Hot => "hot".to_owned(),
        }
    }
}

/// Why an update was refused.  Every refusal leaves the record untouched.
#[derive(Clone, Copy, Debug, PartialEq, Eq, Structural)]
pub enum ErrorCode {
    /// The proof artifact failed verification.
    InvalidProof,
    /// The caller presented no valid signing authority.
    Unauthorized,
    /// The record was never created; `initialize` must run first.
    NotInitialized,
    /// The location label exceeds the storage fixed at creation.
    StorageOverflow,
}

/// The last accepted reading, with its derived label.
pub struct SensorRecord {
    /// Last accepted temperature reading.
    pub temp: u64,
    /// Last accepted location label.
    pub location: String,
    /// Unix timestamp of the last accepted mutation; zero at creation.
    pub last_update: i64,
    /// Classification of `temp`; recomputed on every accepted mutation.
    pub category: Category,
}

/// The mathematical image of a [`SensorRecord`].
#[verifier::ext_equal]
pub struct RecordView {
    pub temp: u64,
    pub location: Seq<char>,
    pub last_update: i64,
    pub category: Category,
}

impl View for SensorRecord {
    type V = RecordView;

    open spec fn view(&self) -> RecordView {
        RecordView {
            temp: self.temp,
            location: self.location@,
            last_update: self.last_update,
            category: self.category,
        }
    }
}

/// A record is well formed when its label agrees with its temperature and
/// its location's UTF-8 encoding fits the storage fixed at creation.
pub open spec fn record_wf(r: RecordView) -> bool {
    &&& r.category == category_of(r.temp)
    &&& encode_utf8(r.location).len() <= MAX_LOCATION_LEN
}

/// The field values a record carries right after creation, before the first
/// accepted update.
pub open spec fn initial_record() -> RecordView {
    RecordView {
        temp: 0,
        location: Seq::<char>::empty(),
        last_update: 0,
        category: category_of(0),
    }
}

/// What one update request does to the state.
///
/// `None` stands for a record that was never created.  The checks run in the
/// order the host presents them: existence, then authority, then the proof
/// gate, then the storage bound.  On success the whole record is replaced;
/// on any error nothing is.
pub open spec fn transition(
    state: Option<RecordView>,
    authority_signed: bool,
    temp: u64,
    location: Seq<char>,
    proof: Seq<u8>,
    now: i64,
) -> Result<RecordView, ErrorCode> {
    if state is None {
        Err(ErrorCode::NotInitialized)
    } else if !authority_signed {
        Err(ErrorCode::Unauthorized)
    } else if !proof_accepted(proof) {
        Err(ErrorCode::InvalidProof)
    } else if encode_utf8(location).len() > MAX_LOCATION_LEN {
        Err(ErrorCode::StorageOverflow)
    } else {
        Ok(RecordView { temp, location, last_update: now, category: category_of(temp) })
    }
}

/// The state after one update request: the new record if the request was
/// accepted, the old state untouched if it was refused.
pub open spec fn state_after(
    state: Option<RecordView>,
    authority_signed: bool,
    temp: u64,
    location: Seq<char>,
    proof: Seq<u8>,
    now: i64,
) -> Option<RecordView> {
    match transition(state, authority_signed, temp, location, proof, now) {
        Ok(r) => Some(r),
        Err(_) => state,
    }
}

/// Law: an accepted update stores exactly the given reading, and its label
/// is the one the threshold function assigns to the **new** temperature, so
/// no reachable record disagrees with its own temperature.
pub proof fn lemma_accepted_update_exact(
    state: Option<RecordView>,
    authority_signed: bool,
    temp: u64,
    location: Seq<char>,
    proof: Seq<u8>,
    now: i64,
)
    ensures
        transition(state, authority_signed, temp, location, proof, now) matches Ok(r) ==> {
            &&& r.temp == temp
            &&& r.location == location
            &&& r.last_update == now
            &&& r.category == category_of(temp)
            &&& record_wf(r)
        },
{
}

/// Law: a refused update leaves the state exactly as it was — no partial
/// mutation is ever observable after a failed call.
pub proof fn lemma_refused_update_preserves_state(
    state: Option<RecordView>,
    authority_signed: bool,
    temp: u64,
    location: Seq<char>,
    proof: Seq<u8>,
    now: i64,
)
    ensures
        transition(state, authority_signed, temp, location, proof, now) is Err
            ==> state_after(state, authority_signed, temp, location, proof, now) == state,
{
}

/// Law: an update whose proof fails verification never changes temperature,
/// location, timestamp or category — each retry with an invalid proof is
/// another instance of this statement, so no number of retries does either.
/// Once the record exists and the caller signed, the refusal is
/// `InvalidProof`.
pub proof fn lemma_invalid_proof_never_mutates(
    state: Option<RecordView>,
    authority_signed: bool,
    temp: u64,
    location: Seq<char>,
    proof: Seq<u8>,
    now: i64,
)
    requires
        !proof_accepted(proof),
    ensures
        state_after(state, authority_signed, temp, location, proof, now) == state,
        state is Some && authority_signed ==> transition(
            state,
            authority_signed,
            temp,
            location,
            proof,
            now,
        ) == Err::<RecordView, ErrorCode>(ErrorCode::InvalidProof),
{
}

/// One update request, as the state machine sees it.
pub struct UpdateRequest {
    pub authority_signed: bool,
    pub temp: u64,
    pub location: Seq<char>,
    pub proof: Seq<u8>,
    pub now: i64,
}

/// The state after a whole series of update requests, applied in order.
pub open spec fn state_after_requests(
    state: Option<RecordView>,
    requests: Seq<UpdateRequest>,
) -> Option<RecordView>
    decreases requests.len(),
{
    if requests.len() == 0 {
        state
    } else {
        state_after_requests(
            state_after(
                state,
                requests[0].authority_signed,
                requests[0].temp,
                requests[0].location,
                requests[0].proof,
                requests[0].now,
            ),
            requests.drop_first(),
        )
    }
}

/// Law: however many times an update is retried, as long as every attempt
/// carries an invalid proof the state never changes.
pub proof fn lemma_invalid_proof_retries_never_mutate(
    state: Option<RecordView>,
    requests: Seq<UpdateRequest>,
)
    requires
        forall|i: int| 0 <= i < requests.len() ==> !proof_accepted(#[trigger] requests[i].proof),
    ensures
        state_after_requests(state, requests) == state,
    decreases requests.len(),
{
    if requests.len() > 0 {
        let rest = requests.drop_first();
        assert forall|i: int| 0 <= i < rest.len() implies !proof_accepted(
            #[trigger] rest[i].proof,
        ) by {
            assert(rest[i] == requests[i + 1]);
        }
        lemma_invalid_proof_retries_never_mutate(state, rest);
    }
}

/// Law: across consecutive accepted updates the stored timestamp never
/// decreases.  Each accepted update stores the host clock's current reading,
/// and the host clock never runs backwards, which is the premise
/// `now1 <= now2`.
pub proof fn lemma_timestamp_monotonic(
    state: Option<RecordView>,
    signed1: bool,
    temp1: u64,
    location1: Seq<char>,
    proof1: Seq<u8>,
    now1: i64,
    signed2: bool,
    temp2: u64,
    location2: Seq<char>,
    proof2: Seq<u8>,
    now2: i64,
)
    requires
        now1 <= now2,
        transition(state, signed1, temp1, location1, proof1, now1) is Ok,
        transition(
            state_after(state, signed1, temp1, location1, proof1, now1),
            signed2,
            temp2,
            location2,
            proof2,
            now2,
        ) is Ok,
    ensures
        ({
            let mid = state_after(state, signed1, temp1, location1, proof1, now1);
            let end = state_after(mid, signed2, temp2, location2, proof2, now2);
            &&& mid matches Some(r1)
            &&& end matches Some(r2)
            &&& r1.last_update <= r2.last_update
        }),
{
}

/// Law: an update against a record that was never created fails with
/// `NotInitialized` and has no observable effect.
pub proof fn lemma_uninitialized_guard(
    state: Option<RecordView>,
    authority_signed: bool,
    temp: u64,
    location: Seq<char>,
    proof: Seq<u8>,
    now: i64,
)
    requires
        state is None,
    ensures
        transition(state, authority_signed, temp, location, proof, now) == Err::<
            RecordView,
            ErrorCode,
        >(ErrorCode::NotInitialized),
        state_after(state, authority_signed, temp, location, proof, now) == state,
{
}

/// The one owner of the sensor record.
///
/// `Uninitialized` (no record) until [`SensorStateMachine::initialize`] runs,
/// `Active` from then on.  Every mutation goes through
/// [`SensorStateMachine::update_metadata`], which is all-or-nothing: either
/// every field updates together, or none does.
pub struct SensorStateMachine {
    record: Option<SensorRecord>,
}

impl View for SensorStateMachine {
    type V = Option<RecordView>;

    closed spec fn view(&self) -> Option<RecordView> {
        match self.record {
            Some(r) => Some(r@),
            None => None,
        }
    }
}

impl SensorStateMachine {
    /// Whatever record the machine holds is well formed.
    pub open spec fn wf(self) -> bool {
        self@ matches Some(r) ==> record_wf(r)
    }

    /// A machine whose record was never created.
    pub fn new() -> (machine: SensorStateMachine)
        ensures
            machine@ is None,
            machine.wf(),
    {
        SensorStateMachine { record: None }
    }

    /// Adopt an existing well-formed record as the machine's state.
    pub fn from_record(record: SensorRecord) -> (machine: SensorStateMachine)
        requires
            record_wf(record@),
        ensures
            machine@ == Some(record@),
            machine.wf(),
    {
        SensorStateMachine { record: Some(record) }
    }

    /// Create the record with zero-valued fields.
    ///
    /// Creation happens once: a second attempt at the same address is
    /// rejected by the storage layer, so a record may not already exist.
    /// The first meaningful values come from the first accepted update.
    pub fn initialize(&mut self)
        requires
            old(self)@ is None,
        ensures
            final(self)@ == Some(initial_record()),
            final(self).wf(),
    {
        self.record = Some(
            SensorRecord {
                temp: 0,
                location: String::new(),
                last_update: 0,
                category: Category::Cold,
            },
        );
        proof {
            assert(self@ matches Some(r) && r =~= initial_record());
        }
    }

    /// Apply one update request.
    ///
    /// The proof artifact gates the mutation: on acceptance every field is
    /// replaced together — temperature and location as given, the timestamp
    /// from the host clock, the category derived from the **new**
    /// temperature.  On any refusal the record is untouched and the error
    /// says why, exactly as [`transition`] lays it out.
    pub fn update_metadata(
        &mut self,
        authority_signed: bool,
        temp: u64,
        location: String,
        proof: &[u8],
        now: i64,
    ) -> (result: Result<(), ErrorCode>)
        requires
            old(self).wf(),
        ensures
            final(self).wf(),
            final(self)@ == state_after(old(self)@, authority_signed, temp, location@, proof@, now),
            match transition(old(self)@, authority_signed, temp, location@, proof@, now) {
                Ok(r) => result == Ok::<(), ErrorCode>(()) && final(self)@ == Some(r),
                Err(e) => result == Err::<(), ErrorCode>(e) && final(self)@ == old(self)@,
            },
    {
        if self.record.is_none() {
            return Err(ErrorCode::NotInitialized);
        }
        if !authority_signed {
            return Err(ErrorCode::Unauthorized);
        }
        if !verify_zk_proof(proof) {
            return Err(ErrorCode::InvalidProof);
        }
        if location.as_str().as_bytes().len() > MAX_LOCATION_LEN {
            return Err(ErrorCode::StorageOverflow);
        }
        let category = derive_category(temp);
        match &mut self.record {
            Some(record) => {
                record.temp = temp;
                record.location = location;
                record.last_update = now;
                record.category = category;
            },
            None => {},
        }
        Ok(())
    }

    /// The record the machine holds, if it was created.
    pub fn record(&self) -> (record: Option<&SensorRecord>)
        ensures
            match record {
                Some(r) => self@ == Some(r@),
                None => self@ is None,
            },
    {
        self.record.as_ref()
    }

    /// Whether the record was created.
    pub fn is_initialized(&self) -> (initialized: bool)
        ensures
            initialized == (self@ is Some),
    {
        self.record.is_some()
    }
}

} // verus!
