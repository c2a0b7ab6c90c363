//! The identity contract as the farmer service sees it, and the in-memory
//! stand-in used until the real chain is wired.
use vstd::prelude::*;

use crate::text::{chars_eq, chars_of, chars_of_string};

verus! {

/// A verification marker as the identity contract stores it.
pub struct FarmerVerificationMarker {
    pub kind: String,
    pub issuer: String,
    pub issued_ledger: i64,
}

/// A farmer identity as the identity contract stores it.
pub struct ChainFarmer {
    pub address: String,
    pub created_ledger: i64,
    pub updated_ledger: i64,
    pub verification_markers: Vec<FarmerVerificationMarker>,
}

/// Mathematical form of a [`FarmerVerificationMarker`].
pub struct MarkerRecord {
    pub kind: Seq<char>,
    pub issuer: Seq<char>,
    pub issued_ledger: i64,
}

/// Mathematical form of a [`ChainFarmer`].
pub struct ChainFarmerRecord {
    pub address: Seq<char>,
    pub created_ledger: i64,
    pub updated_ledger: i64,
    pub verification_markers: Seq<MarkerRecord>,
}

impl View for FarmerVerificationMarker {
    type V = MarkerRecord;

    open spec fn view(&self) -> MarkerRecord {
        MarkerRecord { kind: self.kind@, issuer: self.issuer@, issued_ledger: self.issued_ledger }
    }
}

/// The records of a vector of markers, in order.
pub open spec fn marker_records(v: Seq<FarmerVerificationMarker>) -> Seq<MarkerRecord> {
    Seq::new(v.len(), |i: int| v[i]@)
}

impl View for ChainFarmer {
    type V = ChainFarmerRecord;

    open spec fn view(&self) -> ChainFarmerRecord {
        ChainFarmerRecord {
            address: self.address@,
            created_ledger: self.created_ledger,
            updated_ledger: self.updated_ledger,
            verification_markers: marker_records(self.verification_markers@),
        }
    }
}

impl FarmerVerificationMarker {
    /// A copy of this marker.
    pub fn duplicate(&self) -> (r: FarmerVerificationMarker)
        ensures
            r@ == self@,
    {
        FarmerVerificationMarker {
            kind: self.kind.clone(),
            issuer: self.issuer.clone(),
            issued_ledger: self.issued_ledger,
        }
    }
}

impl ChainFarmer {
    /// A copy of this identity.
    pub fn duplicate(&self) -> (r: ChainFarmer)
        ensures
            r@ == self@,
    {
        let mut markers: Vec<FarmerVerificationMarker> = Vec::new();
        let mut i: usize = 0;
        while i < self.verification_markers.len()
            invariant
                i <= self.verification_markers.len(),
                markers@.len() == i,
                forall|k: int| 0 <= k < i ==> (#[trigger] markers@[k])@ == self.verification_markers@[k]@,
            decreases self.verification_markers.len() - i,
        {
            let d = self.verification_markers[i].duplicate();
            markers.push(d);
            i = i + 1;
        }
        assert(marker_records(markers@) =~= marker_records(self.verification_markers@));
        ChainFarmer {
            address: self.address.clone(),
            created_ledger: self.created_ledger,
            updated_ledger: self.updated_ledger,
            verification_markers: markers,
        }
    }
}

/// Errors of the identity contract.
pub enum ChainError {
    AlreadyRegistered,
    NotFound,
    Internal(String),
}

/// The identity contract: register farmers, update their metadata hash and
/// ask whether an address is registered.
pub trait IdentityChain {
    fn register_farmer(&mut self, address: &str, metadata_hash: &str) -> Result<
        ChainFarmer,
        ChainError,
    >;

    fn update_metadata(&mut self, address: &str, metadata_hash: &str) -> Result<
        ChainFarmer,
        ChainError,
    >;

    fn is_registered(&mut self, address: &str) -> Result<bool, ChainError>;
}

/// Ledger numbers handed out by the stub start here.
pub const STUB_BASE_LEDGER: i64 = 100_000;

/// The farmers of a stub chain, in registration order.
pub open spec fn records_of(v: Seq<ChainFarmer>) -> Seq<ChainFarmerRecord> {
    Seq::new(v.len(), |i: int| v[i]@)
}

/// No address is registered twice.
pub open spec fn unique_addresses(s: Seq<ChainFarmerRecord>) -> bool {
    forall|i: int, j: int|
        0 <= i < j < s.len() ==> (#[trigger] s[i]).address != (#[trigger] s[j]).address
}

/// Whether `address` is registered.
pub open spec fn is_registered_spec(s: Seq<ChainFarmerRecord>, address: Seq<char>) -> bool {
    exists|i: int| 0 <= i < s.len() && (#[trigger] s[i]).address == address
}

/// The index of the registered farmer with `address`.
pub open spec fn index_of(s: Seq<ChainFarmerRecord>, address: Seq<char>) -> int {
    choose|i: int| 0 <= i < s.len() && (#[trigger] s[i]).address == address
}

/// The ledger the stub stamps on a change made when `count` farmers are
/// registered.
pub open spec fn stub_ledger(count: nat) -> int {
    STUB_BASE_LEDGER + count
}

/// Whether the stub refuses a change because its ledger counter, for
/// `count` farmers, would leave the range it checks against
/// (`(i64::MAX - 100_000) as usize`).
pub open spec fn stub_counter_exhausted(count: nat) -> bool {
    count > ((i64::MAX - STUB_BASE_LEDGER) as usize)
}

/// What registering `address` on a stub chain holding `before` does: a taken
/// address fails with `AlreadyRegistered` and changes nothing; otherwise a
/// farmer stamped with `100_000 + before.len()` is appended and returned.
pub open spec fn register_outcome(
    before: Seq<ChainFarmerRecord>,
    after: Seq<ChainFarmerRecord>,
    address: Seq<char>,
    r: Result<ChainFarmer, ChainError>,
) -> bool {
    &&& is_registered_spec(before, address) ==> r is Err && r->Err_0 is AlreadyRegistered
        && after == before
    &&& !is_registered_spec(before, address) ==> r is Ok && after == before.push(r->Ok_0@)
        && r->Ok_0@ == (ChainFarmerRecord {
        address: address,
        created_ledger: stub_ledger(before.len()) as i64,
        updated_ledger: stub_ledger(before.len()) as i64,
        verification_markers: Seq::empty(),
    })
}

/// What updating the metadata of `address` on a stub chain holding `before`
/// does: an unknown address fails with `NotFound` and changes nothing;
/// otherwise its farmer is stamped with updated ledger
/// `100_000 + before.len()` and returned.
pub open spec fn update_outcome(
    before: Seq<ChainFarmerRecord>,
    after: Seq<ChainFarmerRecord>,
    address: Seq<char>,
    r: Result<ChainFarmer, ChainError>,
) -> bool {
    &&& !is_registered_spec(before, address) ==> r is Err && r->Err_0 is NotFound && after
        == before
    &&& is_registered_spec(before, address) ==> r is Ok && r->Ok_0@ == (ChainFarmerRecord {
        updated_ledger: stub_ledger(before.len()) as i64,
        ..before[index_of(before, address)]
    }) && after == before.update(index_of(before, address), r->Ok_0@)
}

/// Registering an address a second time is refused with `AlreadyRegistered`
/// (answered as a conflict) and leaves the chain as the first registration
/// left it.
pub proof fn lemma_second_registration_refused(
    before: Seq<ChainFarmerRecord>,
    mid: Seq<ChainFarmerRecord>,
    after: Seq<ChainFarmerRecord>,
    address: Seq<char>,
    first: Result<ChainFarmer, ChainError>,
    second: Result<ChainFarmer, ChainError>,
)
    requires
        register_outcome(before, mid, address, first),
        first is Ok,
        register_outcome(mid, after, address, second),
    ensures
        second is Err && second->Err_0 is AlreadyRegistered,
        after == mid,
{
    if !is_registered_spec(before, address) {
        assert(mid[before.len() as int].address == address);
    }
}

/// The refusal of a change once the ledger counter is exhausted.
pub open spec fn counter_overflow_error(r: Result<ChainFarmer, ChainError>) -> bool {
    r matches Err(ChainError::Internal(m)) && m@ == "ledger counter overflow"@
}

/// In-memory identity chain for development and tests. Registration stamps
/// the ledger `100_000 + number of farmers registered before`; an update
/// stamps `100_000 + number of farmers registered`.
pub struct StubChain {
    farmers: Vec<ChainFarmer>,
}

impl View for StubChain {
    type V = Seq<ChainFarmerRecord>;

    closed spec fn view(&self) -> Seq<ChainFarmerRecord> {
        records_of(self.farmers@)
    }
}

impl StubChain {
    #[verifier::type_invariant]
    spec fn well_formed(self) -> bool {
        unique_addresses(records_of(self.farmers@))
    }

    /// A chain with no farmer registered.
    pub fn new() -> (c: StubChain)
        ensures
            c@ == Seq::<ChainFarmerRecord>::empty(),
    {
        let c = StubChain { farmers: Vec::new() };
        assert(c@ =~= Seq::<ChainFarmerRecord>::empty());
        c
    }

    /// The index of `address` among the registered farmers.
    fn find(&self, address: &str) -> (r: Option<usize>)
        ensures
            r matches Some(i) ==> i < self@.len() && self@[i as int].address == address@,
            r is None ==> !is_registered_spec(self@, address@),
    {
        let want = chars_of(address);
        let mut i: usize = 0;
        while i < self.farmers.len()
            invariant
                i <= self.farmers.len(),
                want@ == address@,
                forall|k: int| 0 <= k < i ==> self@[k].address != address@,
            decreases self.farmers.len() - i,
        {
            let have = chars_of_string(&self.farmers[i].address);
            if chars_eq(&have, &want) {
                return Some(i);
            }
            i = i + 1;
        }
        None
    }

    /// Registers `address`: fails with `AlreadyRegistered` when it is taken,
    /// else appends a farmer whose created and updated ledgers are
    /// `100_000 + the number of farmers registered before`.
    pub fn register_farmer(&mut self, address: &str, metadata_hash: &str) -> (r: Result<
        ChainFarmer,
        ChainError,
    >)
        requires
            STUB_BASE_LEDGER + old(self)@.len() <= i64::MAX,
        ensures
            unique_addresses(final(self)@),
            is_registered_spec(old(self)@, address@) ==> r is Err && r->Err_0 is AlreadyRegistered
                && final(self)@ == old(self)@,
            !is_registered_spec(old(self)@, address@) ==> r is Ok && final(self)@ == old(
                self,
            )@.push(r->Ok_0@) && r->Ok_0@ == (ChainFarmerRecord {
                address: address@,
                created_ledger: stub_ledger(old(self)@.len()) as i64,
                updated_ledger: stub_ledger(old(self)@.len()) as i64,
                verification_markers: Seq::empty(),
            }),
    {
        proof {
            use_type_invariant(&*self);
        }
        if self.find(address).is_some() {
            return Err(ChainError::AlreadyRegistered);
        }
        let ledger = STUB_BASE_LEDGER + self.farmers.len() as i64;
        let farmer = ChainFarmer {
            address: address.to_string(),
            created_ledger: ledger,
            updated_ledger: ledger,
            verification_markers: Vec::new(),
        };
        assert(farmer@.verification_markers =~= Seq::<MarkerRecord>::empty());
        let out = farmer.duplicate();
        let ghost before = self@;
        let mut farmers: Vec<ChainFarmer> = Vec::new();
        std::mem::swap(&mut farmers, &mut self.farmers);
        farmers.push(farmer);
        assert(records_of(farmers@) =~= before.push(out@));
        assert(unique_addresses(records_of(farmers@))) by {
            assert forall|a: int, b: int|
                0 <= a < b < records_of(farmers@).len() implies (#[trigger] records_of(
                farmers@,
            )[a]).address != (#[trigger] records_of(farmers@)[b]).address by {
                if b == before.len() {
                    assert(records_of(farmers@)[a] == before[a]);
                } else {
                    assert(records_of(farmers@)[a] == before[a]);
                    assert(records_of(farmers@)[b] == before[b]);
                }
            }
        }
        self.farmers = farmers;
        Ok(out)
    }

    /// Stamps the farmer at `address` with updated ledger
    /// `100_000 + the number of farmers registered`; `NotFound` when the
    /// address is not registered.
    pub fn update_metadata(&mut self, address: &str, metadata_hash: &str) -> (r: Result<
        ChainFarmer,
        ChainError,
    >)
        requires
            STUB_BASE_LEDGER + old(self)@.len() <= i64::MAX,
        ensures
            unique_addresses(final(self)@),
            !is_registered_spec(old(self)@, address@) ==> r is Err && r->Err_0 is NotFound
                && final(self)@ == old(self)@,
            is_registered_spec(old(self)@, address@) ==> r is Ok && r->Ok_0@ == (ChainFarmerRecord {
                updated_ledger: stub_ledger(old(self)@.len()) as i64,
                ..old(self)@[index_of(old(self)@, address@)]
            }) && final(self)@ == old(self)@.update(index_of(old(self)@, address@), r->Ok_0@),
    {
        proof {
            use_type_invariant(&*self);
        }
        match self.find(address) {
            None => Err(ChainError::NotFound),
            Some(i) => {
                let ledger = STUB_BASE_LEDGER + self.farmers.len() as i64;
                let mut farmers: Vec<ChainFarmer> = Vec::new();
                std::mem::swap(&mut farmers, &mut self.farmers);
                let ghost before = records_of(farmers@);
                assert(before == old(self)@);
                let mut farmer = farmers.remove(i);
                assert(farmer@ == before[i as int]);
                farmer.updated_ledger = ledger;
                let out = farmer.duplicate();
                assert(out@ == (ChainFarmerRecord { updated_ledger: ledger, ..before[i as int] }));
                farmers.insert(i, farmer);
                assert(records_of(farmers@) =~= before.update(i as int, out@));
                assert(unique_addresses(records_of(farmers@))) by {
                    assert forall|a: int, b: int|
                        0 <= a < b < records_of(farmers@).len() implies (#[trigger] records_of(
                        farmers@,
                    )[a]).address != (#[trigger] records_of(farmers@)[b]).address by {
                        assert(records_of(farmers@)[a].address == before[a].address);
                        assert(records_of(farmers@)[b].address == before[b].address);
                    }
                }
                self.farmers = farmers;
                assert(before[i as int].address == address@);
                assert(ledger == stub_ledger(before.len()) as i64);
                assert(self@ == before.update(i as int, out@));
                assert(0 <= i < before.len() && before[i as int].address == address@ && out@ == (
                ChainFarmerRecord { updated_ledger: stub_ledger(before.len()) as i64, ..before[i as int] })
                    && self@ == before.update(i as int, out@));
                assert(index_of(old(self)@, address@) == i) by {
                    let k = index_of(old(self)@, address@);
                    assert(old(self)@[i as int].address == address@);
                    if k != i {
                        assert(unique_addresses(old(self)@));
                        if k < i {
                            assert(old(self)@[k].address != old(self)@[i as int].address);
                        } else {
                            assert(old(self)@[i as int].address != old(self)@[k].address);
                        }
                    }
                }
                Ok(out)
            },
        }
    }

    /// Whether `address` is registered.
    pub fn is_registered(&self, address: &str) -> (r: Result<bool, ChainError>)
        ensures
            r matches Ok(b) && b == is_registered_spec(self@, address@),
    {
        match self.find(address) {
            Some(_) => Ok(true),
            None => Ok(false),
        }
    }
}

impl IdentityChain for StubChain {
    /// Registration as [`StubChain::register_farmer`] does it; once the ledger
    /// counter would leave `i64`, `Internal` and no change.
    fn register_farmer(&mut self, address: &str, metadata_hash: &str) -> (r: Result<
        ChainFarmer,
        ChainError,
    >)
        ensures
            stub_counter_exhausted(old(self)@.len()) ==> counter_overflow_error(r) && final(self)@
                == old(self)@,
            !stub_counter_exhausted(old(self)@.len()) ==> register_outcome(
                old(self)@,
                final(self)@,
                address@,
                r,
            ),
    {
        if self.farmers.len() > (i64::MAX - STUB_BASE_LEDGER) as usize {
            return Err(ChainError::Internal("ledger counter overflow".to_string()));
        }
        StubChain::register_farmer(self, address, metadata_hash)
    }

    /// A metadata update as [`StubChain::update_metadata`] does it; once the
    /// ledger counter would leave `i64`, `Internal` and no change.
    fn update_metadata(&mut self, address: &str, metadata_hash: &str) -> (r: Result<
        ChainFarmer,
        ChainError,
    >)
        ensures
            stub_counter_exhausted(old(self)@.len()) ==> counter_overflow_error(r) && final(self)@
                == old(self)@,
            !stub_counter_exhausted(old(self)@.len()) ==> update_outcome(
                old(self)@,
                final(self)@,
                address@,
                r,
            ),
    {
        if self.farmers.len() > (i64::MAX - STUB_BASE_LEDGER) as usize {
            return Err(ChainError::Internal("ledger counter overflow".to_string()));
        }
        StubChain::update_metadata(self, address, metadata_hash)
    }

    /// Whether `address` is registered; the chain does not change.
    fn is_registered(&mut self, address: &str) -> (r: Result<bool, ChainError>)
        ensures
            r matches Ok(b) && b == is_registered_spec(old(self)@, address@),
            final(self)@ == old(self)@,
    {
        StubChain::is_registered(self, address)
    }
}

} // verus!
