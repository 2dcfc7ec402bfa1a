use vstd::prelude::*;
use crate::account::{byte_len, Identity, UserData, MAX_HASH_LENGTH};
use crate::error::AuthenticationError;

verus! {

/// One entry of the registry.
struct Record {
    identity: Identity,
    data: UserData,
}

/// The credential registry: for each identity that has signed up, the
/// commitment it signed up with.
///
/// A record is created once and never changed: there is no operation that
/// updates or removes one.
pub struct Registry {
    records: Vec<Record>,
}

/// The records of `entries` as a map from identity to commitment. Where an
/// identity occurs twice, the later entry wins; in a registry none does.
spec fn records_map(entries: Seq<Record>) -> Map<Seq<u8>, Seq<char>>
    decreases entries.len(),
{
    if entries.len() == 0 {
        Map::empty()
    } else {
        records_map(entries.drop_last()).insert(
            entries.last().identity@,
            entries.last().data.hash@,
        )
    }
}

/// The map of `entries` has exactly the identities of `entries` as keys.
proof fn lemma_records_map_keys(entries: Seq<Record>, identity: Seq<u8>)
    ensures
        records_map(entries).contains_key(identity) <==> exists|i: int|
            0 <= i < entries.len() && (#[trigger] entries[i]).identity@ == identity,
    decreases entries.len(),
{
    if entries.len() > 0 {
        let front = entries.drop_last();
        lemma_records_map_keys(front, identity);
        if records_map(entries).contains_key(identity) {
            if entries.last().identity@ == identity {
                assert(entries[entries.len() - 1].identity@ == identity);
            } else {
                let i = choose|i: int|
                    0 <= i < front.len() && (#[trigger] front[i]).identity@ == identity;
                assert(entries[i].identity@ == identity);
            }
        }
        if exists|i: int| 0 <= i < entries.len() && (#[trigger] entries[i]).identity@ == identity {
            let i = choose|i: int|
                0 <= i < entries.len() && (#[trigger] entries[i]).identity@ == identity;
            if i < front.len() {
                assert(front[i].identity@ == identity);
            }
        }
    }
}

/// Where no identity occurs twice, the map of `entries` gives each identity
/// the commitment of its entry.
proof fn lemma_records_map_value(entries: Seq<Record>, i: int)
    requires
        0 <= i < entries.len(),
        forall|a: int, b: int|
            0 <= a < b < entries.len() ==> (#[trigger] entries[a]).identity@ != (
            #[trigger] entries[b]).identity@,
    ensures
        records_map(entries).contains_key(entries[i].identity@),
        records_map(entries)[entries[i].identity@] == entries[i].data.hash@,
    decreases entries.len(),
{
    let front = entries.drop_last();
    if i < front.len() {
        assert(entries[i].identity@ != entries[entries.len() - 1].identity@);
        assert(front[i] == entries[i]);
        lemma_records_map_value(front, i);
    }
}

/// What a registration makes of the records: the records with the new one,
/// or the reason why none is created. The size bound is tested first.
pub open spec fn registration(
    records: Map<Seq<u8>, Seq<char>>,
    identity: Seq<u8>,
    commitment: Seq<char>,
) -> Result<Map<Seq<u8>, Seq<char>>, AuthenticationError> {
    if byte_len(commitment) > MAX_HASH_LENGTH {
        Err(AuthenticationError::HashTooLong)
    } else if records.contains_key(identity) {
        Err(AuthenticationError::AlreadyRegistered)
    } else {
        Ok(records.insert(identity, commitment))
    }
}

impl Registry {
    /// The invariant of a registry: no identity has two records, and every
    /// commitment respects the size bound.
    pub closed spec fn well_formed(&self) -> bool {
        &&& forall|a: int, b: int|
            0 <= a < b < self.records@.len() ==> (#[trigger] self.records@[a]).identity@ != (
            #[trigger] self.records@[b]).identity@
        &&& forall|i: int|
            0 <= i < self.records@.len() ==> (#[trigger] self.records@[i]).data.well_formed()
    }

    /// The records, as a map from identity to commitment.
    pub closed spec fn view(&self) -> Map<Seq<u8>, Seq<char>> {
        records_map(self.records@)
    }

    /// A registry without records.
    pub fn new() -> (registry: Registry)
        ensures
            registry.well_formed(),
            registry@ == Map::<Seq<u8>, Seq<char>>::empty(),
    {
        Registry { records: Vec::new() }
    }

    /// Index of the record of `identity`, if it has one.
    fn position(&self, identity: &Identity) -> (found: Option<usize>)
        ensures
            match found {
                Some(i) => i < self.records@.len() && self.records@[i as int].identity@
                    == identity@,
                None => forall|i: int|
                    0 <= i < self.records@.len() ==> (#[trigger] self.records@[i]).identity@
                        != identity@,
            },
    {
        let mut i: usize = 0;
        while i < self.records.len()
            invariant
                i <= self.records@.len(),
                forall|j: int|
                    0 <= j < i ==> (#[trigger] self.records@[j]).identity@ != identity@,
            decreases self.records@.len() - i,
        {
            if self.records[i].identity.same_as(identity) {
                return Some(i);
            }
            i = i + 1;
        }
        None
    }

    /// Reads the record of `identity`.
    pub fn get(&self, identity: &Identity) -> (found: Option<&UserData>)
        requires
            self.well_formed(),
        ensures
            found is Some <==> self@.contains_key(identity@),
            found matches Some(data) ==> data.hash@ == self@[identity@] && data.well_formed(),
    {
        proof {
            lemma_records_map_keys(self.records@, identity@);
        }
        match self.position(identity) {
            Some(i) => {
                proof {
                    lemma_records_map_value(self.records@, i as int);
                }
                Some(&self.records[i].data)
            },
            None => None,
        }
    }

    /// Creates the record of `identity` with `commitment`.
    ///
    /// A commitment of more than `MAX_HASH_LENGTH` bytes is refused with
    /// `HashTooLong`, and an identity that has a record already with
    /// `AlreadyRegistered`. A refused registration leaves the registry as it
    /// was.
    pub fn register(&mut self, identity: Identity, commitment: String) -> (r: Result<
        (),
        AuthenticationError,
    >)
        requires
            old(self).well_formed(),
        ensures
            final(self).well_formed(),
            match registration(old(self)@, identity@, commitment@) {
                Ok(records) => r is Ok && final(self)@ == records,
                Err(e) => r == Err::<(), _>(e) && final(self)@ == old(self)@,
            },
    {
        let data = match UserData::new(commitment) {
            Ok(data) => data,
            Err(e) => {
                return Err(e);
            },
        };
        proof {
            lemma_records_map_keys(self.records@, identity@);
        }
        if self.position(&identity).is_some() {
            return Err(AuthenticationError::AlreadyRegistered);
        }
        let ghost before = self.records@;
        self.records.push(Record { identity, data });
        assert(self.records@.drop_last() =~= before);
        Ok(())
    }
}

/// A commitment within the size bound, registered for an identity without a
/// record, is stored as it is: the registration succeeds, a read of that
/// identity then gives exactly this commitment, and every other identity
/// reads as before.
pub proof fn lemma_registered_commitment_is_read_back(
    records: Map<Seq<u8>, Seq<char>>,
    identity: Seq<u8>,
    commitment: Seq<char>,
)
    requires
        byte_len(commitment) <= MAX_HASH_LENGTH,
        !records.contains_key(identity),
    ensures
        registration(records, identity, commitment) is Ok,
        registration(records, identity, commitment)->Ok_0.contains_key(identity),
        registration(records, identity, commitment)->Ok_0[identity] == commitment,
        forall|other: Seq<u8>|
            other != identity ==> {
                &&& registration(records, identity, commitment)->Ok_0.contains_key(other)
                    == records.contains_key(other)
                &&& registration(records, identity, commitment)->Ok_0[other] == records[other]
            },
{
}

/// A commitment beyond the size bound is refused with `HashTooLong`,
/// whatever the identity and whatever the registry holds.
pub proof fn lemma_long_commitment_is_refused(
    records: Map<Seq<u8>, Seq<char>>,
    identity: Seq<u8>,
    commitment: Seq<char>,
)
    requires
        byte_len(commitment) > MAX_HASH_LENGTH,
    ensures
        registration(records, identity, commitment) == Err::<Map<Seq<u8>, Seq<char>>, _>(
            AuthenticationError::HashTooLong,
        ),
{
}

/// An identity that has a record cannot be registered again: the attempt is
/// refused, so its commitment is never overwritten.
pub proof fn lemma_registration_never_overwrites(
    records: Map<Seq<u8>, Seq<char>>,
    identity: Seq<u8>,
    commitment: Seq<char>,
)
    requires
        records.contains_key(identity),
    ensures
        registration(records, identity, commitment) is Err,
{
}

} // verus!
