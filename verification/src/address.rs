//! Addresses of persisted records and their deterministic derivation.
//!
//! An address is 32 bytes. It either belongs to an outside identity (a
//! signer's public key) or is derived by the program from a domain tag and
//! seed values, together with a one-byte discriminator (the "bump") chosen so
//! that the result cannot be the public key of any identity.

use anchor_lang::prelude::Pubkey;
use vstd::bytes::spec_u64_to_le_bytes;
use vstd::bytes::u64_to_le_bytes;
use vstd::prelude::*;
use vstd::std_specs::cmp::PartialEqSpecImpl;
use vstd::string::StrSliceExecFns;
use vstd::utf8::encode_utf8;

verus! {

/// A 32-byte identifier of a record or of an identity.
#[derive(Clone, Copy, Debug)]
pub struct Address {
    pub bytes: [u8; 32],
}

impl View for Address {
    type V = Seq<u8>;

    open spec fn view(&self) -> Seq<u8> {
        self.bytes@
    }
}

impl PartialEq for Address {
    fn eq(&self, other: &Self) -> (r: bool) {
        let mut i: usize = 0;
        while i < 32
            invariant
                i <= 32,
                forall|j: int| 0 <= j < i ==> self.bytes[j] == other.bytes[j],
            decreases 32 - i,
        {
            if self.bytes[i] != other.bytes[i] {
                return false;
            }
            i += 1;
        }
        assert(self.bytes =~= other.bytes);
        true
    }
}

impl PartialEqSpecImpl for Address {
    open spec fn obeys_eq_spec() -> bool {
        true
    }

    open spec fn eq_spec(&self, other: &Self) -> bool {
        *self == *other
    }
}

impl Eq for Address {

}

impl Address {
    /// The bytes of the address in a vector.
    pub fn to_vec(&self) -> (bytes: Vec<u8>)
        ensures
            bytes@ == self@,
    {
        let mut bytes: Vec<u8> = Vec::new();
        let mut i: usize = 0;
        while i < 32
            invariant
                i <= 32,
                bytes@ == self@.take(i as int),
            decreases 32 - i,
        {
            bytes.push(self.bytes[i]);
            assert(bytes@ =~= self@.take(i + 1));
            i += 1;
        }
        assert(self@.take(32) =~= self@);
        bytes
    }

    /// Two addresses with the same bytes are the same address.
    pub proof fn lemma_same_bytes(self, other: Address)
        ensures
            (self@ == other@) <==> (self == other),
    {
        if self@ == other@ {
            assert forall|i: int| 0 <= i < 32 implies self.bytes[i] == other.bytes[i] by {
                assert(self.bytes[i] == self@[i]);
                assert(other.bytes[i] == other@[i]);
            }
            assert(self.bytes =~= other.bytes);
        }
    }
}

/// The tag under which a container record is derived from its owner.
pub open spec fn container_tag() -> Seq<char> {
    "blog"@
}

/// The tag under which a child record is derived from its container and its
/// sequence number.
pub open spec fn child_tag() -> Seq<char> {
    "post"@
}

/// The bytes of the identifier under which this program is deployed.
pub open spec fn program_id_bytes() -> Seq<u8> {
    seq![
        181u8, 27, 106, 204, 191, 118, 90, 54, 139, 181, 71, 235, 58, 193, 208, 109,
        171, 152, 211, 226, 195, 117, 59, 245, 7, 40, 96, 205, 200, 247, 128, 139,
    ]
}

/// The identifier under which this program is deployed; every address the
/// program derives is derived under it.
pub fn program_id() -> (id: Address)
    ensures
        id@ == program_id_bytes(),
{
    let id = Address {
        bytes: [
            181u8, 27, 106, 204, 191, 118, 90, 54, 139, 181, 71, 235, 58, 193, 208, 109,
            171, 152, 211, 226, 195, 117, 59, 245, 7, 40, 96, 205, 200, 247, 128, 139,
        ],
    };
    assert(id@ =~= program_id_bytes());
    id
}

/// The program address that the ledger's key library finds for a list of
/// seeds under a program identifier, with its bump; nothing where it finds
/// none. The address is given by its 32 bytes.
pub uninterp spec fn program_address(seeds: Seq<Seq<u8>>, program_id: Seq<u8>) -> Option<
    (Seq<u8>, u8),
>;

/// What a search for a program address found, with the address by its bytes.
pub open spec fn found_bytes(found: Option<(Address, u8)>) -> Option<(Seq<u8>, u8)> {
    match found {
        Some((address, bump)) => Some((address@, bump)),
        None => None,
    }
}

/// The seed lists of a vector of seeds, each by its bytes.
pub open spec fn seed_bytes(seeds: Seq<Vec<u8>>) -> Seq<Seq<u8>> {
    Seq::new(seeds.len(), |i: int| seeds[i]@)
}

/// Calls `Pubkey::try_find_program_address` on the seeds and the program
/// identifier. Trusted: the search is a fixed computation on its arguments
/// (a hash of seeds, bump, program identifier and a marker, tried from bump
/// 255 downwards until the hash is no curve point), so its result is named
/// `program_address` of the same arguments; nothing more is claimed of it.
#[verifier::external_body]
fn find_program_address(seeds: &Vec<Vec<u8>>, program: &Address) -> (found: Option<
    (Address, u8),
>)
    ensures
        found_bytes(found) == program_address(seed_bytes(seeds@), program@),
{
    let parts: Vec<&[u8]> = seeds.iter().map(|seed| seed.as_slice()).collect();
    let id = Pubkey::new_from_array(program.bytes);
    Pubkey::try_find_program_address(&parts, &id).map(
        |(key, bump)| (Address { bytes: key.to_bytes() }, bump),
    )
}

/// The seed list of a derivation: the tag's bytes first, then the parts.
pub open spec fn tagged_seeds(tag: Seq<char>, seed_parts: Seq<Seq<u8>>) -> Seq<Seq<u8>> {
    seq![encode_utf8(tag)] + seed_parts
}

/// The address and bump derived for a tag and seed parts under this program.
pub open spec fn derived(tag: Seq<char>, seed_parts: Seq<Seq<u8>>) -> Option<(Seq<u8>, u8)> {
    program_address(tagged_seeds(tag, seed_parts), program_id_bytes())
}

/// Derives the address of the record that a tag and seed parts name, with
/// the bump that was accepted. The same tag and parts always give the same
/// answer. `None` means that no bump gives a usable address, or that the
/// seeds are more or longer than the key library takes.
pub fn derive(tag: &str, seed_parts: &Vec<Vec<u8>>) -> (found: Option<(Address, u8)>)
    ensures
        found_bytes(found) == derived(tag@, seed_bytes(seed_parts@)),
{
    let mut seeds: Vec<Vec<u8>> = Vec::new();
    seeds.push(tag.as_bytes_vec());
    let mut i: usize = 0;
    while i < seed_parts.len()
        invariant
            i <= seed_parts.len(),
            seeds.len() == i + 1,
            seeds[0]@ == encode_utf8(tag@),
            forall|j: int| 0 <= j < i ==> seeds[j + 1]@ == seed_parts[j]@,
        decreases seed_parts.len() - i,
    {
        seeds.push(seed_parts[i].clone());
        i += 1;
    }
    assert(seed_bytes(seeds@) =~= tagged_seeds(tag@, seed_bytes(seed_parts@)));
    let id = program_id();
    find_program_address(&seeds, &id)
}

/// The slot of a record: what its address is derived from.
#[derive(Clone, Copy, Debug, PartialEq, Eq)]
pub enum Derivation {
    /// The one container record of an owner.
    Container { owner: Address },
    /// The child record with a sequence number under a container.
    Child { container: Address, sequence_id: u64 },
}

impl Derivation {
    /// The tag of the slot.
    pub open spec fn tag(self) -> Seq<char> {
        match self {
            Derivation::Container { .. } => container_tag(),
            Derivation::Child { .. } => child_tag(),
        }
    }

    /// The seed parts of the slot: the owner's bytes for a container; the
    /// container's bytes and the sequence number in eight little-endian
    /// bytes for a child.
    pub open spec fn seed_parts(self) -> Seq<Seq<u8>> {
        match self {
            Derivation::Container { owner } => seq![owner@],
            Derivation::Child { container, sequence_id } => seq![
                container@,
                spec_u64_to_le_bytes(sequence_id),
            ],
        }
    }

    /// The address derived for the slot, with its bump.
    pub open spec fn address(self) -> Option<(Seq<u8>, u8)> {
        derived(self.tag(), self.seed_parts())
    }

    /// Whether `key` is the address derived for the slot.
    pub open spec fn names(self, key: Address) -> bool {
        self.address() matches Some((address, _)) && address == key@
    }

    /// Derives the address of the slot.
    pub fn find(&self) -> (found: Option<(Address, u8)>)
        ensures
            found_bytes(found) == self.address(),
    {
        let mut parts: Vec<Vec<u8>> = Vec::new();
        match self {
            Derivation::Container { owner } => {
                parts.push(owner.to_vec());
                assert(seed_bytes(parts@) =~= self.seed_parts());
                derive("blog", &parts)
            },
            Derivation::Child { container, sequence_id } => {
                parts.push(container.to_vec());
                parts.push(u64_to_le_bytes(*sequence_id));
                assert(seed_bytes(parts@) =~= self.seed_parts());
                derive("post", &parts)
            },
        }
    }
}

} // verus!
