//! Deterministic addresses: every record and every vault lives at an address
//! computed from a fixed namespace tag and, where there is one, the owner's
//! identity and a per-owner sequence number.

use vstd::prelude::*;
use vstd::bytes::spec_u64_to_le_bytes;
use vstd::bytes::u64_to_le_bytes;
use vstd::bytes::lemma_auto_spec_u64_to_from_le_bytes;
use vstd::bytes::spec_u64_from_le_bytes;
use vstd::slice::slice_to_vec;

verus! {

/// An identity or an account address: 32 bytes.
#[derive(Clone, Copy, Debug)]
pub struct Address {
    pub bytes: [u8; 32],
}

impl View for Address {
    type V = Seq<u8>;

    open spec fn view(&self) -> Seq<u8> {
        self.bytes@
    }
}

impl PartialEq for Address {
    fn eq(&self, other: &Address) -> (r: bool) {
        let mut i: usize = 0;
        while i < 32
            invariant
                i <= 32,
                forall|j: int| 0 <= j < i ==> self.bytes[j] == other.bytes[j],
            decreases 32 - i,
        {
            if self.bytes[i] != other.bytes[i] {
                return false;
            }
            i += 1;
        }
        assert(self.bytes =~= other.bytes);
        true
    }
}

impl vstd::std_specs::cmp::PartialEqSpecImpl for Address {
    open spec fn obeys_eq_spec() -> bool {
        true
    }

    open spec fn eq_spec(&self, other: &Address) -> bool {
        *self == *other
    }
}

impl Eq for Address {

}

impl Address {
    /// The address made of the given bytes.
    pub fn new(bytes: [u8; 32]) -> (r: Address)
        ensures
            r.bytes == bytes,
    {
        Address { bytes }
    }

    /// The bytes of this address.
    pub fn to_bytes(&self) -> (r: [u8; 32])
        ensures
            r == self.bytes,
    {
        self.bytes
    }
}

/// Two addresses with the same bytes are the same address.
pub proof fn lemma_address_by_bytes(a: Address, b: Address)
    requires
        a@ == b@,
    ensures
        a == b,
{
    assert(a.bytes =~= b.bytes);
}

/// The fixed namespaces under which records and vaults are addressed.
#[derive(Clone, Copy, Debug, PartialEq, Eq, Structural)]
pub enum Namespace {
    FplGlobal,
    FplUser,
    Stake,
    StakeConfig,
    StakeVault,
    StakeCount,
    RewardConfig,
    RewardPool,
    RewardVault,
    Treasury,
    TreasuryVault,
}

impl Namespace {
    /// The tag bytes of this namespace, which are the ASCII text of its name:
    /// `fpl-global`, `fpl-user`, `stake`, `stake-config`, `stake-vault`,
    /// `stake-count`, `reward-config`, `reward-pool`, `reward-vault`,
    /// `treasury`, `treasury-vault`.
    pub open spec fn tag(self) -> Seq<u8> {
        match self {
            Namespace::FplGlobal => seq![
                102u8, 112, 108, 45, 103, 108, 111, 98, 97, 108,
            ],
            Namespace::FplUser => seq![102u8, 112, 108, 45, 117, 115, 101, 114],
            Namespace::Stake => seq![115u8, 116, 97, 107, 101],
            Namespace::StakeConfig => seq![
                115u8, 116, 97, 107, 101, 45, 99, 111, 110, 102, 105, 103,
            ],
            Namespace::StakeVault => seq![
                115u8, 116, 97, 107, 101, 45, 118, 97, 117, 108, 116,
            ],
            Namespace::StakeCount => seq![
                115u8, 116, 97, 107, 101, 45, 99, 111, 117, 110, 116,
            ],
            Namespace::RewardConfig => seq![
                114u8, 101, 119, 97, 114, 100, 45, 99, 111, 110, 102, 105, 103,
            ],
            Namespace::RewardPool => seq![
                114u8, 101, 119, 97, 114, 100, 45, 112, 111, 111, 108,
            ],
            Namespace::RewardVault => seq![
                114u8, 101, 119, 97, 114, 100, 45, 118, 97, 117, 108, 116,
            ],
            Namespace::Treasury => seq![116u8, 114, 101, 97, 115, 117, 114, 121],
            Namespace::TreasuryVault => seq![
                116u8, 114, 101, 97, 115, 117, 114, 121, 45, 118, 97, 117, 108, 116,
            ],
        }
    }

    /// The tag bytes of this namespace.
    pub fn tag_bytes(&self) -> (r: Vec<u8>)
        ensures
            r@ == self.tag(),
    {
        match self {
            Namespace::FplGlobal => {
                let t: [u8; 10] = [102, 112, 108, 45, 103, 108, 111, 98, 97, 108];
                slice_to_vec(t.as_slice())
            },
            Namespace::FplUser => {
                let t: [u8; 8] = [102, 112, 108, 45, 117, 115, 101, 114];
                slice_to_vec(t.as_slice())
            },
            Namespace::Stake => {
                let t: [u8; 5] = [115, 116, 97, 107, 101];
                slice_to_vec(t.as_slice())
            },
            Namespace::StakeConfig => {
                let t: [u8; 12] = [
                    115, 116, 97, 107, 101, 45, 99, 111, 110, 102, 105, 103,
                ];
                slice_to_vec(t.as_slice())
            },
            Namespace::StakeVault => {
                let t: [u8; 11] = [
                    115, 116, 97, 107, 101, 45, 118, 97, 117, 108, 116,
                ];
                slice_to_vec(t.as_slice())
            },
            Namespace::StakeCount => {
                let t: [u8; 11] = [
                    115, 116, 97, 107, 101, 45, 99, 111, 117, 110, 116,
                ];
                slice_to_vec(t.as_slice())
            },
            Namespace::RewardConfig => {
                let t: [u8; 13] = [
                    114, 101, 119, 97, 114, 100, 45, 99, 111, 110, 102, 105, 103,
                ];
                slice_to_vec(t.as_slice())
            },
            Namespace::RewardPool => {
                let t: [u8; 11] = [
                    114, 101, 119, 97, 114, 100, 45, 112, 111, 111, 108,
                ];
                slice_to_vec(t.as_slice())
            },
            Namespace::RewardVault => {
                let t: [u8; 12] = [
                    114, 101, 119, 97, 114, 100, 45, 118, 97, 117, 108, 116,
                ];
                slice_to_vec(t.as_slice())
            },
            Namespace::Treasury => {
                let t: [u8; 8] = [116, 114, 101, 97, 115, 117, 114, 121];
                slice_to_vec(t.as_slice())
            },
            Namespace::TreasuryVault => {
                let t: [u8; 14] = [
                    116, 114, 101, 97, 115, 117, 114, 121, 45, 118, 97, 117, 108,
                    116,
                ];
                slice_to_vec(t.as_slice())
            },
        }
    }
}

/// A derived address together with the bump that proves the engine, and no
/// outside key, controls it.
#[derive(Clone, Copy, Debug, PartialEq, Eq)]
pub struct Derived {
    pub address: Address,
    pub bump: u8,
}

/// The derived address and bump that the runtime's search finds for a list of
/// seeds under a program, or `None` where it finds none.
pub uninterp spec fn program_address(
    seeds: Seq<Seq<u8>>,
    program_id: Seq<u8>,
) -> Option<(Seq<u8>, u8)>;

/// Calls `Pubkey::try_find_program_address`, which `anchor_lang` has from
/// `solana_program`. The search depends on the seeds and the program id
/// alone; the contract gives its outcome the name `program_address` and
/// claims nothing else of it.
#[verifier::external_body]
fn find_program_address(seeds: &Vec<Vec<u8>>, program_id: &Address) -> (r: Option<Derived>)
    ensures
        as_pair(r) == program_address(seeds.deep_view(), program_id@),
{
    let parts: Vec<&[u8]> = seeds.iter().map(|s| s.as_slice()).collect();
    let program = anchor_lang::prelude::Pubkey::new_from_array(program_id.bytes);
    match anchor_lang::prelude::Pubkey::try_find_program_address(&parts, &program) {
        Some((key, bump)) => Some(Derived { address: Address { bytes: key.to_bytes() }, bump }),
        None => None,
    }
}

/// A derivation outcome as plain bytes and bump.
pub open spec fn as_pair(r: Option<Derived>) -> Option<(Seq<u8>, u8)> {
    match r {
        Some(d) => Some((d.address@, d.bump)),
        None => None,
    }
}

/// The seeds that identify a record: the namespace tag, then the owner's
/// identity where the record belongs to an owner, then the little-endian bytes
/// of the sequence number where the owner has many such records.
pub open spec fn seeds(
    namespace: Namespace,
    owner: Option<Address>,
    sequence: Option<u64>,
) -> Seq<Seq<u8>> {
    let head = seq![namespace.tag()];
    let with_owner = match owner {
        Some(o) => head.push(o@),
        None => head,
    };
    match sequence {
        Some(n) => with_owner.push(spec_u64_to_le_bytes(n)),
        None => with_owner,
    }
}

/// Derives the address of the record that `namespace`, `owner` and `sequence`
/// identify under `program_id`, with its bump. The outcome is a function of
/// these four alone, so deriving again gives the same address and bump.
pub fn derive_address(
    program_id: &Address,
    namespace: Namespace,
    owner: Option<Address>,
    sequence: Option<u64>,
) -> (r: Option<Derived>)
    ensures
        as_pair(r) == program_address(seeds(namespace, owner, sequence), program_id@),
{
    let mut parts: Vec<Vec<u8>> = Vec::new();
    parts.push(namespace.tag_bytes());
    if let Some(o) = owner {
        parts.push(slice_to_vec(o.bytes.as_slice()));
    }
    if let Some(n) = sequence {
        parts.push(u64_to_le_bytes(n));
    }
    assert(parts.deep_view() =~~= seeds(namespace, owner, sequence));
    find_program_address(&parts, program_id)
}

/// Tells whether `candidate` is the address of the record that `namespace`,
/// `owner` and `sequence` identify under `program_id`.
pub fn is_address_of(
    program_id: &Address,
    namespace: Namespace,
    owner: Option<Address>,
    sequence: Option<u64>,
    candidate: &Address,
) -> (r: bool)
    ensures
        r == match program_address(seeds(namespace, owner, sequence), program_id@) {
            Some((bytes, _)) => bytes == candidate@,
            None => false,
        },
{
    match derive_address(program_id, namespace, owner, sequence) {
        Some(derived) => {
            proof {
                if derived.address@ == candidate@ {
                    lemma_address_by_bytes(derived.address, *candidate);
                }
            }
            derived.address == *candidate
        },
        None => false,
    }
}

/// Deriving is repeatable: two outcomes of deriving with the same program,
/// namespace, owner and sequence number, which by the contract of `derive_address`
/// agree as bytes and bump, are the same address and the same bump.
pub proof fn lemma_derive_repeatable(first: Option<Derived>, second: Option<Derived>)
    requires
        as_pair(first) == as_pair(second),
    ensures
        first == second,
{
    if let Some(a) = first {
        if let Some(b) = second {
            lemma_address_by_bytes(a.address, b.address);
        }
    }
}

/// The seeds with which a vault signs a movement of its funds: the
/// namespace tag and the bump.
pub open spec fn authority_seeds(namespace: Namespace, bump: u8) -> Seq<Seq<u8>> {
    seq![namespace.tag(), seq![bump]]
}

/// Builds the signing seeds of the vault `namespace` for `bump`.
pub fn signer_seeds(namespace: Namespace, bump: u8) -> (r: Vec<Vec<u8>>)
    ensures
        r.deep_view() == authority_seeds(namespace, bump),
{
    let mut last: Vec<u8> = Vec::new();
    last.push(bump);
    let mut parts: Vec<Vec<u8>> = Vec::new();
    parts.push(namespace.tag_bytes());
    parts.push(last);
    assert(parts.deep_view() =~~= authority_seeds(namespace, bump));
    parts
}

/// Distinct namespaces have distinct tags.
pub proof fn lemma_tag_injective(a: Namespace, b: Namespace)
    requires
        a.tag() == b.tag(),
    ensures
        a == b,
{
    lemma_tag_marks(a);
    lemma_tag_marks(b);
}

/// The length and first byte of each tag, and the byte that tells the two
/// stake tags of equal length apart.
proof fn lemma_tag_marks(n: Namespace)
    ensures
        n.tag().len() == match n {
            Namespace::FplGlobal => 10nat,
            Namespace::FplUser => 8,
            Namespace::Stake => 5,
            Namespace::StakeConfig => 12,
            Namespace::StakeVault => 11,
            Namespace::StakeCount => 11,
            Namespace::RewardConfig => 13,
            Namespace::RewardPool => 11,
            Namespace::RewardVault => 12,
            Namespace::Treasury => 8,
            Namespace::TreasuryVault => 14,
        },
        n.tag()[0] == match n {
            Namespace::FplGlobal | Namespace::FplUser => 102u8,
            Namespace::Stake
            | Namespace::StakeConfig
            | Namespace::StakeVault
            | Namespace::StakeCount => 115,
            Namespace::RewardConfig | Namespace::RewardPool | Namespace::RewardVault => 114,
            Namespace::Treasury | Namespace::TreasuryVault => 116,
        },
        n == Namespace::StakeVault ==> n.tag()[6] == 118,
        n == Namespace::StakeCount ==> n.tag()[6] == 99,
{
}

/// Distinct identifying material gives distinct seeds: no two of namespace,
/// owner and sequence number share their seeds.
pub proof fn lemma_seeds_injective(
    n1: Namespace,
    o1: Option<Address>,
    s1: Option<u64>,
    n2: Namespace,
    o2: Option<Address>,
    s2: Option<u64>,
)
    requires
        seeds(n1, o1, s1) == seeds(n2, o2, s2),
    ensures
        n1 == n2,
        o1 == o2,
        s1 == s2,
{
    lemma_auto_spec_u64_to_from_le_bytes();
    let a = seeds(n1, o1, s1);
    let b = seeds(n2, o2, s2);
    assert(a[0] == b[0]);
    lemma_tag_injective(n1, n2);
    if a.len() >= 2 {
        assert(a[1] == b[1]);
    }
    if a.len() == 3 {
        assert(a[2] == b[2]);
    }
    if let Some(x) = o1 {
        if let Some(y) = o2 {
            lemma_address_by_bytes(x, y);
        }
    }
    if let Some(x) = s1 {
        if let Some(y) = s2 {
            assert(spec_u64_from_le_bytes(spec_u64_to_le_bytes(x)) == x);
        }
    }
}

} // verus!
