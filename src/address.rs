//! Deterministic addresses of the platform and escrow accounts.
use vstd::prelude::*;

use crate::identity::Identity;
use solana_program::pubkey::Pubkey;

verus! {

/// What `Pubkey::try_find_program_address` returns for a seed list and a
/// program id: the derived address and its bump seed, or none.
pub uninterp spec fn program_address(seeds: Seq<Seq<u8>>, program_id: Seq<u8>) -> Option<(Seq<u8>, u8)>;

/// Relies on solana_program's `Pubkey::try_find_program_address`: the derived
/// address and bump seed for the seeds and program id, or `None` where no bump
/// seed yields one; the result depends on the arguments alone.
#[verifier::external_body]
fn find_program_address(seeds: &Vec<Vec<u8>>, program_id: &Identity) -> (r: Option<(Identity, u8)>)
    ensures
        match r {
            Some((a, n)) => program_address(seeds.deep_view(), program_id@) == Some((a@, n)),
            None => program_address(seeds.deep_view(), program_id@) is None,
        },
{
    let refs: Vec<&[u8]> = seeds.iter().map(|s| s.as_slice()).collect();
    let program = Pubkey::new_from_array(program_id.bytes);
    Pubkey::try_find_program_address(&refs, &program).map(|(a, n)| (Identity { bytes: a.to_bytes() }, n))
}

/// Which escrow an address belongs to.
#[derive(Clone, Copy, Debug, PartialEq, Eq, Structural)]
pub enum Role {
    List,
    Bid,
}

/// The record half or the value-holding half of an escrow.
#[derive(Clone, Copy, Debug, PartialEq, Eq, Structural)]
pub enum Part {
    State,
    Vault,
}

/// The seeds an address is derived from.
#[derive(Clone, Copy, Debug, PartialEq, Eq)]
pub enum SeedSet {
    /// `["Platform", part]`
    Platform { part: Part },
    /// `[mint, party, role, part]`
    Escrow { mint: Identity, party: Identity, role: Role, part: Part },
}

pub open spec fn platform_tag() -> Seq<u8> {
    seq![80u8, 108u8, 97u8, 116u8, 102u8, 111u8, 114u8, 109u8]
}

pub open spec fn role_tag(role: Role) -> Seq<u8> {
    match role {
        Role::List => seq![76u8, 105u8, 115u8, 116u8],
        Role::Bid => seq![66u8, 105u8, 100u8],
    }
}

pub open spec fn part_tag(part: Part) -> Seq<u8> {
    match part {
        Part::State => seq![83u8, 116u8, 97u8, 116u8, 101u8],
        Part::Vault => seq![86u8, 97u8, 117u8, 108u8, 116u8],
    }
}

fn tag_bytes(bytes: &[u8]) -> (r: Vec<u8>)
    ensures
        r@ == bytes@,
{
    let mut r: Vec<u8> = Vec::new();
    let mut i: usize = 0;
    while i < bytes.len()
        invariant
            0 <= i <= bytes@.len(),
            r@ == bytes@.subrange(0, i as int),
        decreases bytes@.len() - i,
    {
        r.push(bytes[i]);
        i += 1;
        assert(r@ =~= bytes@.subrange(0, i as int));
    }
    assert(bytes@.subrange(0, bytes@.len() as int) =~= bytes@);
    r
}

fn role_bytes(role: Role) -> (r: Vec<u8>)
    ensures
        r@ == role_tag(role),
{
    match role {
        Role::List => {
            let a: [u8; 4] = [76u8, 105u8, 115u8, 116u8];
            assert(a@ =~= role_tag(role));
            tag_bytes(&a)
        },
        Role::Bid => {
            let a: [u8; 3] = [66u8, 105u8, 100u8];
            assert(a@ =~= role_tag(role));
            tag_bytes(&a)
        },
    }
}

fn part_bytes(part: Part) -> (r: Vec<u8>)
    ensures
        r@ == part_tag(part),
{
    match part {
        Part::State => {
            let a: [u8; 5] = [83u8, 116u8, 97u8, 116u8, 101u8];
            assert(a@ =~= part_tag(part));
            tag_bytes(&a)
        },
        Part::Vault => {
            let a: [u8; 5] = [86u8, 97u8, 117u8, 108u8, 116u8];
            assert(a@ =~= part_tag(part));
            tag_bytes(&a)
        },
    }
}

impl SeedSet {
    /// The ordered seed list.
    pub open spec fn seed_list(self) -> Seq<Seq<u8>> {
        match self {
            SeedSet::Platform { part } => seq![platform_tag(), part_tag(part)],
            SeedSet::Escrow { mint, party, role, part } => seq![
                mint@,
                party@,
                role_tag(role),
                part_tag(part),
            ],
        }
    }

    /// The seed list as byte vectors.
    pub fn to_seeds(&self) -> (r: Vec<Vec<u8>>)
        ensures
            r.deep_view() == self.seed_list(),
    {
        let mut r: Vec<Vec<u8>> = Vec::new();
        match self {
            SeedSet::Platform { part } => {
                let a: [u8; 8] = [80u8, 108u8, 97u8, 116u8, 102u8, 111u8, 114u8, 109u8];
                assert(a@ =~= platform_tag());
                r.push(tag_bytes(&a));
                r.push(part_bytes(*part));
            },
            SeedSet::Escrow { mint, party, role, part } => {
                r.push(mint.to_vec());
                r.push(party.to_vec());
                r.push(role_bytes(*role));
                r.push(part_bytes(*part));
            },
        }
        assert forall|i: int| 0 <= i < r@.len() implies r@[i].deep_view() == r@[i]@ by {
            assert(r@[i].deep_view() =~= r@[i]@);
        }
        assert(r.deep_view() =~= self.seed_list());
        r
    }

    /// The seed list followed by the bump seed, as a derived address signs with.
    pub fn signer_seeds(&self, nonce: u8) -> (r: Vec<Vec<u8>>)
        ensures
            r.deep_view() == self.seed_list().push(seq![nonce]),
    {
        let mut r = self.to_seeds();
        let mut last: Vec<u8> = Vec::new();
        last.push(nonce);
        r.push(last);
        assert(last@ =~= seq![nonce]);
        assert(last.deep_view() =~= last@);
        assert(r.deep_view() =~= self.seed_list().push(seq![nonce]));
        r
    }

    /// The address and bump seed derived from these seeds under `program_id`.
    pub open spec fn derived(self, program_id: Identity) -> Option<(Seq<u8>, u8)> {
        program_address(self.seed_list(), program_id@)
    }
}

/// The identity whose bytes are `s`.
pub open spec fn identity_of(s: Seq<u8>) -> Identity {
    choose|i: Identity| i@ == s
}

/// The derived address of `seeds` under `program_id` as an identity, with its
/// bump seed.
pub open spec fn pda_of(seeds: SeedSet, program_id: Identity) -> Option<(Identity, u8)> {
    match seeds.derived(program_id) {
        None => None,
        Some((a, n)) => Some((identity_of(a), n)),
    }
}

/// Derives the address of `seeds` under `program_id`.
pub fn derive_address(seeds: &SeedSet, program_id: &Identity) -> (r: Option<(Identity, u8)>)
    ensures
        r == pda_of(*seeds, *program_id),
        match r {
            Some((a, n)) => seeds.derived(*program_id) == Some((a@, n)),
            None => seeds.derived(*program_id) is None,
        },
{
    let list = seeds.to_seeds();
    let r = find_program_address(&list, program_id);
    proof {
        if let Some((a, n)) = r {
            crate::identity::lemma_identity_ext(a, identity_of(a@));
        }
    }
    r
}

/// Derivation is a function of its inputs: equal seed sets under one program
/// give one address; and for a fixed item, escrows that differ in party, role
/// or part are derived from different seed lists, as are platform and escrow
/// accounts.
pub proof fn lemma_seeds_distinct(a: SeedSet, b: SeedSet, program_id: Identity)
    ensures
        a == b ==> a.derived(program_id) == b.derived(program_id),
        (a is Platform && b is Escrow) ==> a.seed_list() != b.seed_list(),
        (a matches SeedSet::Escrow { mint: m1, .. } && b matches SeedSet::Escrow { mint: m2, .. }
            && m1 == m2 && a != b) ==> a.seed_list() != b.seed_list(),
        (a is Platform && b is Platform && a != b) ==> a.seed_list() != b.seed_list(),
{
    if a is Platform && b is Escrow {
        assert(a.seed_list().len() != b.seed_list().len());
    }
    if let SeedSet::Escrow { mint: m1, party: p1, role: r1, part: t1 } = a {
        if let SeedSet::Escrow { mint: m2, party: p2, role: r2, part: t2 } = b {
            if m1 == m2 && a != b && a.seed_list() == b.seed_list() {
                assert(a.seed_list()[1] == b.seed_list()[1]);
                crate::identity::lemma_identity_ext(p1, p2);
                assert(a.seed_list()[2] == b.seed_list()[2]);
                assert(a.seed_list()[3] == b.seed_list()[3]);
                if r1 != r2 {
                    assert(role_tag(r1).len() != role_tag(r2).len());
                }
                if t1 != t2 {
                    assert(part_tag(t1)[0] != part_tag(t2)[0]);
                }
            }
        }
    }
    if let SeedSet::Platform { part: t1 } = a {
        if let SeedSet::Platform { part: t2 } = b {
            if t1 != t2 {
                assert(a.seed_list()[1][0] != b.seed_list()[1][0]);
            }
        }
    }
}

} // verus!
