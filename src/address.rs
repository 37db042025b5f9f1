//! Account identities and the derivation of record addresses.

use vstd::prelude::*;

verus! {

/// A 32-byte account identity (a public key).
#[derive(Clone, Copy, Debug)]
pub struct Identity {
    pub bytes: [u8; 32],
}

impl View for Identity {
    type V = Seq<u8>;

    open spec fn view(&self) -> Seq<u8> {
        self.bytes@
    }
}

impl Identity {
    pub fn new(bytes: [u8; 32]) -> (r: Identity)
        ensures
            r@ == bytes@,
    {
        Identity { bytes }
    }

    /// Whether two identities hold the same bytes.
    pub fn same_as(&self, other: &Identity) -> (r: bool)
        ensures
            r == (self@ == other@),
    {
        let mut i: usize = 0;
        while i < 32
            invariant
                i <= 32,
                self@.len() == 32,
                other@.len() == 32,
                forall|j: int| 0 <= j < i ==> self@[j] == other@[j],
            decreases 32 - i,
        {
            if self.bytes[i] != other.bytes[i] {
                return false;
            }
            i = i + 1;
        }
        assert(self@ =~= other@);
        true
    }
}

/// The tag that starts the seeds of every guide record address ("guide").
pub open spec fn guide_tag() -> Seq<u8> {
    seq![103u8, 117u8, 105u8, 100u8, 101u8]
}

/// The first `k` little-endian bytes of `n`.
pub open spec fn le_bytes(n: nat, k: nat) -> Seq<u8>
    decreases k,
{
    if k == 0 {
        Seq::empty()
    } else {
        seq![(n % 256) as u8] + le_bytes(n / 256, (k - 1) as nat)
    }
}

/// The seeds of the address of the record that `submitter` filed under `index`.
pub open spec fn guide_seeds(submitter: Seq<u8>, index: u64) -> Seq<Seq<u8>> {
    seq![guide_tag(), submitter, le_bytes(index as nat, 8)]
}

/// The eight little-endian bytes of `n`.
pub fn u64_le_bytes(n: u64) -> (r: Vec<u8>)
    ensures
        r@ == le_bytes(n as nat, 8),
{
    let mut out: Vec<u8> = Vec::new();
    let mut v: u64 = n;
    let mut i: usize = 0;
    while i < 8
        invariant
            i <= 8,
            out@ + le_bytes(v as nat, (8 - i) as nat) == le_bytes(n as nat, 8),
        decreases 8 - i,
    {
        let ghost prev = out@;
        out.push((v % 256) as u8);
        assert(out@ + le_bytes((v / 256) as nat, (8 - i - 1) as nat) =~= prev + le_bytes(
            v as nat,
            (8 - i) as nat,
        ));
        v = v / 256;
        i = i + 1;
    }
    assert(out@ =~= out@ + le_bytes(v as nat, 0));
    out
}

/// The seeds of a guide record address, as bytes.
pub fn guide_seed_bytes(submitter: &Identity, index: u64) -> (r: Vec<Vec<u8>>)
    ensures
        r@.map_values(|s: Vec<u8>| s@) == guide_seeds(submitter@, index),
{
    let tag: Vec<u8> = vec![103u8, 117u8, 105u8, 100u8, 101u8];
    let mut owner: Vec<u8> = Vec::new();
    let mut i: usize = 0;
    while i < 32
        invariant
            i <= 32,
            submitter@.len() == 32,
            owner@ == submitter@.subrange(0, i as int),
        decreases 32 - i,
    {
        owner.push(submitter.bytes[i]);
        i = i + 1;
        assert(owner@ =~= submitter@.subrange(0, i as int));
    }
    assert(owner@ =~= submitter@);
    let mut seeds: Vec<Vec<u8>> = Vec::new();
    seeds.push(tag);
    seeds.push(owner);
    seeds.push(u64_le_bytes(index));
    assert(seeds@.map_values(|s: Vec<u8>| s@) =~= guide_seeds(submitter@, index));
    seeds
}

/// The program-derived address and bump seed found for `seeds` under the
/// program `program_id`, or none when the search finds no address.
pub uninterp spec fn program_address_of(seeds: Seq<Seq<u8>>, program_id: Seq<u8>) -> Option<(Seq<u8>, u8)>;

/// Relies on `Pubkey::try_find_program_address` (solana-pubkey, re-exported by
/// anchor-lang): the address and bump seed it finds depend on the seed bytes
/// and the program id alone; it returns `None` where no bump seed gives an
/// address, or where the seeds are too many or too long.
#[verifier::external_body]
fn find_program_address(seeds: &Vec<Vec<u8>>, program_id: &Identity) -> (r: Option<(Identity, u8)>)
    ensures
        match r {
            Some((a, b)) => program_address_of(seeds@.map_values(|s: Vec<u8>| s@), program_id@)
                == Some((a@, b)),
            None => program_address_of(seeds@.map_values(|s: Vec<u8>| s@), program_id@) is None,
        },
{
    let slices: Vec<&[u8]> = seeds.iter().map(|s| s.as_slice()).collect();
    let program = anchor_lang::prelude::Pubkey::new_from_array(program_id.bytes);
    anchor_lang::prelude::Pubkey::try_find_program_address(&slices, &program).map(
        |(a, b)| (Identity { bytes: a.to_bytes() }, b),
    )
}

/// The address and bump seed of the record that `submitter` files under
/// `index`, in the program `program_id`.
pub fn guide_address(program_id: &Identity, submitter: &Identity, index: u64) -> (r: Option<(Identity, u8)>)
    ensures
        match r {
            Some((a, b)) => program_address_of(guide_seeds(submitter@, index), program_id@)
                == Some((a@, b)),
            None => program_address_of(guide_seeds(submitter@, index), program_id@) is None,
        },
{
    let seeds = guide_seed_bytes(submitter, index);
    find_program_address(&seeds, program_id)
}

} // verus!
