use vstd::prelude::*;

use anchor_lang::prelude::Pubkey;

verus! {

/// A 32-byte account identity: a key, a mint, or a derived address.
#[derive(Clone, Copy, Debug)]
pub struct Address {
    pub bytes: [u8; 32],
}

impl View for Address {
    type V = Seq<u8>;

    open spec fn view(&self) -> Seq<u8> {
        self.bytes@
    }
}

impl PartialEq for Address {
    fn eq(&self, other: &Address) -> (r: bool) {
        let mut i: usize = 0;
        while i < 32
            invariant
                i <= 32,
                forall|j: int| 0 <= j < i ==> self.bytes@[j] == other.bytes@[j],
            decreases 32 - i,
        {
            if self.bytes[i] != other.bytes[i] {
                return false;
            }
            i = i + 1;
        }
        assert(self.bytes@ =~= other.bytes@);
        true
    }
}

impl vstd::std_specs::cmp::PartialEqSpecImpl for Address {
    open spec fn obeys_eq_spec() -> bool {
        true
    }

    open spec fn eq_spec(&self, other: &Address) -> bool {
        self@ == other@
    }
}

impl Address {
    pub fn new(bytes: [u8; 32]) -> (r: Address)
        ensures
            r.bytes == bytes,
    {
        Address { bytes }
    }

    /// The 32 bytes, as a seed for an address derivation.
    pub fn to_vec(&self) -> (r: Vec<u8>)
        ensures
            r@ == self@,
    {
        let mut v: Vec<u8> = Vec::new();
        let mut i: usize = 0;
        while i < 32
            invariant
                i <= 32,
                v@ == self@.subrange(0, i as int),
            decreases 32 - i,
        {
            v.push(self.bytes[i]);
            i = i + 1;
        }
        assert(self@.subrange(0, 32) =~= self@);
        v
    }
}

/// The seeds as byte strings.
pub open spec fn seeds_view(seeds: Seq<Vec<u8>>) -> Seq<Seq<u8>> {
    seeds.map_values(|s: Vec<u8>| s@)
}

/// At most sixteen seeds of at most thirty-two bytes each: what an address
/// derivation accepts.
pub open spec fn seeds_fit(seeds: Seq<Seq<u8>>) -> bool {
    seeds.len() <= 16 && forall|i: int| 0 <= i < seeds.len() ==> seeds[i].len() <= 32
}

/// The program address that `seeds` and `program_id` hash to, or `None`
/// where the hash is a point of the curve and so has a private key.
pub uninterp spec fn program_address(seeds: Seq<Seq<u8>>, program_id: Seq<u8>) -> Option<Seq<u8>>;

/// The first bump seed from `bump` down to 1 that, appended to `seeds`,
/// derives a program address, with that address.
pub open spec fn bump_search(seeds: Seq<Seq<u8>>, program_id: Seq<u8>, bump: nat) -> Option<(Seq<u8>, u8)>
    decreases bump,
{
    if bump == 0 {
        None
    } else {
        match program_address(seeds.push(seq![bump as u8]), program_id) {
            Some(a) => Some((a, bump as u8)),
            None => bump_search(seeds, program_id, (bump - 1) as nat),
        }
    }
}

/// The canonical program address of `seeds`: the one of the highest bump
/// seed, searched from 255 down to 1.
pub open spec fn canonical_address(seeds: Seq<Seq<u8>>, program_id: Seq<u8>) -> Option<(Seq<u8>, u8)> {
    if seeds_fit(seeds.push(seq![0u8])) {
        bump_search(seeds, program_id, 255)
    } else {
        None
    }
}

/// Relies on `Pubkey::create_program_address`: seeds beyond sixteen, or one
/// beyond thirty-two bytes, are refused; otherwise the result is the hash of
/// the seeds and the program id, unless that hash lies on the curve.
#[verifier::external_body]
pub(crate) fn create_program_address(seeds: &Vec<Vec<u8>>, program_id: &Address) -> (r: Option<Address>)
    ensures
        !seeds_fit(seeds_view(seeds@)) ==> r is None,
        seeds_fit(seeds_view(seeds@)) ==> match r {
            Some(a) => program_address(seeds_view(seeds@), program_id@) == Some(a@),
            None => program_address(seeds_view(seeds@), program_id@) is None,
        },
{
    let refs: Vec<&[u8]> = seeds.iter().map(|s| s.as_slice()).collect();
    let id = Pubkey::new_from_array(program_id.bytes);
    Pubkey::create_program_address(&refs, &id).ok().map(|a| Address { bytes: a.to_bytes() })
}

/// Relies on `Pubkey::try_find_program_address`: it appends a bump seed to
/// `seeds`, from 255 down to 1, and returns the first address that
/// `create_program_address` gives, with its bump; none where the seeds with
/// a bump do not fit or no bump works.
#[verifier::external_body]
pub(crate) fn try_find_program_address(seeds: &Vec<Vec<u8>>, program_id: &Address) -> (r: Option<(Address, u8)>)
    ensures
        match r {
            Some((a, b)) => canonical_address(seeds_view(seeds@), program_id@) == Some((a@, b)),
            None => canonical_address(seeds_view(seeds@), program_id@) is None,
        },
{
    let refs: Vec<&[u8]> = seeds.iter().map(|s| s.as_slice()).collect();
    let id = Pubkey::new_from_array(program_id.bytes);
    Pubkey::try_find_program_address(&refs, &id).map(|(a, b)| (Address { bytes: a.to_bytes() }, b))
}

} // verus!
