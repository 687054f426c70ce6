use vstd::prelude::*;
use anchor_lang::prelude::Pubkey;
use crate::error::EscrowError;
use crate::identity::Identity;

verus! {

/// The balances that one escrow's value moves between: the client's, the
/// custody slot's and the freelancer's. Transfers move value and never make
/// or destroy it.
#[derive(Clone, Copy, Debug, PartialEq, Eq, Structural)]
pub struct Balances {
    pub client: u64,
    pub custody: u64,
    pub freelancer: u64,
}

/// `b` after `amount` moved from the client into custody.
pub open spec fn moved_in(b: Balances, amount: u64) -> Balances {
    Balances { client: (b.client - amount) as u64, custody: (b.custody + amount) as u64, ..b }
}

/// `b` after `amount` moved from custody to the freelancer.
pub open spec fn paid_out(b: Balances, amount: u64) -> Balances {
    Balances { custody: (b.custody - amount) as u64, freelancer: (b.freelancer + amount) as u64, ..b }
}

/// `b` after `amount` moved from custody back to the client.
pub open spec fn paid_back(b: Balances, amount: u64) -> Balances {
    Balances { client: (b.client + amount) as u64, custody: (b.custody - amount) as u64, ..b }
}

impl Balances {
    /// The value held by the three parties together.
    pub open spec fn total(self) -> int {
        self.client + self.custody + self.freelancer
    }

    /// The total fits in a `u64`, so no transfer can overflow a balance.
    pub open spec fn wf(self) -> bool {
        self.total() <= u64::MAX
    }

    pub fn new(client: u64, custody: u64, freelancer: u64) -> (r: Option<Balances>)
        ensures
            match r {
                Some(b) => b == (Balances { client, custody, freelancer }) && b.wf(),
                None => client + custody + freelancer > u64::MAX,
            },
    {
        match client.checked_add(custody) {
            Some(s) => match s.checked_add(freelancer) {
                Some(_) => Some(Balances { client, custody, freelancer }),
                None => None,
            },
            None => None,
        }
    }

    /// Moves `amount` from the client into custody, or fails with
    /// `InsufficientFunds` and moves nothing.
    pub fn deposit(&mut self, amount: u64) -> (r: Result<(), EscrowError>)
        requires
            old(self).wf(),
        ensures
            final(self).wf(),
            final(self).total() == old(self).total(),
            old(self).client < amount ==> r == Err::<(), EscrowError>(EscrowError::InsufficientFunds)
                && *final(self) == *old(self),
            old(self).client >= amount ==> r == Ok::<(), EscrowError>(()) && *final(self) == moved_in(
                *old(self),
                amount,
            ),
    {
        if self.client < amount {
            return Err(EscrowError::InsufficientFunds);
        }
        self.client = self.client - amount;
        self.custody = self.custody + amount;
        Ok(())
    }

    /// Moves `amount` from custody to the freelancer.
    pub fn release_to_freelancer(&mut self, amount: u64)
        requires
            old(self).wf(),
            old(self).custody >= amount,
        ensures
            final(self).wf(),
            *final(self) == paid_out(*old(self), amount),
    {
        self.custody = self.custody - amount;
        self.freelancer = self.freelancer + amount;
    }

    /// Moves `amount` from custody back to the client.
    pub fn return_to_client(&mut self, amount: u64)
        requires
            old(self).wf(),
            old(self).custody >= amount,
        ensures
            final(self).wf(),
            *final(self) == paid_back(*old(self), amount),
    {
        self.custody = self.custody - amount;
        self.client = self.client + amount;
    }
}

/// The first seed of every custody address.
pub open spec fn escrow_seed() -> Seq<u8> {
    seq![0x65u8, 0x73u8, 0x63u8, 0x72u8, 0x6fu8, 0x77u8]
}

/// The seeds a custody address is derived from: the word `escrow`, the
/// client, the freelancer and the bump.
pub open spec fn custody_seeds_of(client: Seq<u8>, freelancer: Seq<u8>, bump: u8) -> Seq<Seq<u8>> {
    seq![escrow_seed(), client, freelancer, seq![bump]]
}

/// The program-derived address of `seeds` under `program`, where one exists.
pub uninterp spec fn program_address_of(seeds: Seq<Seq<u8>>, program: Seq<u8>) -> Option<Seq<u8>>;

/// Relies on `Pubkey::create_program_address`: it hashes the seeds and the
/// program id, refuses more than 16 seeds or a seed over 32 bytes, and
/// refuses a hash that lies on the curve; the result depends on its
/// arguments alone.
#[verifier::external_body]
fn create_program_address(seeds: &Vec<Vec<u8>>, program: &Identity) -> (r: Option<Identity>)
    ensures
        match r {
            Some(k) => program_address_of(seeds.deep_view(), program@) == Some(k@),
            None => program_address_of(seeds.deep_view(), program@) is None,
        },
        seeds@.len() > 16 ==> r is None,
        (exists|i: int| 0 <= i < seeds@.len() && #[trigger] seeds@[i]@.len() > 32) ==> r is None,
{
    let s: Vec<&[u8]> = seeds.iter().map(|v| v.as_slice()).collect();
    let p = Pubkey::new_from_array(program.bytes);
    Pubkey::create_program_address(&s, &p).ok().map(|k| Identity::new(k.to_bytes()))
}

/// Builds the seeds of the custody address of `(client, freelancer)`.
pub fn custody_seeds(client: &Identity, freelancer: &Identity, bump: u8) -> (r: Vec<Vec<u8>>)
    ensures
        r.deep_view() == custody_seeds_of(client@, freelancer@, bump),
{
    let word: Vec<u8> = vec![0x65u8, 0x73u8, 0x63u8, 0x72u8, 0x6fu8, 0x77u8];
    let c: Vec<u8> = client.to_vec();
    let f: Vec<u8> = freelancer.to_vec();
    let b: Vec<u8> = vec![bump];
    assert(word@ =~= escrow_seed());
    assert(b@ =~= seq![bump]);
    assert(word.deep_view() =~= word@);
    assert(c.deep_view() =~= c@);
    assert(f.deep_view() =~= f@);
    assert(b.deep_view() =~= b@);
    let r = vec![word, c, f, b];
    assert(r.deep_view() =~= custody_seeds_of(client@, freelancer@, bump));
    r
}

/// Derives the custody address of `(client, freelancer)` with `bump` under
/// `program_id`.
pub fn derive_custody_address(
    client: &Identity,
    freelancer: &Identity,
    bump: u8,
    program_id: &Identity,
) -> (r: Option<Identity>)
    ensures
        match r {
            Some(k) => program_address_of(custody_seeds_of(client@, freelancer@, bump), program_id@)
                == Some(k@),
            None => program_address_of(custody_seeds_of(client@, freelancer@, bump), program_id@) is None,
        },
{
    let seeds = custody_seeds(client, freelancer, bump);
    create_program_address(&seeds, program_id)
}

} // verus!
