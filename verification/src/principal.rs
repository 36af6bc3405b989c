use anchor_lang::prelude::Pubkey;
use vstd::prelude::*;

verus! {

/// `anchor_lang::prelude::Pubkey`, the 32-byte address by which the ledger
/// names an account. Its bytes are hidden from the verifier: a key is carried
/// along and compared, and nothing else is claimed of it.
#[verifier::external_type_specification]
#[verifier::external_body]
pub struct ExPubkey(Pubkey);

/// `Pubkey`'s `==`, which its derived `PartialEq` takes over the key's 32
/// bytes: true for two keys of the same bytes and for no others. The contract
/// takes keys of the same bytes to be the same key. Nothing is proved of it.
#[verifier::external_body]
pub(crate) fn same_key(a: &Pubkey, b: &Pubkey) -> (same: bool)
    ensures
        same == (*a == *b),
{
    a == b
}

/// An authenticated party with the balance the ledger holds for it.
#[derive(Clone, Copy, Debug, PartialEq, Eq)]
pub struct Principal {
    /// The address that names the party.
    pub key: Pubkey,
    /// The party's balance, in lamports.
    pub lamports: u64,
}

impl Principal {
    /// This party once `amount` has been paid to it.
    pub open spec fn credited(self, amount: u64) -> Principal
        recommends
            self.lamports + amount <= u64::MAX,
    {
        Principal { lamports: (self.lamports + amount) as u64, ..self }
    }

    /// This party once it has paid `amount`.
    pub open spec fn debited(self, amount: u64) -> Principal
        recommends
            amount <= self.lamports,
    {
        Principal { lamports: (self.lamports - amount) as u64, ..self }
    }
}

} // verus!
