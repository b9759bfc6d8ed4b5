//! The seeds from which the address that has authority over a beam's vault
//! is derived.

use vstd::prelude::*;
use crate::pubkey::Pubkey;

verus! {

/// The bytes of the text `vault-authority`.
pub open spec fn vault_authority_bytes() -> Seq<u8> {
    seq![118u8, 97u8, 117u8, 108u8, 116u8, 45u8, 97u8, 117u8, 116u8, 104u8, 111u8, 114u8, 105u8, 116u8, 121u8]
}

/// The bytes of the text `vault-authority`.
pub fn vault_authority() -> (result: [u8; 15])
    ensures
        result@ == vault_authority_bytes(),
{
    let bytes: [u8; 15] = [118, 97, 117, 108, 116, 45, 97, 117, 116, 104, 111, 114, 105, 116, 121];
    assert(bytes@ =~= vault_authority_bytes());
    bytes
}

/// The three seeds of a vault authority: the address of the beam's state,
/// the text `vault-authority`, and the bump.
pub struct VaultAuthoritySeed {
    state_address: Vec<u8>,
    vault_authority: Vec<u8>,
    bump: Vec<u8>,
}

impl VaultAuthoritySeed {
    /// The address of the state that the seeds are of.
    pub closed spec fn state_address(&self) -> Seq<u8> {
        self.state_address@
    }

    /// The text among the seeds.
    pub closed spec fn text(&self) -> Seq<u8> {
        self.vault_authority@
    }

    /// The bump among the seeds.
    pub closed spec fn bump(&self) -> Seq<u8> {
        self.bump@
    }

    /// The seeds of the vault authority of the state at `state_address`,
    /// which keeps `vault_authority_bump` as the bump.
    pub fn new(state_address: &Pubkey, vault_authority_bump: u8) -> (result: Self)
        ensures
            result.state_address() == state_address.bytes@,
            result.text() == vault_authority_bytes(),
            result.bump() == seq![vault_authority_bump],
    {
        let mut address: Vec<u8> = Vec::new();
        let mut i: usize = 0;
        while i < 32
            invariant
                i <= 32,
                address@ == state_address.bytes@.take(i as int),
            decreases 32 - i,
        {
            address.push(state_address.bytes[i]);
            i = i + 1;
            assert(address@ =~= state_address.bytes@.take(i as int));
        }
        assert(address@ =~= state_address.bytes@);
        let text = vault_authority();
        let mut vault_authority: Vec<u8> = Vec::new();
        let mut k: usize = 0;
        while k < 15
            invariant
                k <= 15,
                vault_authority@ == text@.take(k as int),
            decreases 15 - k,
        {
            vault_authority.push(text[k]);
            k = k + 1;
            assert(vault_authority@ =~= text@.take(k as int));
        }
        assert(vault_authority@ =~= text@);
        let mut bump: Vec<u8> = Vec::new();
        bump.push(vault_authority_bump);
        assert(bump@ =~= seq![vault_authority_bump]);
        VaultAuthoritySeed { state_address: address, vault_authority, bump }
    }

    /// The three seeds, in the order in which the address is derived from
    /// them.
    pub fn as_slices(&self) -> (result: [&[u8]; 3])
        ensures
            result@[0]@ == self.state_address(),
            result@[1]@ == self.text(),
            result@[2]@ == self.bump(),
    {
        [self.state_address.as_slice(), self.vault_authority.as_slice(), self.bump.as_slice()]
    }
}

} // verus!
