use vstd::prelude::*;

verus! {

/// The 32-byte identity of a program or an account owner.
#[derive(Debug, Clone, Copy)]
pub struct Pubkey {
    pub bytes: [u8; 32],
}

/// A storage account as the host hands it over: its owner's identity and
/// its mutable data buffer.
#[derive(Debug, Clone)]
pub struct Account {
    pub owner: Pubkey,
    pub data: Vec<u8>,
}

/// Whether two identities are the same.
pub fn same_key(a: &Pubkey, b: &Pubkey) -> (r: bool)
    ensures
        r == (a.bytes@ == b.bytes@),
{
    let mut i: usize = 0;
    while i < 32
        invariant
            0 <= i <= 32,
            a.bytes@.len() == 32,
            b.bytes@.len() == 32,
            forall|j: int| 0 <= j < i ==> a.bytes@[j] == b.bytes@[j],
        decreases 32 - i,
    {
        if a.bytes[i] != b.bytes[i] {
            return false;
        }
        i = i + 1;
    }
    assert(a.bytes@ =~= b.bytes@);
    true
}

} // verus!
