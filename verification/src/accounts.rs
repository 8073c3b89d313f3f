use vstd::prelude::*;

use crate::errors::ErrorKind;

verus! {

/// A native-currency account: an owner identity and a balance in the
/// smallest currency unit.
#[derive(Clone, Debug, PartialEq, Eq)]
pub struct Wallet {
    pub owner: Vec<u8>,
    pub lamports: u64,
}

/// A single-asset holding account. `owner` is the identity allowed to move
/// funds out of it; for a custody account that is a derived control
/// address, never a human key.
#[derive(Clone, Debug, PartialEq, Eq)]
pub struct TokenAccount {
    pub owner: Vec<u8>,
    pub mint: Vec<u8>,
    pub amount: u64,
}

/// Byte-for-byte comparison of two identities.
pub fn addr_eq(a: &Vec<u8>, b: &Vec<u8>) -> (r: bool)
    ensures
        r == (a@ == b@),
{
    if a.len() != b.len() {
        return false;
    }
    let mut i: usize = 0;
    while i < a.len()
        invariant
            i <= a@.len(),
            a@.len() == b@.len(),
            forall|k: int| 0 <= k < i ==> a@[k] == b@[k],
        decreases a@.len() - i,
    {
        if a[i] != b[i] {
            return false;
        }
        i += 1;
    }
    proof {
        assert(a@ =~= b@);
    }
    true
}

/// Copies an identity.
pub fn dup_bytes(v: &Vec<u8>) -> (r: Vec<u8>)
    ensures
        r@ == v@,
{
    let mut r: Vec<u8> = Vec::new();
    let mut i: usize = 0;
    while i < v.len()
        invariant
            i <= v@.len(),
            r@ == v@.subrange(0, i as int),
        decreases v@.len() - i,
    {
        r.push(v[i]);
        i += 1;
        proof {
            assert(r@ =~= v@.subrange(0, i as int));
        }
    }
    proof {
        assert(v@.subrange(0, v@.len() as int) =~= v@);
    }
    r
}

/// Moves `amount` units between two holding accounts of the same asset,
/// authorized by the source account's move-authority. Succeeds exactly when
/// the authority matches, the asset classes agree, the source covers the
/// amount, and the destination does not overflow; on any failure neither
/// account changes.
pub fn spl_transfer(
    from: &mut TokenAccount,
    to: &mut TokenAccount,
    authority: &Vec<u8>,
    amount: u64,
) -> (r: Result<(), ErrorKind>)
    ensures
        r is Ok <==> {
            &&& old(from).owner@ == authority@
            &&& old(from).mint@ == old(to).mint@
            &&& amount <= old(from).amount
            &&& old(to).amount + amount <= u64::MAX
        },
        r is Ok ==> {
            &&& final(from).amount == old(from).amount - amount
            &&& final(to).amount == old(to).amount + amount
            &&& final(from).owner == old(from).owner
            &&& final(from).mint == old(from).mint
            &&& final(to).owner == old(to).owner
            &&& final(to).mint == old(to).mint
        },
        r is Err ==> *final(from) == *old(from) && *final(to) == *old(to),
        !(old(from).owner@ == authority@ && old(from).mint@ == old(to).mint@)
            ==> r == Err::<(), ErrorKind>(ErrorKind::AuthorizationError),
        old(from).owner@ == authority@ && old(from).mint@ == old(to).mint@
            && amount > old(from).amount
            ==> r == Err::<(), ErrorKind>(ErrorKind::ArithmeticError),
        old(from).owner@ == authority@ && old(from).mint@ == old(to).mint@
            && amount <= old(from).amount && old(to).amount + amount > u64::MAX
            ==> r == Err::<(), ErrorKind>(ErrorKind::ArithmeticError),
{
    if !addr_eq(&from.owner, authority) {
        return Err(ErrorKind::AuthorizationError);
    }
    if !addr_eq(&from.mint, &to.mint) {
        return Err(ErrorKind::AuthorizationError);
    }
    if amount > from.amount {
        return Err(ErrorKind::ArithmeticError);
    }
    if to.amount > u64::MAX - amount {
        return Err(ErrorKind::ArithmeticError);
    }
    from.amount = from.amount - amount;
    to.amount = to.amount + amount;
    Ok(())
}

} // verus!
