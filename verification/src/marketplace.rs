use vstd::prelude::*;

use crate::accounts::{addr_eq, dup_bytes, spl_transfer, TokenAccount, Wallet};
use crate::derivation::{create_control, created_control, derived_control, try_find_control};
use crate::errors::ErrorKind;
use crate::policy::{settlement_split, Split, MAX_FEE_BPS};

verus! {

/// Root configuration of one marketplace: process-wide parameters read by
/// every settlement and mutated only by an administrative authority.
#[derive(Clone, Debug, PartialEq, Eq)]
pub struct Marketplace {
    /// The administrative authority's identity.
    pub admin: Vec<u8>,
    /// Fee setting, denominated like basis points but applied by settlement
    /// as an absolute deduction from the price (see `policy`).
    pub fee: u16,
    /// Derivation nonce of the root's own control address.
    pub bump: u8,
    /// Derivation nonce of the treasury control address.
    pub treasury_bump: u8,
    /// Derivation nonce of the reward-issuing control address.
    pub rewards_bump: u8,
    /// Human-readable name; at most 32 bytes, it is a naming seed.
    pub name: Vec<u8>,
}

/// The durable record of one live offer: owner, asset, price, and the
/// derivation nonce that lets later instructions reconstruct the record's
/// control address for signing.
#[derive(Clone, Debug, PartialEq, Eq)]
pub struct Listing {
    pub maker: Vec<u8>,
    pub maker_mint: Vec<u8>,
    pub price: u64,
    pub bump: u8,
}

/// One live custody arrangement: the offer record, the custody account
/// holding exactly one unit of the asset, and the record's derived control
/// address, which is the custody account's move-authority.
#[derive(Clone, Debug, PartialEq, Eq)]
pub struct Escrow {
    pub listing: Listing,
    pub vault: TokenAccount,
    pub address: Vec<u8>,
}

/// Naming seeds of an offer record's control address: the root's address and
/// the asset identity. One asset under one root names exactly one record
/// address, which is what makes a second live offer for the same asset
/// structurally impossible.
pub open spec fn listing_seeds(market_address: Seq<u8>, mint: Seq<u8>) -> Seq<Seq<u8>> {
    seq![market_address, mint]
}

/// The same seeds extended with the stored nonce: what a later instruction
/// presents to reconstruct the record's control address and act as the
/// custody move-authority.
pub open spec fn signer_seeds(market_address: Seq<u8>, mint: Seq<u8>, bump: u8) -> Seq<Seq<u8>> {
    seq![market_address, mint, seq![bump]]
}

/// Seed tag of the root configuration address (the bytes of "marketplace").
pub open spec fn spec_marketplace_tag() -> Seq<u8> {
    seq![109u8, 97u8, 114u8, 107u8, 101u8, 116u8, 112u8, 108u8, 97u8, 99u8, 101u8]
}

/// Seed tag of the treasury address (the bytes of "treasury").
pub open spec fn spec_treasury_tag() -> Seq<u8> {
    seq![116u8, 114u8, 101u8, 97u8, 115u8, 117u8, 114u8, 121u8]
}

/// Seed tag of the reward-issuing address (the bytes of "rewards").
pub open spec fn spec_rewards_tag() -> Seq<u8> {
    seq![114u8, 101u8, 119u8, 97u8, 114u8, 100u8, 115u8]
}

/// Naming seeds of the root configuration address.
pub open spec fn market_seeds(name: Seq<u8>) -> Seq<Seq<u8>> {
    seq![spec_marketplace_tag(), name]
}

/// Naming seeds of the treasury address under a root.
pub open spec fn treasury_seeds(market_address: Seq<u8>) -> Seq<Seq<u8>> {
    seq![spec_treasury_tag(), market_address]
}

/// Naming seeds of the reward-issuing address under a root.
pub open spec fn rewards_seeds(market_address: Seq<u8>) -> Seq<Seq<u8>> {
    seq![spec_rewards_tag(), market_address]
}

fn marketplace_tag() -> (r: Vec<u8>)
    ensures
        r@ == spec_marketplace_tag(),
{
    let mut r: Vec<u8> = Vec::new();
    r.push(109);
    r.push(97);
    r.push(114);
    r.push(107);
    r.push(101);
    r.push(116);
    r.push(112);
    r.push(108);
    r.push(97);
    r.push(99);
    r.push(101);
    proof {
        assert(r@ =~= spec_marketplace_tag());
    }
    r
}

fn treasury_tag() -> (r: Vec<u8>)
    ensures
        r@ == spec_treasury_tag(),
{
    let mut r: Vec<u8> = Vec::new();
    r.push(116);
    r.push(114);
    r.push(101);
    r.push(97);
    r.push(115);
    r.push(117);
    r.push(114);
    r.push(121);
    proof {
        assert(r@ =~= spec_treasury_tag());
    }
    r
}

fn rewards_tag() -> (r: Vec<u8>)
    ensures
        r@ == spec_rewards_tag(),
{
    let mut r: Vec<u8> = Vec::new();
    r.push(114);
    r.push(101);
    r.push(119);
    r.push(97);
    r.push(114);
    r.push(100);
    r.push(115);
    proof {
        assert(r@ =~= spec_rewards_tag());
    }
    r
}

/// Builds the two-seed sequence `[head, tail]`.
fn seed_pair(head: Vec<u8>, tail: &Vec<u8>) -> (r: Vec<Vec<u8>>)
    ensures
        r.deep_view() == seq![head@, tail@],
{
    let ghost h = head@;
    let mut r: Vec<Vec<u8>> = Vec::new();
    r.push(head);
    r.push(dup_bytes(tail));
    proof {
        assert(r.deep_view() =~~= seq![h, tail@]);
    }
    r
}

/// Builds the three-seed sequence `[head, tail, [bump]]`.
fn seed_triple(head: &Vec<u8>, tail: &Vec<u8>, bump: u8) -> (r: Vec<Vec<u8>>)
    ensures
        r.deep_view() == signer_seeds(head@, tail@, bump),
{
    let mut nonce: Vec<u8> = Vec::new();
    nonce.push(bump);
    let mut r: Vec<Vec<u8>> = Vec::new();
    r.push(dup_bytes(head));
    r.push(dup_bytes(tail));
    r.push(nonce);
    proof {
        assert(seq![bump] =~= r.deep_view()[2]);
        assert(r.deep_view() =~~= signer_seeds(head@, tail@, bump));
    }
    r
}

impl Escrow {
    /// Well-formedness of one live offer under a root: the custody account
    /// holds exactly one unit of the offered asset, its move-authority is
    /// the record's control address, and the stored nonce reconstructs
    /// exactly that address.
    pub open spec fn wf(self, market_address: Seq<u8>, program_id: Seq<u8>) -> bool {
        &&& self.listing.maker@.len() == 32
        &&& self.listing.maker_mint@.len() == 32
        &&& self.address@.len() == 32
        &&& self.vault.mint@ == self.listing.maker_mint@
        &&& self.vault.owner@ == self.address@
        &&& self.vault.amount == 1
        &&& created_control(
            signer_seeds(market_address, self.listing.maker_mint@, self.listing.bump),
            program_id,
        ) == Some(self.address@)
    }
}

/// The whole state one root governs: its configuration, the derived
/// treasury and reward addresses, every live offer with its custody
/// account, the treasury balance, and how many reward units were issued.
#[derive(Clone, Debug, PartialEq, Eq)]
pub struct Market {
    pub program_id: Vec<u8>,
    /// The root's own derived control address.
    pub address: Vec<u8>,
    pub marketplace: Marketplace,
    pub treasury_address: Vec<u8>,
    pub rewards_address: Vec<u8>,
    pub escrows: Vec<Escrow>,
    pub treasury_lamports: u64,
    pub rewards_minted: u64,
}

impl Market {
    /// Invariant of every reachable market state: the fee setting is in
    /// range, every live offer is well formed, and no two live offers name
    /// the same asset.
    pub open spec fn wf(self) -> bool {
        &&& self.program_id@.len() == 32
        &&& self.address@.len() == 32
        &&& self.marketplace.fee <= MAX_FEE_BPS
        &&& self.marketplace.name@.len() <= 32
        &&& forall|i: int|
            0 <= i < self.escrows@.len() ==> (#[trigger] self.escrows@[i]).wf(
                self.address@,
                self.program_id@,
            )
        &&& forall|i: int, j: int|
            0 <= i < j < self.escrows@.len()
                ==> (#[trigger] self.escrows@[i]).listing.maker_mint@ != (
            #[trigger] self.escrows@[j]).listing.maker_mint@
    }

    /// Whether a live offer exists for the asset `mint`.
    pub open spec fn has_live_offer(self, mint: Seq<u8>) -> bool {
        exists|i: int|
            0 <= i < self.escrows@.len() && (#[trigger] self.escrows@[i]).listing.maker_mint@
                == mint
    }

    /// The index of the live offer for `mint`; under `wf` it is unique.
    pub open spec fn offer_index(self, mint: Seq<u8>) -> int {
        choose|i: int|
            0 <= i < self.escrows@.len() && (#[trigger] self.escrows@[i]).listing.maker_mint@
                == mint
    }

    /// Everything of a market that offers do not touch: the configuration
    /// and the derived addresses.
    pub open spec fn same_root(self, other: Market) -> bool {
        &&& self.program_id == other.program_id
        &&& self.address == other.address
        &&& self.marketplace == other.marketplace
        &&& self.treasury_address == other.treasury_address
        &&& self.rewards_address == other.rewards_address
    }

    /// Scans the live offers for the asset `mint`.
    fn find_escrow(&self, mint: &Vec<u8>) -> (r: Option<usize>)
        ensures
            match r {
                Some(i) => i < self.escrows@.len() && self.escrows@[i as int].listing.maker_mint@
                    == mint@,
                None => !self.has_live_offer(mint@),
            },
    {
        let mut i: usize = 0;
        while i < self.escrows.len()
            invariant
                i <= self.escrows@.len(),
                forall|k: int|
                    0 <= k < i ==> (#[trigger] self.escrows@[k]).listing.maker_mint@ != mint@,
            decreases self.escrows@.len() - i,
        {
            if addr_eq(&self.escrows[i].listing.maker_mint, mint) {
                return Some(i);
            }
            i += 1;
        }
        None
    }
}

/// When creating/refreshing a root configuration succeeds: the fee setting
/// and name are in range and all three control addresses can be derived.
pub open spec fn initialize_ok(program_id: Seq<u8>, name: Seq<u8>, fee: u16) -> bool {
    &&& fee <= MAX_FEE_BPS
    &&& name.len() <= 32
    &&& derived_control(market_seeds(name), program_id) matches Some(ab) && {
        &&& derived_control(treasury_seeds(ab.0), program_id) is Some
        &&& derived_control(rewards_seeds(ab.0), program_id) is Some
    }
}

/// Creates (or, run again with the same name, refreshes) the root
/// configuration: derives the root control address and its treasury and
/// reward-issuing addresses and stores their nonces. Rejects a fee setting
/// above `MAX_FEE_BPS` or a name over 32 bytes before anything else.
pub fn initialize(program_id: Vec<u8>, admin: Vec<u8>, name: Vec<u8>, fee: u16) -> (r: Result<
    Market,
    ErrorKind,
>)
    requires
        program_id@.len() == 32,
    ensures
        r is Ok <==> initialize_ok(program_id@, name@, fee),
        r is Err ==> r == Err::<Market, ErrorKind>(ErrorKind::ConfigurationError),
        r matches Ok(m) ==> {
            &&& m.wf()
            &&& m.program_id@ == program_id@
            &&& m.marketplace.admin@ == admin@
            &&& m.marketplace.fee == fee
            &&& m.marketplace.name@ == name@
            &&& m.escrows@.len() == 0
            &&& m.treasury_lamports == 0
            &&& m.rewards_minted == 0
            &&& derived_control(market_seeds(name@), program_id@) == Some(
                (m.address@, m.marketplace.bump),
            )
            &&& derived_control(treasury_seeds(m.address@), program_id@) == Some(
                (m.treasury_address@, m.marketplace.treasury_bump),
            )
            &&& derived_control(rewards_seeds(m.address@), program_id@) == Some(
                (m.rewards_address@, m.marketplace.rewards_bump),
            )
        },
{
    if fee > MAX_FEE_BPS {
        return Err(ErrorKind::ConfigurationError);
    }
    if name.len() > 32 {
        return Err(ErrorKind::ConfigurationError);
    }
    let market_seed_vec = seed_pair(marketplace_tag(), &name);
    let (address, bump) = match try_find_control(&market_seed_vec, &program_id) {
        Some(ab) => ab,
        None => {
            return Err(ErrorKind::ConfigurationError);
        },
    };
    let treasury_seed_vec = seed_pair(treasury_tag(), &address);
    let (treasury_address, treasury_bump) = match try_find_control(
        &treasury_seed_vec,
        &program_id,
    ) {
        Some(ab) => ab,
        None => {
            return Err(ErrorKind::ConfigurationError);
        },
    };
    let rewards_seed_vec = seed_pair(rewards_tag(), &address);
    let (rewards_address, rewards_bump) = match try_find_control(&rewards_seed_vec, &program_id) {
        Some(ab) => ab,
        None => {
            return Err(ErrorKind::ConfigurationError);
        },
    };
    Ok(
        Market {
            program_id,
            address,
            marketplace: Marketplace { admin, fee, bump, treasury_bump, rewards_bump, name },
            treasury_address,
            rewards_address,
            escrows: Vec::new(),
            treasury_lamports: 0,
            rewards_minted: 0,
        },
    )
}

/// When opening an offer succeeds: no live offer exists for the asset, the
/// supplied holding account belongs to the owner, holds the asset, covers
/// one unit, and the record's control address can be derived.
pub open spec fn listing_ok(m: Market, ata: TokenAccount, maker: Seq<u8>, mint: Seq<u8>) -> bool {
    &&& !m.has_live_offer(mint)
    &&& ata.owner@ == maker
    &&& ata.mint@ == mint
    &&& ata.amount >= 1
    &&& derived_control(listing_seeds(m.address@, mint), m.program_id@) is Some
}

/// How a successful `listing` call relates the state before (`m0`, `a0`) to
/// the state after (`m1`, `a1`): one unit moved from the owner's holding
/// account into a fresh custody account, paired with a fresh record that
/// stores the owner, the asset, the price, and the derivation nonce;
/// nothing else changed.
pub open spec fn listing_rel(
    m0: Market,
    a0: TokenAccount,
    m1: Market,
    a1: TokenAccount,
    maker: Seq<u8>,
    mint: Seq<u8>,
    price: u64,
) -> bool {
    &&& listing_ok(m0, a0, maker, mint)
    &&& a1.owner == a0.owner
    &&& a1.mint == a0.mint
    &&& a1.amount == a0.amount - 1
    &&& m1.same_root(m0)
    &&& m1.treasury_lamports == m0.treasury_lamports
    &&& m1.rewards_minted == m0.rewards_minted
    &&& m1.escrows@.len() == m0.escrows@.len() + 1
    &&& m1.escrows@.drop_last() == m0.escrows@
    &&& ({
        let e = m1.escrows@.last();
        &&& e.listing.maker@ == maker
        &&& e.listing.maker_mint@ == mint
        &&& e.listing.price == price
        &&& e.vault.amount == 1
        &&& e.vault.mint@ == mint
        &&& e.vault.owner@ == e.address@
        &&& derived_control(listing_seeds(m0.address@, mint), m0.program_id@) == Some(
            (e.address@, e.listing.bump),
        )
    })
}

impl Market {
    /// Opens an offer for `price`: creates the offer record at its derived
    /// address, opens the paired custody account, and moves exactly one
    /// unit of the asset from the owner's holding account into custody.
    ///
    /// Fails with `CapacityError` if a live offer for the asset already
    /// exists (its derived record address is occupied), leaving the
    /// existing record and custody untouched; with `AuthorizationError` if
    /// the holding account is not the owner's account for this asset or no
    /// control address can be derived; with `ArithmeticError` if the
    /// holding account does not cover one unit. On any failure nothing
    /// changes.
    pub fn listing(
        &mut self,
        maker: &Vec<u8>,
        maker_mint: &Vec<u8>,
        maker_ata: &mut TokenAccount,
        price: u64,
    ) -> (r: Result<(), ErrorKind>)
        requires
            old(self).wf(),
            maker@.len() == 32,
            maker_mint@.len() == 32,
        ensures
            final(self).wf(),
            r is Ok <==> listing_ok(*old(self), *old(maker_ata), maker@, maker_mint@),
            r is Ok ==> listing_rel(
                *old(self),
                *old(maker_ata),
                *final(self),
                *final(maker_ata),
                maker@,
                maker_mint@,
                price,
            ),
            r is Err ==> *final(self) == *old(self) && *final(maker_ata) == *old(maker_ata),
            old(self).has_live_offer(maker_mint@) ==> r == Err::<(), ErrorKind>(
                ErrorKind::CapacityError,
            ),
            !old(self).has_live_offer(maker_mint@) && !(old(maker_ata).owner@ == maker@ && old(
                maker_ata,
            ).mint@ == maker_mint@) ==> r == Err::<(), ErrorKind>(ErrorKind::AuthorizationError),
            !old(self).has_live_offer(maker_mint@) && old(maker_ata).owner@ == maker@ && old(
                maker_ata,
            ).mint@ == maker_mint@ && old(maker_ata).amount < 1 ==> r == Err::<(), ErrorKind>(
                ErrorKind::ArithmeticError,
            ),
    {
        if let Some(_) = self.find_escrow(maker_mint) {
            return Err(ErrorKind::CapacityError);
        }
        if !addr_eq(&maker_ata.owner, maker) || !addr_eq(&maker_ata.mint, maker_mint) {
            return Err(ErrorKind::AuthorizationError);
        }
        if maker_ata.amount < 1 {
            return Err(ErrorKind::ArithmeticError);
        }
        let record_seed_vec = seed_pair(dup_bytes(&self.address), maker_mint);
        let (record_address, bump) = match try_find_control(&record_seed_vec, &self.program_id) {
            Some(ab) => ab,
            None => {
                return Err(ErrorKind::AuthorizationError);
            },
        };
        maker_ata.amount = maker_ata.amount - 1;
        let vault = TokenAccount {
            owner: dup_bytes(&record_address),
            mint: dup_bytes(maker_mint),
            amount: 1,
        };
        let escrow = Escrow {
            listing: Listing {
                maker: dup_bytes(maker),
                maker_mint: dup_bytes(maker_mint),
                price,
                bump,
            },
            vault,
            address: record_address,
        };
        self.escrows.push(escrow);
        proof {
            let pre = *old(self);
            let es = self.escrows@;
            let n = pre.escrows@.len() as int;
            assert(es.drop_last() =~= pre.escrows@);
            assert(record_seed_vec.deep_view().push(seq![bump]) =~~= signer_seeds(
                pre.address@,
                maker_mint@,
                bump,
            ));
            assert(es.last().wf(self.address@, self.program_id@));
            assert forall|i: int, j: int| 0 <= i < j < es.len() implies (
            #[trigger] es[i]).listing.maker_mint@ != (#[trigger] es[j]).listing.maker_mint@ by {
                assert(es[i] == pre.escrows@[i]);
                if j < n {
                    assert(es[j] == pre.escrows@[j]);
                } else {
                    assert(pre.escrows@[i].listing.maker_mint@ != maker_mint@);
                }
            }
        }
        Ok(())
    }
}

/// The uniqueness behind the at-most-one-live-offer guarantee: in a
/// well-formed market, any index holding an offer for `mint` is the unique
/// such index, so it is the one `offer_index` denotes.
pub proof fn lemma_offer_index_unique(m: Market, mint: Seq<u8>, i: int)
    requires
        m.wf(),
        0 <= i < m.escrows@.len(),
        m.escrows@[i].listing.maker_mint@ == mint,
    ensures
        m.has_live_offer(mint),
        m.offer_index(mint) == i,
{
    assert(m.has_live_offer(mint));
    let j = m.offer_index(mint);
    if i < j {
        assert(m.escrows@[i].listing.maker_mint@ != m.escrows@[j].listing.maker_mint@);
    } else if j < i {
        assert(m.escrows@[j].listing.maker_mint@ != m.escrows@[i].listing.maker_mint@);
    }
}

/// At-most-one-live-offer law: two live offers for the same asset under a
/// well-formed root are the same offer. (That an `open-offer` attempt on an
/// occupied asset fails with `CapacityError` and changes nothing is stated
/// by `Market::listing`.)
pub proof fn lemma_at_most_one_live_offer(m: Market, mint: Seq<u8>, i: int, j: int)
    requires
        m.wf(),
        0 <= i < m.escrows@.len(),
        0 <= j < m.escrows@.len(),
        m.escrows@[i].listing.maker_mint@ == mint,
        m.escrows@[j].listing.maker_mint@ == mint,
    ensures
        i == j,
{
    lemma_offer_index_unique(m, mint, i);
    lemma_offer_index_unique(m, mint, j);
}

/// Custody/record coupling law: in a well-formed market every live record's
/// custody account holds exactly one unit, and a custody account holding an
/// asset exists exactly when the record for that asset exists. Custody
/// accounts are created and destroyed only together with their record, so
/// no state ever pairs a closed record with nonzero custody or an open
/// record with empty custody.
pub proof fn lemma_custody_record_coupling(m: Market, mint: Seq<u8>)
    requires
        m.wf(),
    ensures
        forall|i: int| 0 <= i < m.escrows@.len() ==> (#[trigger] m.escrows@[i]).vault.amount == 1,
        m.has_live_offer(mint) <==> exists|i: int|
            0 <= i < m.escrows@.len() && (#[trigger] m.escrows@[i]).vault.mint@ == mint
                && m.escrows@[i].vault.amount == 1,
{
    if m.has_live_offer(mint) {
        let i = m.offer_index(mint);
        assert(m.escrows@[i].vault.mint@ == mint && m.escrows@[i].vault.amount == 1);
    }
    if exists|i: int|
        0 <= i < m.escrows@.len() && (#[trigger] m.escrows@[i]).vault.mint@ == mint
            && m.escrows@[i].vault.amount == 1 {
        let i = choose|i: int|
            0 <= i < m.escrows@.len() && (#[trigger] m.escrows@[i]).vault.mint@ == mint
                && m.escrows@[i].vault.amount == 1;
        assert(m.escrows@[i].listing.maker_mint@ == mint);
    }
}

/// Removing the offer at `offer_index(mint)` from a well-formed market
/// leaves a well-formed market with no live offer for `mint`.
proof fn lemma_wf_after_remove(pre: Market, post: Market, mint: Seq<u8>)
    requires
        pre.wf(),
        pre.has_live_offer(mint),
        post.escrows@ == pre.escrows@.remove(pre.offer_index(mint)),
        post.same_root(pre),
    ensures
        post.wf(),
        !post.has_live_offer(mint),
{
    let k = pre.offer_index(mint);
    pre.escrows@.remove_ensures(k);
    assert forall|i: int| 0 <= i < post.escrows@.len() implies (#[trigger] post.escrows@[i]).wf(
        post.address@,
        post.program_id@,
    ) && post.escrows@[i].listing.maker_mint@ != mint by {
        if i < k {
            assert(post.escrows@[i] == pre.escrows@[i]);
            lemma_offer_index_unique(pre, mint, k);
            if pre.escrows@[i].listing.maker_mint@ == mint {
                lemma_offer_index_unique(pre, mint, i);
            }
        } else {
            assert(post.escrows@[i] == pre.escrows@[i + 1]);
            if pre.escrows@[i + 1].listing.maker_mint@ == mint {
                lemma_offer_index_unique(pre, mint, i + 1);
                lemma_offer_index_unique(pre, mint, k);
            }
        }
    }
    assert forall|i: int, j: int| 0 <= i < j < post.escrows@.len() implies (
    #[trigger] post.escrows@[i]).listing.maker_mint@ != (
    #[trigger] post.escrows@[j]).listing.maker_mint@ by {
        let pi: int = if i < k { i } else { i + 1 };
        let pj: int = if j < k { j } else { j + 1 };
        assert(post.escrows@[i] == pre.escrows@[pi]);
        assert(post.escrows@[j] == pre.escrows@[pj]);
    }
}

/// When cancelling the offer for `mint` succeeds: the record exists, its
/// stored owner is the co-signing owner, the supplied holding account is
/// the owner's account for the asset with room for one more unit, the
/// stored nonce reconstructs the record's control address, and custody
/// holds exactly one unit.
pub open spec fn delist_ok(m: Market, ata: TokenAccount, maker: Seq<u8>, mint: Seq<u8>) -> bool {
    &&& m.has_live_offer(mint)
    &&& ({
        let e = m.escrows@[m.offer_index(mint)];
        &&& e.listing.maker@ == maker
        &&& ata.owner@ == maker
        &&& ata.mint@ == mint
        &&& ata.amount + 1 <= u64::MAX
        &&& created_control(signer_seeds(m.address@, mint, e.listing.bump), m.program_id@)
            == Some(e.address@)
        &&& e.vault.amount == 1
    })
}

/// How a successful `delist` call relates the state before (`m1`, `a1`) to
/// the state after (`m2`, `a2`): the custodied unit returned to the owner's
/// holding account, the record and the custody account both gone, nothing
/// else changed.
pub open spec fn delist_rel(
    m1: Market,
    a1: TokenAccount,
    m2: Market,
    a2: TokenAccount,
    maker: Seq<u8>,
    mint: Seq<u8>,
) -> bool {
    &&& delist_ok(m1, a1, maker, mint)
    &&& a2.owner == a1.owner
    &&& a2.mint == a1.mint
    &&& a2.amount == a1.amount + 1
    &&& m2.same_root(m1)
    &&& m2.treasury_lamports == m1.treasury_lamports
    &&& m2.rewards_minted == m1.rewards_minted
    &&& m2.escrows@ == m1.escrows@.remove(m1.offer_index(mint))
    &&& !m2.has_live_offer(mint)
}

impl Market {
    /// Closes the custody pairing at index `i`: the record leaves storage
    /// and the custody account is handed back to be emptied and dropped in
    /// the same atomic step.
    pub fn close_mint_vault(&mut self, i: usize) -> (e: Escrow)
        requires
            i < old(self).escrows@.len(),
        ensures
            e == old(self).escrows@[i as int],
            final(self).escrows@ == old(self).escrows@.remove(i as int),
            final(self).same_root(*old(self)),
            final(self).treasury_lamports == old(self).treasury_lamports,
            final(self).rewards_minted == old(self).rewards_minted,
    {
        self.escrows.remove(i)
    }

    /// Cancels the offer for `maker_mint`: using the derived move-authority
    /// reconstructed from the stored nonce, transfers the custodied unit
    /// back to the owner's holding account, then closes the custody account
    /// and the offer record, all in one atomic unit.
    ///
    /// Fails with `AuthorizationError` if no record exists for the asset,
    /// the co-signer is not the stored owner, the holding account is not
    /// the owner's account for the asset, or the reconstructed authority
    /// does not match; with `ArithmeticError` if returning the unit would
    /// overflow the holding account; with `ConsistencyError` if custody
    /// does not hold exactly one unit (impossible in a well-formed market,
    /// checked anyway). On any failure nothing changes.
    pub fn delist(
        &mut self,
        maker: &Vec<u8>,
        maker_mint: &Vec<u8>,
        maker_ata: &mut TokenAccount,
    ) -> (r: Result<(), ErrorKind>)
        requires
            old(self).wf(),
        ensures
            final(self).wf(),
            r is Ok <==> delist_ok(*old(self), *old(maker_ata), maker@, maker_mint@),
            r is Ok ==> delist_rel(
                *old(self),
                *old(maker_ata),
                *final(self),
                *final(maker_ata),
                maker@,
                maker_mint@,
            ),
            r is Err ==> *final(self) == *old(self) && *final(maker_ata) == *old(maker_ata),
            !old(self).has_live_offer(maker_mint@) ==> r == Err::<(), ErrorKind>(
                ErrorKind::AuthorizationError,
            ),
            old(self).has_live_offer(maker_mint@) && !(old(self).escrows@[old(self).offer_index(
                maker_mint@,
            )].listing.maker@ == maker@ && old(maker_ata).owner@ == maker@ && old(
                maker_ata,
            ).mint@ == maker_mint@) ==> r == Err::<(), ErrorKind>(ErrorKind::AuthorizationError),
            old(self).has_live_offer(maker_mint@) && old(self).escrows@[old(self).offer_index(
                maker_mint@,
            )].listing.maker@ == maker@ && old(maker_ata).owner@ == maker@ && old(
                maker_ata,
            ).mint@ == maker_mint@ && old(maker_ata).amount == u64::MAX ==> r == Err::<
                (),
                ErrorKind,
            >(ErrorKind::ArithmeticError),
    {
        let idx = match self.find_escrow(maker_mint) {
            Some(i) => i,
            None => {
                return Err(ErrorKind::AuthorizationError);
            },
        };
        proof {
            lemma_offer_index_unique(*old(self), maker_mint@, idx as int);
        }
        if !addr_eq(&self.escrows[idx].listing.maker, maker) {
            return Err(ErrorKind::AuthorizationError);
        }
        if !addr_eq(&maker_ata.owner, maker) || !addr_eq(&maker_ata.mint, maker_mint) {
            return Err(ErrorKind::AuthorizationError);
        }
        let seeds = seed_triple(&self.address, maker_mint, self.escrows[idx].listing.bump);
        let authority_ok = match create_control(&seeds, &self.program_id) {
            Some(a) => addr_eq(&a, &self.escrows[idx].address),
            None => false,
        };
        if !authority_ok {
            return Err(ErrorKind::AuthorizationError);
        }
        if self.escrows[idx].vault.amount != 1 {
            return Err(ErrorKind::ConsistencyError);
        }
        if maker_ata.amount == u64::MAX {
            return Err(ErrorKind::ArithmeticError);
        }
        let mut e = self.close_mint_vault(idx);
        let amount = e.vault.amount;
        match spl_transfer(&mut e.vault, maker_ata, &e.address, amount) {
            Ok(()) => {},
            Err(k) => {
                return Err(k);
            },
        }
        proof {
            lemma_wf_after_remove(*old(self), *self, maker_mint@);
        }
        Ok(())
    }
}

/// The accounts a settlement touches on the buyer's and the seller's side:
/// the buyer's wallet (co-signer and payer), the seller's wallet, the
/// buyer's holding account for the asset, and the buyer's holding account
/// for the reward asset.
#[derive(Clone, Debug, PartialEq, Eq)]
pub struct Purchase {
    pub taker: Wallet,
    pub maker: Wallet,
    pub taker_ata: TokenAccount,
    pub taker_ata_reward: TokenAccount,
}

impl Purchase {
    /// Payment-split leg: the buyer pays the proceeds to the seller and the
    /// fee to the treasury, both signed by the buyer directly, who is
    /// spending their own funds.
    pub fn send_sol(&mut self, split: Split, treasury_lamports: &mut u64)
        requires
            old(self).taker.lamports >= split.proceeds + split.fee,
            old(self).maker.lamports + split.proceeds <= u64::MAX,
            *old(treasury_lamports) + split.fee <= u64::MAX,
        ensures
            final(self).taker.lamports == old(self).taker.lamports - (split.proceeds
                + split.fee),
            final(self).maker.lamports == old(self).maker.lamports + split.proceeds,
            *final(treasury_lamports) == *old(treasury_lamports) + split.fee,
            final(self).taker.owner == old(self).taker.owner,
            final(self).maker.owner == old(self).maker.owner,
            final(self).taker_ata == old(self).taker_ata,
            final(self).taker_ata_reward == old(self).taker_ata_reward,
    {
        self.taker.lamports = self.taker.lamports - split.proceeds;
        self.taker.lamports = self.taker.lamports - split.fee;
        self.maker.lamports = self.maker.lamports + split.proceeds;
        *treasury_lamports = *treasury_lamports + split.fee;
    }

    /// Asset-delivery leg: the derived move-authority transfers the
    /// custodied unit from the vault to the buyer's holding account.
    pub fn receive_nft(&mut self, vault: &mut TokenAccount, authority: &Vec<u8>) -> (r: Result<
        (),
        ErrorKind,
    >)
        ensures
            r is Ok <==> {
                &&& old(vault).owner@ == authority@
                &&& old(vault).mint@ == old(self).taker_ata.mint@
                &&& old(self).taker_ata.amount + old(vault).amount <= u64::MAX
            },
            r is Ok ==> {
                &&& final(vault).amount == 0
                &&& final(self).taker_ata.amount == old(self).taker_ata.amount + old(
                    vault,
                ).amount
                &&& final(self).taker_ata.owner == old(self).taker_ata.owner
                &&& final(self).taker_ata.mint == old(self).taker_ata.mint
                &&& final(vault).owner == old(vault).owner
                &&& final(vault).mint == old(vault).mint
            },
            r is Err ==> *final(self) == *old(self) && *final(vault) == *old(vault),
            final(self).taker == old(self).taker,
            final(self).maker == old(self).maker,
            final(self).taker_ata_reward == old(self).taker_ata_reward,
    {
        let amount = vault.amount;
        spl_transfer(vault, &mut self.taker_ata, authority, amount)
    }

    /// Reward-issuance leg: the root's reward-issuing authority mints
    /// exactly one unit of the reward asset to the buyer, unconditionally
    /// per successful purchase, independent of price.
    pub fn receive_rewards(&mut self, rewards_minted: &mut u64)
        requires
            old(self).taker_ata_reward.amount < u64::MAX,
            *old(rewards_minted) < u64::MAX,
        ensures
            final(self).taker_ata_reward.amount == old(self).taker_ata_reward.amount + 1,
            *final(rewards_minted) == *old(rewards_minted) + 1,
            final(self).taker_ata_reward.owner == old(self).taker_ata_reward.owner,
            final(self).taker_ata_reward.mint == old(self).taker_ata_reward.mint,
            final(self).taker == old(self).taker,
            final(self).maker == old(self).maker,
            final(self).taker_ata == old(self).taker_ata,
    {
        self.taker_ata_reward.amount = self.taker_ata_reward.amount + 1;
        *rewards_minted = *rewards_minted + 1;
    }
}

/// Whether the supplied settlement accounts are wired to the record for
/// `mint`: the seller wallet is the stored owner's, and both buyer holding
/// accounts belong to the buyer and hold the right asset classes.
pub open spec fn purchase_wired(m: Market, p: Purchase, mint: Seq<u8>) -> bool {
    let e = m.escrows@[m.offer_index(mint)];
    &&& e.listing.maker@ == p.maker.owner@
    &&& p.taker_ata.owner@ == p.taker.owner@
    &&& p.taker_ata.mint@ == mint
    &&& p.taker_ata_reward.owner@ == p.taker.owner@
    &&& p.taker_ata_reward.mint@ == m.rewards_address@
}

/// Whether every settlement leg is covered: the buyer can pay the whole
/// price and no receiving balance would overflow.
pub open spec fn purchase_covered(m: Market, p: Purchase, mint: Seq<u8>) -> bool {
    let e = m.escrows@[m.offer_index(mint)];
    let fee = m.marketplace.fee as u64;
    &&& p.taker.lamports >= e.listing.price
    &&& p.maker.lamports + (e.listing.price - fee) <= u64::MAX
    &&& m.treasury_lamports + fee <= u64::MAX
    &&& p.taker_ata.amount + 1 <= u64::MAX
    &&& p.taker_ata_reward.amount + 1 <= u64::MAX
    &&& m.rewards_minted + 1 <= u64::MAX
}

/// When a settlement succeeds: the record exists, the fee does not exceed
/// the price, the accounts are wired to the record, the stored nonce
/// reconstructs the move-authority, custody holds the unit, and every leg
/// is covered.
pub open spec fn purchase_ok(m: Market, p: Purchase, mint: Seq<u8>) -> bool {
    &&& m.has_live_offer(mint)
    &&& m.marketplace.fee as u64 <= m.escrows@[m.offer_index(mint)].listing.price
    &&& purchase_wired(m, p, mint)
    &&& ({
        let e = m.escrows@[m.offer_index(mint)];
        created_control(signer_seeds(m.address@, mint, e.listing.bump), m.program_id@) == Some(
            e.address@,
        ) && e.vault.amount == 1
    })
    &&& purchase_covered(m, p, mint)
}

impl Market {
    /// Settles the offer for `maker_mint` in four legs composed into one
    /// atomic unit: the buyer pays `price - fee` to the owner and `fee` to
    /// the treasury; the derived move-authority delivers the custodied
    /// asset to the buyer; the reward authority mints exactly one reward
    /// unit to the buyer; and the record and custody account are closed.
    /// Every leg is validated before any leg's effect happens, so a failed
    /// settlement leaves the record, custody, and all four balances exactly
    /// as they were.
    ///
    /// Fails with `AuthorizationError` if no record exists for the asset
    /// (a second settlement of the same offer finds the record absent and
    /// fails closed), the accounts are not wired to the record, or the
    /// reconstructed authority does not match; with `ArithmeticError` if
    /// the fee exceeds the price, the buyer cannot cover the price, or a
    /// receiving balance would overflow; with `ConsistencyError` if custody
    /// does not hold exactly one unit (impossible in a well-formed market,
    /// checked anyway).
    pub fn purchase(&mut self, accts: &mut Purchase, maker_mint: &Vec<u8>) -> (r: Result<
        (),
        ErrorKind,
    >)
        requires
            old(self).wf(),
        ensures
            final(self).wf(),
            r is Ok <==> purchase_ok(*old(self), *old(accts), maker_mint@),
            r is Err ==> *final(self) == *old(self) && *final(accts) == *old(accts),
            !old(self).has_live_offer(maker_mint@) ==> r == Err::<(), ErrorKind>(
                ErrorKind::AuthorizationError,
            ),
            old(self).has_live_offer(maker_mint@) && old(self).marketplace.fee as u64 > old(
                self,
            ).escrows@[old(self).offer_index(maker_mint@)].listing.price ==> r == Err::<
                (),
                ErrorKind,
            >(ErrorKind::ArithmeticError),
            old(self).has_live_offer(maker_mint@) && old(self).marketplace.fee as u64 <= old(
                self,
            ).escrows@[old(self).offer_index(maker_mint@)].listing.price && !purchase_wired(
                *old(self),
                *old(accts),
                maker_mint@,
            ) ==> r == Err::<(), ErrorKind>(ErrorKind::AuthorizationError),
            old(self).has_live_offer(maker_mint@) && old(self).marketplace.fee as u64 <= old(
                self,
            ).escrows@[old(self).offer_index(maker_mint@)].listing.price && purchase_wired(
                *old(self),
                *old(accts),
                maker_mint@,
            ) && !purchase_covered(*old(self), *old(accts), maker_mint@) ==> r == Err::<
                (),
                ErrorKind,
            >(ErrorKind::ArithmeticError),
            r is Ok ==> ({
                let pre = *old(self);
                let k = pre.offer_index(maker_mint@);
                let e = pre.escrows@[k];
                let fee = pre.marketplace.fee as u64;
                &&& final(accts).taker.lamports == old(accts).taker.lamports - e.listing.price
                &&& final(accts).maker.lamports == old(accts).maker.lamports + (e.listing.price
                    - fee)
                &&& final(self).treasury_lamports == pre.treasury_lamports + fee
                &&& final(accts).taker_ata.amount == old(accts).taker_ata.amount + 1
                &&& final(accts).taker_ata_reward.amount == old(accts).taker_ata_reward.amount
                    + 1
                &&& final(self).rewards_minted == pre.rewards_minted + 1
                &&& final(self).escrows@ == pre.escrows@.remove(k)
                &&& !final(self).has_live_offer(maker_mint@)
                &&& final(self).same_root(pre)
                &&& final(accts).taker.owner == old(accts).taker.owner
                &&& final(accts).maker.owner == old(accts).maker.owner
                &&& final(accts).taker_ata.owner == old(accts).taker_ata.owner
                &&& final(accts).taker_ata.mint == old(accts).taker_ata.mint
                &&& final(accts).taker_ata_reward.owner == old(accts).taker_ata_reward.owner
                &&& final(accts).taker_ata_reward.mint == old(accts).taker_ata_reward.mint
            }),
    {
        let idx = match self.find_escrow(maker_mint) {
            Some(i) => i,
            None => {
                return Err(ErrorKind::AuthorizationError);
            },
        };
        proof {
            lemma_offer_index_unique(*old(self), maker_mint@, idx as int);
        }
        let price = self.escrows[idx].listing.price;
        let split = match settlement_split(price, self.marketplace.fee) {
            Ok(s) => s,
            Err(k) => {
                return Err(k);
            },
        };
        if !addr_eq(&self.escrows[idx].listing.maker, &accts.maker.owner) {
            return Err(ErrorKind::AuthorizationError);
        }
        if !addr_eq(&accts.taker_ata.owner, &accts.taker.owner) || !addr_eq(
            &accts.taker_ata.mint,
            maker_mint,
        ) {
            return Err(ErrorKind::AuthorizationError);
        }
        if !addr_eq(&accts.taker_ata_reward.owner, &accts.taker.owner) || !addr_eq(
            &accts.taker_ata_reward.mint,
            &self.rewards_address,
        ) {
            return Err(ErrorKind::AuthorizationError);
        }
        let seeds = seed_triple(&self.address, maker_mint, self.escrows[idx].listing.bump);
        let authority_ok = match create_control(&seeds, &self.program_id) {
            Some(a) => addr_eq(&a, &self.escrows[idx].address),
            None => false,
        };
        if !authority_ok {
            return Err(ErrorKind::AuthorizationError);
        }
        if self.escrows[idx].vault.amount != 1 {
            return Err(ErrorKind::ConsistencyError);
        }
        if accts.taker.lamports < price {
            return Err(ErrorKind::ArithmeticError);
        }
        if accts.maker.lamports > u64::MAX - split.proceeds {
            return Err(ErrorKind::ArithmeticError);
        }
        if self.treasury_lamports > u64::MAX - split.fee {
            return Err(ErrorKind::ArithmeticError);
        }
        if accts.taker_ata.amount == u64::MAX {
            return Err(ErrorKind::ArithmeticError);
        }
        if accts.taker_ata_reward.amount == u64::MAX {
            return Err(ErrorKind::ArithmeticError);
        }
        if self.rewards_minted == u64::MAX {
            return Err(ErrorKind::ArithmeticError);
        }
        accts.send_sol(split, &mut self.treasury_lamports);
        let mut e = self.close_mint_vault(idx);
        match accts.receive_nft(&mut e.vault, &e.address) {
            Ok(()) => {},
            Err(k) => {
                return Err(k);
            },
        }
        accts.receive_rewards(&mut self.rewards_minted);
        proof {
            lemma_wf_after_remove(*old(self), *self, maker_mint@);
        }
        Ok(())
    }
}

/// After a successful `open-offer`, cancellation is owed: the owner who
/// just opened the offer can always cancel it with the same holding
/// account.
pub proof fn lemma_cancel_after_open(
    m0: Market,
    a0: TokenAccount,
    m1: Market,
    a1: TokenAccount,
    maker: Seq<u8>,
    mint: Seq<u8>,
    price: u64,
)
    requires
        m0.wf(),
        m1.wf(),
        listing_rel(m0, a0, m1, a1, maker, mint, price),
    ensures
        delist_ok(m1, a1, maker, mint),
{
    let n = m0.escrows@.len() as int;
    assert(m1.escrows@[n] == m1.escrows@.last());
    lemma_offer_index_unique(m1, mint, n);
    assert(m1.escrows@[n].wf(m1.address@, m1.program_id@));
}

/// Round-trip law: opening an offer at any price and then cancelling it
/// restores the owner's asset balance to its pre-listing value and leaves
/// no residual record or custody account; the treasury and reward tallies
/// are untouched.
pub proof fn lemma_round_trip(
    m0: Market,
    a0: TokenAccount,
    m1: Market,
    a1: TokenAccount,
    m2: Market,
    a2: TokenAccount,
    maker: Seq<u8>,
    mint: Seq<u8>,
    price: u64,
)
    requires
        m0.wf(),
        m1.wf(),
        listing_rel(m0, a0, m1, a1, maker, mint, price),
        delist_rel(m1, a1, m2, a2, maker, mint),
    ensures
        a2.amount == a0.amount,
        a2.owner == a0.owner,
        a2.mint == a0.mint,
        m2.escrows@ == m0.escrows@,
        m2.same_root(m0),
        m2.treasury_lamports == m0.treasury_lamports,
        m2.rewards_minted == m0.rewards_minted,
        !m2.has_live_offer(mint),
{
    let n = m0.escrows@.len() as int;
    lemma_offer_index_unique(m1, mint, n);
    m1.escrows@.remove_ensures(n);
    assert(m2.escrows@ =~= m0.escrows@);
}

} // verus!
