//! Program and user accounts, the three-slot referral matrix and the upline of
//! referrers above each user.

use vstd::prelude::*;

use crate::address::Address;

verus! {

/// The most upline entries a user keeps, and the most uplines one registration
/// walks through.
pub const MAX_UPLINE_DEPTH: usize = 6;


/// Global state of the program.
#[derive(Clone, Copy, Debug)]
pub struct ProgramState {
    pub owner: Address,
    pub multisig_treasury: Address,
    pub next_upline_id: u32,
    pub next_chain_id: u32,
    pub last_mint_amount: u64,
}

impl ProgramState {
    /// Serialized size: owner, treasury, the two counters and the last mint.
    pub const SIZE: usize = 32 + 32 + 4 + 4 + 8;
}

/// A referrer above a user: its account and its wallet.
#[derive(Clone, Copy, Debug)]
pub struct UplineEntry {
    pub pda: Address,
    pub wallet: Address,
}

/// The referrers above a user, oldest first.
#[derive(Clone, Debug)]
pub struct ReferralUpline {
    pub id: u32,
    pub depth: u8,
    pub upline: Vec<UplineEntry>,
}

/// A user's referral matrix: three slots filled in order.
#[derive(Clone, Copy, Debug)]
pub struct ReferralChain {
    pub id: u32,
    pub slots: [Option<Address>; 3],
    pub filled_slots: u8,
}

/// A registered user.
#[derive(Clone, Debug)]
pub struct UserAccount {
    pub is_registered: bool,
    pub referrer: Option<Address>,
    pub owner_wallet: Address,
    pub upline: ReferralUpline,
    pub chain: ReferralChain,
    pub reserved_sol: u64,
    pub reserved_tokens: u64,
}

impl UserAccount {
    /// Serialized size with a full upline.
    pub const SIZE: usize = 1 + 1 + 32 + 32 + 4 + 1 + 4 + (6 * (32 + 32)) + 4 + (3 * (1 + 32)) + 1 + 8 + 8;
}

/// The event logged when a user takes a slot of a matrix.
#[derive(Clone, Copy, Debug)]
pub struct SlotFilled {
    pub slot_idx: u8,
    pub chain_id: u32,
    pub user: Address,
    pub owner: Address,
}

/// An empty matrix with the given id.
pub open spec fn spec_empty_chain(id: u32) -> ReferralChain {
    ReferralChain { id, slots: [None, None, None], filled_slots: 0 }
}

/// A matrix is well formed when fewer than three slots are filled and exactly the
/// first `filled_slots` slots hold a user.
pub open spec fn chain_well_formed(chain: ReferralChain) -> bool {
    &&& chain.filled_slots < 3
    &&& forall|i: int| 0 <= i < 3 ==> (#[trigger] chain.slots@[i] is Some <==> i < chain.filled_slots)
}

/// The matrix after `user` takes the next slot (which must exist): the slot is
/// set and counted; on the third slot the matrix starts over, empty, with
/// `next_chain_id`. Also whether it was completed.
pub open spec fn spec_fill_slot(chain: ReferralChain, user: Address, next_chain_id: u32) -> (ReferralChain, bool) {
    if chain.filled_slots + 1 == 3 {
        (spec_empty_chain(next_chain_id), true)
    } else {
        (
            ReferralChain {
                id: chain.id,
                slots: spec_set_slot(chain.slots, chain.filled_slots as int, user),
                filled_slots: (chain.filled_slots + 1) as u8,
            },
            false,
        )
    }
}

/// The slots with `user` in slot `idx`.
pub open spec fn spec_set_slot(slots: [Option<Address>; 3], idx: int, user: Address) -> [Option<Address>; 3] {
    [
        if idx == 0 { Some(user) } else { slots[0] },
        if idx == 1 { Some(user) } else { slots[1] },
        if idx == 2 { Some(user) } else { slots[2] },
    ]
}

/// The event for `user` taking the next slot of `owner`'s matrix.
pub open spec fn spec_slot_event(chain: ReferralChain, user: Address, owner: Address) -> SlotFilled {
    SlotFilled { slot_idx: chain.filled_slots, chain_id: chain.id, user, owner }
}

/// An empty matrix with the given id.
pub fn empty_chain(id: u32) -> (res: ReferralChain)
    ensures
        res == spec_empty_chain(id),
{
    ReferralChain { id, slots: [None, None, None], filled_slots: 0 }
}

impl ReferralChain {
    /// Puts `user` into the next free slot of `owner`'s matrix and returns whether
    /// the matrix was completed (it then restarts empty under `next_chain_id`),
    /// with the event to log.
    pub fn fill_slot(&mut self, user: &Address, owner: &Address, next_chain_id: u32) -> (res: (bool, SlotFilled))
        requires
            old(self).filled_slots < 3,
        ensures
            (*final(self), res.0) == spec_fill_slot(*old(self), *user, next_chain_id),
            res.1 == spec_slot_event(*old(self), *user, *owner),
    {
        let slot_idx = self.filled_slots;
        let event = SlotFilled { slot_idx, chain_id: self.id, user: *user, owner: *owner };
        self.slots[slot_idx as usize] = Some(*user);
        self.filled_slots = self.filled_slots + 1;
        if self.filled_slots == 3 {
            self.id = next_chain_id;
            self.slots = [None, None, None];
            self.filled_slots = 0;
            assert(*self == spec_empty_chain(next_chain_id));
            return (true, event);
        }
        proof {
            assert(self.slots =~= spec_set_slot(old(self).slots, slot_idx as int, *user));
        }
        (false, event)
    }
}

/// Filling a slot keeps a matrix well formed.
pub proof fn lemma_fill_slot_keeps_well_formed(chain: ReferralChain, user: Address, next_chain_id: u32)
    requires
        chain_well_formed(chain),
    ensures
        chain_well_formed(spec_fill_slot(chain, user, next_chain_id).0),
        spec_fill_slot(chain, user, next_chain_id).1 <==> chain.filled_slots == 2,
{
    let after = spec_fill_slot(chain, user, next_chain_id).0;
    if chain.filled_slots + 1 == 3 {
        assert(after.slots@ =~= seq![None, None, None]);
    } else {
        assert forall|i: int| 0 <= i < 3 implies (#[trigger] after.slots@[i] is Some <==> i < after.filled_slots) by {
            assert(after.slots == spec_set_slot(chain.slots, chain.filled_slots as int, user));
        }
    }
}

/// Three users in a row complete a fresh matrix: the first two leave it open and
/// the third closes it, which restarts it empty under the new id.
pub proof fn lemma_three_fills_complete(id: u32, a: Address, b: Address, c: Address, n1: u32, n2: u32, n3: u32)
    ensures
        !spec_fill_slot(spec_empty_chain(id), a, n1).1,
        !spec_fill_slot(spec_fill_slot(spec_empty_chain(id), a, n1).0, b, n2).1,
        spec_fill_slot(spec_fill_slot(spec_fill_slot(spec_empty_chain(id), a, n1).0, b, n2).0, c, n3)
            == (spec_empty_chain(n3), true),
{
}

/// The new user's upline: the referrer's upline with the referrer appended,
/// keeping only the most recent entries once the referrer's upline is full.
pub open spec fn spec_build_upline(referrer_upline: Seq<UplineEntry>, entry: UplineEntry) -> Seq<UplineEntry> {
    if referrer_upline.len() >= MAX_UPLINE_DEPTH {
        referrer_upline.subrange(referrer_upline.len() - (MAX_UPLINE_DEPTH - 1), referrer_upline.len() as int).push(
            entry,
        )
    } else {
        referrer_upline.push(entry)
    }
}

/// Builds the upline of a user referred by the owner of `referrer_upline`.
pub fn build_upline(referrer_upline: &Vec<UplineEntry>, entry: UplineEntry) -> (res: Vec<UplineEntry>)
    ensures
        res@ == spec_build_upline(referrer_upline@, entry),
{
    let len = referrer_upline.len();
    let start: usize = if len >= MAX_UPLINE_DEPTH {
        len - (MAX_UPLINE_DEPTH - 1)
    } else {
        0
    };
    let mut new_upline: Vec<UplineEntry> = Vec::new();
    let mut i = start;
    while i < len
        invariant
            start <= i <= len,
            len == referrer_upline@.len(),
            new_upline@ =~= referrer_upline@.subrange(start as int, i as int),
        decreases len - i,
    {
        new_upline.push(referrer_upline[i]);
        i = i + 1;
    }
    new_upline.push(entry);
    proof {
        if len < MAX_UPLINE_DEPTH {
            assert(referrer_upline@.subrange(0, len as int) =~= referrer_upline@);
        }
    }
    new_upline
}

/// An upline never holds more than `MAX_UPLINE_DEPTH` entries, ends with the
/// referrer, and keeps the most recent entries of the referrer's upline in order.
pub proof fn lemma_build_upline_shape(referrer_upline: Seq<UplineEntry>, entry: UplineEntry)
    ensures
        spec_build_upline(referrer_upline, entry).len() <= MAX_UPLINE_DEPTH,
        spec_build_upline(referrer_upline, entry).len() == if referrer_upline.len() >= MAX_UPLINE_DEPTH {
            MAX_UPLINE_DEPTH as int
        } else {
            referrer_upline.len() + 1int
        },
        spec_build_upline(referrer_upline, entry).last() == entry,
        ({
            let full = referrer_upline.push(entry);
            let res = spec_build_upline(referrer_upline, entry);
            res =~= full.subrange(full.len() - res.len(), full.len() as int)
        }),
{
    let full = referrer_upline.push(entry);
    let res = spec_build_upline(referrer_upline, entry);
    assert(res =~= full.subrange(full.len() - res.len(), full.len() as int));
}

} // verus!
