//! The channel record and the operations on it: create, join, leave, read.
//!
//! Each operation takes the record by reference; a `&mut` borrow gives the
//! operation exclusive access, so a join or leave is one indivisible
//! read-modify-write of the participant count.

use vstd::prelude::*;

use crate::channel_id::{generate_channel_id, spec_channel_id};

verus! {

/// A channel record.
pub struct Channel {
    /// The `CHAT-XXXX` identifier, assigned at creation.
    pub id: String,
    /// Free-text name, set at creation.
    pub name: String,
    /// The 32-byte identity of the account that created the channel.
    pub creator: [u8; 32],
    /// Creation timestamp.
    pub created_at: i64,
    /// Whether the channel accepts joins.
    pub active: bool,
    /// Number of current participants.
    pub participant_count: u32,
}

/// A snapshot of a channel's fields, taken at the time of a call.
pub struct ChannelInfo {
    pub id: String,
    pub name: String,
    pub creator: [u8; 32],
    pub created_at: i64,
    pub participant_count: u32,
    pub active: bool,
}

/// Errors of the channel operations.
#[derive(Debug, Clone, Copy, PartialEq, Eq, Structural)]
pub enum ChannelError {
    /// A join was attempted on an inactive channel.
    ChannelInactive,
    /// Reserved for a capacity limit; no operation returns it.
    ChannelFull,
    /// Reserved for permission checks; no operation returns it.
    Unauthorized,
}

/// A call that changes a channel's participant count.
pub enum ChannelCall {
    Join,
    Leave,
}

/// A record as creation leaves it and every later call keeps it: its
/// identifier is the one derived from its creation time.
pub open spec fn well_formed(c: Channel) -> bool {
    c.id@ == spec_channel_id(c.created_at as int)
}

/// The record as a successful join leaves it: one more participant.
pub open spec fn joined(c: Channel) -> Channel {
    Channel {
        id: c.id,
        name: c.name,
        creator: c.creator,
        created_at: c.created_at,
        active: c.active,
        participant_count: (c.participant_count + 1) as u32,
    }
}

/// The record as a leave leaves it: one participant fewer, never below zero.
pub open spec fn left(c: Channel) -> Channel {
    Channel {
        id: c.id,
        name: c.name,
        creator: c.creator,
        created_at: c.created_at,
        active: c.active,
        participant_count: if c.participant_count > 0 {
            (c.participant_count - 1) as u32
        } else {
            0
        },
    }
}

/// Whether a join on `c` is within the range of the counter.
pub open spec fn can_count_join(c: Channel) -> bool {
    c.participant_count < u32::MAX
}

/// The snapshot `info` holds exactly the fields of `c`.
pub open spec fn describes(info: ChannelInfo, c: Channel) -> bool {
    &&& info.id == c.id
    &&& info.name == c.name
    &&& info.creator == c.creator
    &&& info.created_at == c.created_at
    &&& info.participant_count == c.participant_count
    &&& info.active == c.active
}

/// The record after one call: a join on an inactive channel (or one whose
/// counter is full) fails and changes nothing.
pub open spec fn after_call(c: Channel, call: ChannelCall) -> Channel {
    match call {
        ChannelCall::Join => if c.active && can_count_join(c) {
            joined(c)
        } else {
            c
        },
        ChannelCall::Leave => left(c),
    }
}

/// The record after a sequence of calls, in order.
pub open spec fn after_calls(c: Channel, calls: Seq<ChannelCall>) -> Channel
    decreases calls.len(),
{
    if calls.len() == 0 {
        c
    } else {
        after_calls(after_call(c, calls[0]), calls.drop_first())
    }
}

/// `n` joins in a row.
pub open spec fn joins(n: nat) -> Seq<ChannelCall> {
    Seq::new(n, |i: int| ChannelCall::Join)
}

/// `n` leaves in a row.
pub open spec fn leaves(n: nat) -> Seq<ChannelCall> {
    Seq::new(n, |i: int| ChannelCall::Leave)
}

/// Joins and leaves never take the participant count below zero: after any
/// sequence of them it is a non-negative number.
pub proof fn lemma_count_never_negative(c: Channel, calls: Seq<ChannelCall>)
    ensures
        after_calls(c, calls).participant_count >= 0,
{
}

/// Leaving a channel with no participants changes nothing, however often it
/// is repeated.
pub proof fn lemma_leaves_at_zero(c: Channel, n: nat)
    requires
        c.participant_count == 0,
    ensures
        after_calls(c, leaves(n)) == c,
    decreases n,
{
    if n > 0 {
        assert(after_call(c, leaves(n)[0]) == c);
        assert(leaves(n).drop_first() =~= leaves((n - 1) as nat));
        lemma_leaves_at_zero(c, (n - 1) as nat);
    }
}

proof fn lemma_joins_add(c: Channel, k: nat)
    requires
        c.active,
        c.participant_count + k <= u32::MAX,
    ensures
        after_calls(c, joins(k)).participant_count == c.participant_count + k,
        after_calls(c, joins(k)).active,
    decreases k,
{
    if k > 0 {
        assert(joins(k).drop_first() =~= joins((k - 1) as nat));
        lemma_joins_add(joined(c), (k - 1) as nat);
    }
}

/// Each join is applied whole: `k` joins on an active channel with no
/// participants leave exactly `k` participants, with no join lost.
pub proof fn lemma_joins_counted(c: Channel, k: nat)
    requires
        c.active,
        c.participant_count == 0,
        k <= u32::MAX,
    ensures
        after_calls(c, joins(k)).participant_count == k,
{
    lemma_joins_add(c, k);
}

/// Joins and leaves change only the participant count: the identifier, name,
/// creator, creation time and active flag stay as they were.
pub proof fn lemma_fixed_fields_kept(c: Channel, calls: Seq<ChannelCall>)
    ensures
        after_calls(c, calls).id == c.id,
        after_calls(c, calls).name == c.name,
        after_calls(c, calls).creator == c.creator,
        after_calls(c, calls).created_at == c.created_at,
        after_calls(c, calls).active == c.active,
        well_formed(c) ==> well_formed(after_calls(c, calls)),
    decreases calls.len(),
{
    if calls.len() > 0 {
        lemma_fixed_fields_kept(after_call(c, calls[0]), calls.drop_first());
    }
}

/// Fills the freshly provisioned record `channel` as a new, active channel
/// with no participants, and returns its identifier, derived from `created_at`.
pub fn create_channel(channel: &mut Channel, name: String, creator: [u8; 32], created_at: i64) -> (id: String)
    ensures
        id@ == spec_channel_id(created_at as int),
        final(channel).id == id,
        final(channel).name == name,
        final(channel).creator == creator,
        final(channel).created_at == created_at,
        final(channel).active,
        final(channel).participant_count == 0,
        well_formed(*final(channel)),
{
    let channel_id = generate_channel_id(&created_at);
    channel.id = channel_id.clone();
    channel.name = name;
    channel.creator = creator;
    channel.created_at = created_at;
    channel.active = true;
    channel.participant_count = 0;
    channel_id
}

/// Adds one participant to an active channel and returns a snapshot of it.
/// On an inactive channel it fails with `ChannelInactive` and changes nothing.
pub fn join_channel(channel: &mut Channel) -> (r: Result<ChannelInfo, ChannelError>)
    requires
        old(channel).active ==> can_count_join(*old(channel)),
    ensures
        old(channel).active ==> *final(channel) == joined(*old(channel)),
        old(channel).active ==> (r matches Ok(info) && describes(info, *final(channel))),
        !old(channel).active ==> *final(channel) == *old(channel),
        !old(channel).active ==> r == Err::<ChannelInfo, ChannelError>(ChannelError::ChannelInactive),
        well_formed(*old(channel)) ==> well_formed(*final(channel)),
{
    if !channel.active {
        return Err(ChannelError::ChannelInactive);
    }
    channel.participant_count = channel.participant_count + 1;
    Ok(get_channel_info(channel))
}

/// Removes one participant; on a channel with no participants it does nothing.
/// It never fails and does not look at the active flag.
pub fn leave_channel(channel: &mut Channel)
    ensures
        *final(channel) == left(*old(channel)),
        well_formed(*old(channel)) ==> well_formed(*final(channel)),
{
    if channel.participant_count > 0 {
        channel.participant_count = channel.participant_count - 1;
    }
}

/// A snapshot of the channel's current fields.
pub fn get_channel_info(channel: &Channel) -> (info: ChannelInfo)
    ensures
        describes(info, *channel),
{
    ChannelInfo {
        id: channel.id.clone(),
        name: channel.name.clone(),
        creator: channel.creator,
        created_at: channel.created_at,
        participant_count: channel.participant_count,
        active: channel.active,
    }
}

} // verus!
