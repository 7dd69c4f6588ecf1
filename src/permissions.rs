//! Whether a member may view a channel, from the cached server topology.

use vstd::prelude::*;
use crate::model::{ChannelInfo, ChannelKind};

verus! {

/// The "view channel" capability bit.
pub const VIEW_CHANNEL: u64 = 1024;

/// A member's effective permission bits in one channel.
#[derive(Clone, Copy, Debug, PartialEq, Eq, Structural)]
pub struct MemberPermissions {
    pub member: u64,
    pub channel: u64,
    pub bits: u64,
}

/// The cached view of one server: its channels, and the effective
/// permissions of its members in them. Read-only to this crate.
#[derive(Clone, Debug)]
pub struct Topology {
    pub server_id: u64,
    pub channels: Vec<ChannelInfo>,
    pub permissions: Vec<MemberPermissions>,
}

#[derive(Clone, Copy, Debug, PartialEq, Eq, Structural)]
pub enum PermissionError {
    /// Data the decision needs is missing from the cache.
    NotCached,
}

pub open spec fn has_channel(top: Topology, id: u64) -> bool {
    exists|i: int| 0 <= i < top.channels@.len() && #[trigger] top.channels@[i].id == id
}

/// The first recorded permission bits of `member` in `channel`, from index `i` on.
pub open spec fn bits_from(g: Seq<MemberPermissions>, member: u64, channel: u64, i: int) -> Option<u64>
    decreases g.len() - i,
{
    if i < 0 || i >= g.len() {
        None
    } else if g[i].member == member && g[i].channel == channel {
        Some(g[i].bits)
    } else {
        bits_from(g, member, channel, i + 1)
    }
}

pub open spec fn bits_of(top: Topology, member: u64, channel: u64) -> Option<u64> {
    bits_from(top.permissions@, member, channel, 0)
}

pub open spec fn allows_view(bits: u64) -> bool {
    bits & VIEW_CHANNEL == VIEW_CHANNEL
}

/// The view decision for `member` in the channel with id `channel`.
pub open spec fn view_in(top: Topology, member: u64, channel: u64) -> Result<bool, PermissionError> {
    match bits_of(top, member, channel) {
        Some(b) => Ok(allows_view(b)),
        None => Err(PermissionError::NotCached),
    }
}

/// Text and news channels are judged by their own permissions; a public
/// thread by those of its parent, which must be cached; any other kind of
/// channel is never viewable.
pub open spec fn can_view_spec(top: Topology, member: u64, channel: ChannelInfo) -> Result<bool, PermissionError> {
    match channel.kind {
        ChannelKind::Text | ChannelKind::News => view_in(top, member, channel.id),
        ChannelKind::PublicThread => match channel.parent_id {
            Some(p) => if has_channel(top, p) {
                view_in(top, member, p)
            } else {
                Err(PermissionError::NotCached)
            },
            None => Err(PermissionError::NotCached),
        },
        ChannelKind::Other => Ok(false),
    }
}

/// Whether `channel` is among the cached channels.
pub fn channel_cached(top: &Topology, id: u64) -> (r: bool)
    ensures
        r == has_channel(*top, id),
{
    let mut i: usize = 0;
    while i < top.channels.len()
        invariant
            i <= top.channels@.len(),
            forall|j: int| 0 <= j < i ==> #[trigger] top.channels@[j].id != id,
        decreases top.channels@.len() - i,
    {
        if top.channels[i].id == id {
            return true;
        }
        i = i + 1;
    }
    false
}

/// The recorded permission bits of `member` in `channel`.
pub fn permission_bits(top: &Topology, member: u64, channel: u64) -> (r: Option<u64>)
    ensures
        r == bits_of(*top, member, channel),
{
    let mut i: usize = 0;
    while i < top.permissions.len()
        invariant
            i <= top.permissions@.len(),
            bits_of(*top, member, channel) == bits_from(top.permissions@, member, channel, i as int),
        decreases top.permissions@.len() - i,
    {
        let g = top.permissions[i];
        if g.member == member && g.channel == channel {
            return Some(g.bits);
        }
        i = i + 1;
    }
    None
}

fn view_decision(top: &Topology, member: u64, channel: u64) -> (r: Result<bool, PermissionError>)
    ensures
        r == view_in(*top, member, channel),
{
    match permission_bits(top, member, channel) {
        Some(b) => Ok(b & VIEW_CHANNEL == VIEW_CHANNEL),
        None => Err(PermissionError::NotCached),
    }
}

/// Whether `member` may view `channel`; `Err(NotCached)` where the cache
/// lacks the member's permissions or a thread's parent channel.
pub fn can_view(top: &Topology, member: u64, channel: &ChannelInfo) -> (r: Result<bool, PermissionError>)
    ensures
        r == can_view_spec(*top, member, *channel),
{
    match channel.kind {
        ChannelKind::Text | ChannelKind::News => view_decision(top, member, channel.id),
        ChannelKind::PublicThread => match channel.parent_id {
            Some(p) => {
                if channel_cached(top, p) {
                    view_decision(top, member, p)
                } else {
                    Err(PermissionError::NotCached)
                }
            },
            None => Err(PermissionError::NotCached),
        },
        ChannelKind::Other => Ok(false),
    }
}

/// A public thread is judged by its cached parent: viewable exactly when
/// the parent is.
pub proof fn lemma_thread_follows_parent(top: Topology, member: u64, thread: ChannelInfo, parent: u64)
    requires
        thread.kind == ChannelKind::PublicThread,
        thread.parent_id == Some(parent),
        has_channel(top, parent),
    ensures
        can_view_spec(top, member, thread) == view_in(top, member, parent),
{
}

/// A public thread whose parent is unknown, or missing from the cache, fails
/// with `NotCached`, never with a plain denial.
pub proof fn lemma_thread_without_cached_parent(top: Topology, member: u64, thread: ChannelInfo)
    requires
        thread.kind == ChannelKind::PublicThread,
        match thread.parent_id {
            Some(p) => !has_channel(top, p),
            None => true,
        },
    ensures
        can_view_spec(top, member, thread) == Err::<bool, PermissionError>(PermissionError::NotCached),
        can_view_spec(top, member, thread) != Ok::<bool, PermissionError>(false),
{
}

} // verus!
