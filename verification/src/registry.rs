//! Channel registry: tracks the open bidirectional channels, allocates
//! channel identifiers and per-channel request identifiers, and owns each
//! channel's send capability.
//!
//! The send capability is modeled as an outbox of responses queued toward
//! the foreground context; the surrounding host glue drains an outbox and
//! forwards its messages over the real transport. A streaming task holds
//! only a channel id, never the channel itself, and re-resolves it through
//! the registry on each send, so a disconnect invalidates all outstanding
//! senders uniformly.

use std::collections::HashMap;

use vstd::prelude::*;

use crate::messages::{
    spec_next_request_id, next_request_id, PortResponse, PortResponsePayloadView, RequestId,
    ResponseView, INITIAL_REQUEST_ID,
};

verus! {

broadcast use vstd::std_specs::hash::group_hash_axioms;

/// Identifier of a channel, unique and monotonically assigned.
pub type ChannelId = u64;

/// The identifier assigned to the first channel that connects.
pub const FIRST_CHANNEL_ID: ChannelId = 1;

/// Failure of a registry operation that referenced an unknown or departed
/// channel id. Expected when host events race with internal bookkeeping;
/// callers treat it as "give up this send or operation", never as a crash.
#[derive(Debug, Clone, Copy, PartialEq, Eq, Structural)]
pub enum PortError {
    NotConnected,
}

/// One open bidirectional connection from a foreground context to the
/// coordinator: its request-identifier counter and its send capability.
pub struct Channel {
    /// The last request identifier issued on this channel; independent of
    /// the global counter and of every other channel's counter.
    pub last_request_id: RequestId,
    /// Responses queued toward the foreground context, in posting order.
    pub outbox: Vec<PortResponse>,
}

/// Model of a channel's queued responses.
pub open spec fn outbox_view(outbox: Seq<PortResponse>) -> Seq<
    ResponseView<PortResponsePayloadView>,
> {
    outbox.map_values(|m: PortResponse| m@)
}

/// Registry of the connected channels. The sole owner of the id-to-channel
/// mapping and of the channel-id counter.
pub struct ChannelRegistry {
    /// The most recently allocated channel identifier; 0 before the first.
    pub last_channel_id: ChannelId,
    /// The connected channels, keyed by channel identifier.
    pub ctx_by_id: HashMap<ChannelId, Channel>,
}

impl ChannelRegistry {
    /// The id-to-channel mapping.
    pub open spec fn channels(&self) -> Map<ChannelId, Channel> {
        self.ctx_by_id@
    }

    /// Whether a channel id is currently connected.
    pub open spec fn is_connected(&self, id: ChannelId) -> bool {
        self.channels().contains_key(id)
    }

    /// Model of the responses queued on a channel.
    pub open spec fn outbox_of(&self, id: ChannelId) -> Seq<
        ResponseView<PortResponsePayloadView>,
    > {
        outbox_view(self.channels()[id].outbox@)
    }

    /// The channels other than `id` are untouched, and no id beside `id`
    /// appears or disappears.
    pub open spec fn others_unchanged(&self, earlier: &Self, id: ChannelId) -> bool {
        forall|other: ChannelId|
            other != id ==> #[trigger] self.channels().contains_key(other)
                == earlier.channels().contains_key(other) && (earlier.channels().contains_key(
                other,
            ) ==> self.channels()[other] == earlier.channels()[other])
    }

    /// Every connected id was allocated: it lies between the first channel
    /// id and the registry's counter.
    pub open spec fn well_formed(&self) -> bool {
        forall|id: ChannelId|
            self.channels().contains_key(id) ==> FIRST_CHANNEL_ID <= id <= self.last_channel_id
    }

    /// An empty registry: no channels, no id allocated yet.
    pub fn new() -> (r: Self)
        ensures
            r.well_formed(),
            r.channels() == Map::<ChannelId, Channel>::empty(),
            r.last_channel_id == 0,
    {
        ChannelRegistry { last_channel_id: 0, ctx_by_id: HashMap::new() }
    }

    /// Registers a new channel and allocates the next channel id.
    ///
    /// Ids count up from `FIRST_CHANNEL_ID`, so successive connections
    /// receive distinct, increasing ids. The counter saturates: when the id
    /// space is exhausted nothing is registered and no id is returned,
    /// rather than wrapping into reuse.
    pub fn connect(&mut self) -> (r: Option<ChannelId>)
        requires
            old(self).well_formed(),
        ensures
            final(self).well_formed(),
            old(self).last_channel_id == u64::MAX ==> r is None && *final(self) == *old(self),
            old(self).last_channel_id < u64::MAX ==> {
                let id = (old(self).last_channel_id + 1) as u64;
                &&& r == Some(id)
                &&& !old(self).is_connected(id)
                &&& final(self).last_channel_id == id
                &&& final(self).is_connected(id)
                &&& final(self).channels()[id].last_request_id == INITIAL_REQUEST_ID
                &&& final(self).outbox_of(id) =~= Seq::<
                    ResponseView<PortResponsePayloadView>,
                >::empty()
                &&& final(self).others_unchanged(old(self), id)
            },
    {
        if self.last_channel_id == u64::MAX {
            return None;
        }
        let id = self.last_channel_id + 1;
        let ctx = Channel { last_request_id: INITIAL_REQUEST_ID, outbox: Vec::new() };
        self.last_channel_id = id;
        self.ctx_by_id.insert(id, ctx);
        proof {
            assert(vstd::std_specs::hash::obeys_key_model::<ChannelId>());
            assert(vstd::std_specs::hash::builds_valid_hashers::<
                std::collections::hash_map::RandomState,
            >());
            assert(final(self).channels() == old(self).channels().insert(
                id,
                final(self).channels()[id],
            ));
            assert(final(self).well_formed());
        }
        Some(id)
    }

    /// Removes and returns the channel of `id`, if present.
    ///
    /// Removing an already-absent id yields nothing and is not an error:
    /// disconnect events from the host may race with internal bookkeeping.
    pub fn disconnect(&mut self, id: ChannelId) -> (r: Option<Channel>)
        requires
            old(self).well_formed(),
        ensures
            final(self).well_formed(),
            final(self).last_channel_id == old(self).last_channel_id,
            final(self).channels() == old(self).channels().remove(id),
            !final(self).is_connected(id),
            old(self).is_connected(id) ==> (r matches Some(ch) && ch == old(self).channels()[id]),
            !old(self).is_connected(id) ==> r is None && final(self).channels() == old(
                self,
            ).channels(),
    {
        let r = self.ctx_by_id.remove(&id);
        proof {
            if !old(self).is_connected(id) {
                assert(final(self).channels() =~= old(self).channels());
            }
        }
        r
    }

    /// Advances and returns the per-channel request-identifier counter.
    ///
    /// Fails with `NotConnected` exactly when the channel id is unknown
    /// (already disconnected or never existed); the registry is then
    /// unchanged.
    pub fn next_request_id(&mut self, id: ChannelId) -> (r: Result<RequestId, PortError>)
        requires
            old(self).well_formed(),
        ensures
            final(self).well_formed(),
            final(self).last_channel_id == old(self).last_channel_id,
            old(self).is_connected(id) ==> {
                &&& r == Ok::<RequestId, PortError>(
                    spec_next_request_id(old(self).channels()[id].last_request_id),
                )
                &&& final(self).is_connected(id)
                &&& final(self).channels()[id].last_request_id == spec_next_request_id(
                    old(self).channels()[id].last_request_id,
                )
                &&& final(self).channels()[id].outbox == old(self).channels()[id].outbox
                &&& final(self).others_unchanged(old(self), id)
            },
            !old(self).is_connected(id) ==> r == Err::<RequestId, PortError>(
                PortError::NotConnected,
            ) && final(self).channels() == old(self).channels() && final(self).last_channel_id
                == old(self).last_channel_id,
    {
        match self.ctx_by_id.remove(&id) {
            Some(ctx) => {
                let issued = next_request_id(ctx.last_request_id);
                let Channel { last_request_id: _, outbox } = ctx;
                self.ctx_by_id.insert(id, Channel { last_request_id: issued, outbox });
                proof {
                    assert(final(self).channels() == old(self).channels().remove(id).insert(
                        id,
                        final(self).channels()[id],
                    ));
                    assert(final(self).well_formed());
                }
                Ok(issued)
            },
            None => {
                proof {
                    assert(final(self).channels() =~= old(self).channels());
                }
                Err(PortError::NotConnected)
            },
        }
    }

    /// Queues a message on the channel's send capability.
    ///
    /// Fails with `NotConnected` exactly when the channel id is unknown;
    /// the failure is non-fatal by design: a streaming task whose channel
    /// vanished simply stops sending.
    pub fn post(&mut self, id: ChannelId, msg: PortResponse) -> (r: Result<(), PortError>)
        requires
            old(self).well_formed(),
        ensures
            final(self).well_formed(),
            final(self).last_channel_id == old(self).last_channel_id,
            old(self).is_connected(id) ==> {
                &&& r == Ok::<(), PortError>(())
                &&& final(self).is_connected(id)
                &&& final(self).channels()[id].last_request_id == old(self).channels()[
                    id
                ].last_request_id
                &&& final(self).channels()[id].outbox@ == old(self).channels()[id].outbox@.push(
                    msg,
                )
                &&& final(self).outbox_of(id) =~= old(self).outbox_of(id).push(msg@)
                &&& final(self).others_unchanged(old(self), id)
            },
            !old(self).is_connected(id) ==> r == Err::<(), PortError>(PortError::NotConnected)
                && final(self).channels() == old(self).channels() && final(self).last_channel_id
                == old(self).last_channel_id,
    {
        match self.ctx_by_id.remove(&id) {
            Some(ctx) => {
                let Channel { last_request_id, mut outbox } = ctx;
                outbox.push(msg);
                self.ctx_by_id.insert(id, Channel { last_request_id, outbox });
                proof {
                    assert(final(self).channels() == old(self).channels().remove(id).insert(
                        id,
                        final(self).channels()[id],
                    ));
                    assert(final(self).well_formed());
                    assert(final(self).outbox_of(id) =~= old(self).outbox_of(id).push(msg@));
                }
                Ok(())
            },
            None => {
                proof {
                    assert(final(self).channels() =~= old(self).channels());
                }
                Err(PortError::NotConnected)
            },
        }
    }

    /// Removes and returns the messages queued on a channel, oldest first,
    /// leaving the channel connected with an empty outbox. Fails with
    /// `NotConnected` exactly when the channel id is unknown.
    pub fn take_outbox(&mut self, id: ChannelId) -> (r: Result<Vec<PortResponse>, PortError>)
        requires
            old(self).well_formed(),
        ensures
            final(self).well_formed(),
            final(self).last_channel_id == old(self).last_channel_id,
            old(self).is_connected(id) ==> {
                &&& (r matches Ok(msgs) && msgs == old(self).channels()[id].outbox)
                &&& final(self).is_connected(id)
                &&& final(self).channels()[id].last_request_id == old(self).channels()[
                    id
                ].last_request_id
                &&& final(self).outbox_of(id) =~= Seq::<
                    ResponseView<PortResponsePayloadView>,
                >::empty()
                &&& final(self).others_unchanged(old(self), id)
            },
            !old(self).is_connected(id) ==> r == Err::<Vec<PortResponse>, PortError>(
                PortError::NotConnected,
            ) && final(self).channels() == old(self).channels() && final(self).last_channel_id
                == old(self).last_channel_id,
    {
        match self.ctx_by_id.remove(&id) {
            Some(ctx) => {
                let Channel { last_request_id, outbox } = ctx;
                self.ctx_by_id.insert(id, Channel { last_request_id, outbox: Vec::new() });
                proof {
                    assert(final(self).channels() == old(self).channels().remove(id).insert(
                        id,
                        final(self).channels()[id],
                    ));
                    assert(final(self).well_formed());
                    assert(final(self).outbox_of(id) =~= Seq::<
                        ResponseView<PortResponsePayloadView>,
                    >::empty());
                }
                Ok(outbox)
            },
            None => {
                proof {
                    assert(final(self).channels() =~= old(self).channels());
                }
                Err(PortError::NotConnected)
            },
        }
    }

    /// Whether a channel id is currently connected.
    pub fn connected(&self, id: ChannelId) -> (r: bool)
        ensures
            r == self.is_connected(id),
    {
        self.ctx_by_id.contains_key(&id)
    }
}

/// In a well-formed registry the connected channel ids are positive: no id
/// can be confused with the "before-first" counter value.
pub proof fn lemma_connected_ids_positive(reg: &ChannelRegistry, id: ChannelId)
    requires
        reg.well_formed(),
        reg.is_connected(id),
    ensures
        id >= FIRST_CHANNEL_ID,
{
}

/// The id that the next connection receives is strictly greater than every
/// id connected so far: successive connections yield distinct, increasing
/// ids, starting at `FIRST_CHANNEL_ID` on a fresh registry.
pub proof fn lemma_next_channel_id_fresh(reg: &ChannelRegistry, prev: ChannelId)
    requires
        reg.well_formed(),
        reg.is_connected(prev),
        reg.last_channel_id < u64::MAX,
    ensures
        prev < reg.last_channel_id + 1,
{
}

} // verus!
