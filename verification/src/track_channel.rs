//! The sending end of the presence worker's channel, with a ghost record of
//! every track handed to it. The record changes only when a track is really
//! sent.

use vstd::prelude::*;
use crate::presence::{TrackMetadata, TrackView};

verus! {

#[verifier::external_type_specification]
#[verifier::external_body]
#[verifier::reject_recursive_types(T)]
pub struct ExSyncSender<T>(std::sync::mpsc::SyncSender<T>);

/// `SyncSender::clone`: another handle on the same channel.
#[verifier::external_body]
fn clone_sender(
    tx: &std::sync::mpsc::SyncSender<TrackMetadata>,
) -> std::sync::mpsc::SyncSender<TrackMetadata> {
    tx.clone()
}

/// A sender of tracks to the presence worker, and the tracks handed to it
/// through this handle.
pub struct TrackSender {
    tx: std::sync::mpsc::SyncSender<TrackMetadata>,
    offered: Ghost<Seq<TrackView>>,
}

impl TrackSender {
    /// The channel the tracks go to.
    pub closed spec fn channel(&self) -> std::sync::mpsc::SyncSender<TrackMetadata> {
        self.tx
    }

    /// The tracks handed to the channel through this handle, oldest first.
    pub closed spec fn offered(&self) -> Seq<TrackView> {
        self.offered@
    }

    /// A sender on `tx` that has handed over nothing yet.
    pub fn new(tx: std::sync::mpsc::SyncSender<TrackMetadata>) -> (s: Self)
        ensures
            s.channel() == tx,
            s.offered() == Seq::<TrackView>::empty(),
    {
        TrackSender { tx, offered: Ghost(Seq::empty()) }
    }

    /// Another handle on the same channel, with the same record.
    pub fn duplicate(&self) -> (r: Self)
        ensures
            r.offered() == self.offered(),
    {
        TrackSender { tx: clone_sender(&self.tx), offered: Ghost(self.offered@) }
    }

    /// `SyncSender::try_send`: hands `track` to the worker's channel without
    /// waiting; the track joins the record. Whether the worker takes it
    /// depends on the queue and on the worker being alive, so nothing is
    /// promised of the result.
    #[verifier::external_body]
    pub(crate) fn offer(&mut self, track: TrackMetadata) -> (taken: bool)
        ensures
            final(self).offered() == old(self).offered().push(track@),
            final(self).channel() == old(self).channel(),
    {
        self.tx.try_send(track).is_ok()
    }
}

} // verus!
