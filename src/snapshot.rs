//! The snapshot (point-in-time) session: opened once, refreshed while following, and
//! released on every way out.
use vstd::prelude::*;
use crate::error::ESQError;

verus! {

/// The keep-alive of every snapshot.
pub const KEEP_ALIVE: &'static str = "1m";

/// Holds the id of the open snapshot, if any, and counts the open and close requests.
pub struct SnapshotManager {
    pit_id: Option<String>,
    opens: u64,
    closes: u64,
}

impl SnapshotManager {
    /// The id of the open snapshot.
    pub closed spec fn id(&self) -> Option<String> {
        self.pit_id
    }

    /// How many snapshots were opened.
    pub closed spec fn opened(&self) -> nat {
        self.opens as nat
    }

    /// How many close requests were issued.
    pub closed spec fn closed(&self) -> nat {
        self.closes as nat
    }

    /// Every snapshot opened was closed, but the one that is open.
    pub open spec fn wf(&self) -> bool {
        self.opened() == self.closed() + if self.id() is Some {
            1nat
        } else {
            0nat
        }
    }

    /// No snapshot yet.
    pub fn new() -> (r: Self)
        ensures
            r.wf(),
            r.id() is None,
            r.opened() == 0,
            r.closed() == 0,
    {
        SnapshotManager { pit_id: None, opens: 0, closes: 0 }
    }

    pub fn is_open(&self) -> (r: bool)
        ensures
            r == self.id() is Some,
    {
        self.pit_id.is_some()
    }

    /// The id of the open snapshot, for the requests that read through it.
    pub fn snapshot_id(&self) -> (r: Option<String>)
        ensures
            match (r, self.id()) {
                (Some(a), Some(b)) => a@ == b@,
                (None, None) => true,
                _ => false,
            },
    {
        match &self.pit_id {
            Some(id) => Some(id.clone()),
            None => None,
        }
    }

    /// The number of open requests that succeeded.
    pub fn open_requests(&self) -> (r: u64)
        ensures
            r == self.opened(),
    {
        self.opens
    }

    /// The number of close requests issued.
    pub fn close_requests(&self) -> (r: u64)
        ensures
            r == self.closed(),
    {
        self.closes
    }

    /// Takes the service's answer to an open request: the id it holds, or `None` where the
    /// answer has none, which is a protocol error.
    pub fn on_opened(&mut self, id: Option<String>) -> (r: Result<(), ESQError>)
        requires
            old(self).wf(),
            old(self).id() is None,
            old(self).opened() < u64::MAX,
        ensures
            final(self).wf(),
            final(self).closed() == old(self).closed(),
            match id {
                Some(i) => r is Ok && final(self).id() == Some(i) && final(self).opened() == old(
                    self,
                ).opened() + 1,
                None => r matches Err(e) && e is ESError && final(self).id() is None
                    && final(self).opened() == old(self).opened(),
            },
    {
        match id {
            Some(i) => {
                self.pit_id = Some(i);
                self.opens = self.opens + 1;
                Ok(())
            },
            None => Err(ESQError::ESError(String::from_str("Invalid PIT response"))),
        }
    }

    /// Releases the snapshot: returns the id that a close request must name, once; `None`
    /// where none is open.
    pub fn close(&mut self) -> (r: Option<String>)
        requires
            old(self).wf(),
        ensures
            final(self).wf(),
            final(self).id() is None,
            r == old(self).id(),
            final(self).opened() == old(self).opened(),
            final(self).closed() == old(self).closed() + if r is Some {
                1nat
            } else {
                0nat
            },
    {
        match self.pit_id.take() {
            Some(id) => {
                self.closes = self.closes + 1;
                Some(id)
            },
            None => None,
        }
    }
}

/// Once the snapshot is released, each open request has had exactly one close request.
pub proof fn lemma_open_close_paired(m: SnapshotManager)
    requires
        m.wf(),
        m.id() is None,
    ensures
        m.opened() == m.closed(),
{
}

} // verus!
