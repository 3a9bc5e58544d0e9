use vstd::prelude::*;
use crate::document::{Document, NewDocument};
use crate::error::StoreError;
use crate::ident::{is_external_id, random_uuid_text};
use crate::json::{encode_json, json_text_of};
use crate::readback::{read_back_ok, select_stored, stores, views};

verus! {

/// Why the pool handed out no connection.
#[derive(Clone, Copy, Debug, PartialEq, Eq, Structural)]
pub enum AcquireFailure {
    /// The wait bound elapsed with no connection free.
    TimedOut,
    /// The pool was torn down.
    Closed,
}

/// What the caller observed after performing the last action.
pub enum Event {
    /// A connection was leased.
    Leased,
    /// No connection was leased.
    LeaseFailed(AcquireFailure),
    /// The insert ran and reported this many rows written.
    Inserted(usize),
    /// The insert failed.
    InsertFailed,
    /// The rows that bear the requested identifier.
    Fetched(Vec<Document>),
    /// The read-back query failed.
    FetchFailed,
    /// The connection went back to the pool.
    Released,
}

/// What the caller must do next.
pub enum Action {
    /// Lease a connection from the pool.
    Acquire,
    /// Insert this row through the leased connection.
    Insert(NewDocument),
    /// Read back the rows that bear this external identifier.
    Fetch(String),
    /// Return the leased connection to the pool.
    Release,
    /// The operation is over, with this result.
    Finish(Result<Document, StoreError>),
}

/// Where a session stands: waiting for a lease, for the insert, for the
/// read-back, for the release, or finished.
#[derive(Clone, Copy, Debug, PartialEq, Eq, Structural)]
pub enum Phase {
    Acquiring,
    Writing,
    ReadingBack,
    Releasing,
    Done,
}

/// The insert-then-read-back path for one document: the decisions, apart
/// from the pool and the store that carry them out.
pub struct InsertSession {
    /// The row this session writes.
    pub row: NewDocument,
    pub phase: Phase,
    /// The result, once it is decided.
    pub outcome: Option<Result<Document, StoreError>>,
}

impl InsertSession {
    /// A connection is leased to this session.
    pub open spec fn holds_lease(&self) -> bool {
        self.phase == Phase::Writing || self.phase == Phase::ReadingBack || self.phase
            == Phase::Releasing
    }

    /// The row has a generated identifier, a result is held exactly while the
    /// lease is being given back, and a successful result stores the row.
    pub open spec fn wf(&self) -> bool {
        &&& is_external_id(self.row.external_id@)
        &&& (self.phase == Phase::Releasing) == self.outcome is Some
        &&& self.outcome matches Some(Ok(d)) ==> stores(d@, self.row)
    }

    /// The events that the current phase waits for.
    pub open spec fn accepts_spec(&self, e: &Event) -> bool {
        match self.phase {
            Phase::Acquiring => e is Leased || e is LeaseFailed,
            Phase::Writing => e is Inserted || e is InsertFailed,
            Phase::ReadingBack => e is Fetched || e is FetchFailed,
            Phase::Releasing => e is Released,
            Phase::Done => false,
        }
    }

    /// Tells whether the current phase waits for `e`.
    pub fn accepts(&self, e: &Event) -> (r: bool)
        ensures
            r == self.accepts_spec(e),
    {
        match self.phase {
            Phase::Acquiring => matches!(e, Event::Leased | Event::LeaseFailed(_)),
            Phase::Writing => matches!(e, Event::Inserted(_) | Event::InsertFailed),
            Phase::ReadingBack => matches!(e, Event::Fetched(_) | Event::FetchFailed),
            Phase::Releasing => matches!(e, Event::Released),
            Phase::Done => false,
        }
    }

    /// A session that will write `payload` verbatim under a fresh external
    /// identifier; its first action is to lease a connection.
    pub fn begin(payload: String) -> (r: (InsertSession, Action))
        ensures
            r.0.wf(),
            r.0.row.payload@ == payload@,
            r.0.phase == Phase::Acquiring,
            r.1 is Acquire,
    {
        let external_id = random_uuid_text();
        let row = NewDocument::new(external_id, payload);
        (InsertSession { row, phase: Phase::Acquiring, outcome: None }, Action::Acquire)
    }

    /// A session that will write the compact JSON text of `payload`.
    pub fn start(payload: &serde_json::Value) -> (r: (InsertSession, Action))
        ensures
            r.0.wf(),
            r.0.row.payload@ == json_text_of(*payload),
            r.0.phase == Phase::Acquiring,
            r.1 is Acquire,
    {
        InsertSession::begin(encode_json(payload))
    }

    /// Takes the event that the last action produced and decides the next action.
    pub fn step(&mut self, e: Event) -> (a: Action)
        requires
            old(self).wf(),
            old(self).accepts_spec(&e),
        ensures
            final(self).wf(),
            final(self).row == old(self).row,
            a is Finish <==> final(self).phase == Phase::Done,
            // a lease ends only by its release, and the session finishes holding none
            old(self).holds_lease() && !final(self).holds_lease() ==> old(self).phase
                == Phase::Releasing && e is Released,
            a is Finish ==> !final(self).holds_lease(),
            a is Release <==> final(self).phase == Phase::Releasing,
            match (old(self).phase, e) {
                (Phase::Acquiring, Event::Leased) => {
                    &&& final(self).phase == Phase::Writing
                    &&& a matches Action::Insert(r)
                    &&& r.external_id@ == old(self).row.external_id@
                    &&& r.payload@ == old(self).row.payload@
                },
                (Phase::Acquiring, Event::LeaseFailed(f)) => final(self).phase == Phase::Done
                    && a == Action::Finish(Err(
                    if f == AcquireFailure::TimedOut {
                        StoreError::PoolExhausted
                    } else {
                        StoreError::PoolClosed
                    },
                )),
                (Phase::Writing, Event::Inserted(n)) => if n == 1 {
                    &&& final(self).phase == Phase::ReadingBack
                    &&& a matches Action::Fetch(id)
                    &&& id@ == old(self).row.external_id@
                } else {
                    final(self).outcome == Some(Err::<Document, StoreError>(StoreError::WriteError))
                },
                (Phase::Writing, Event::InsertFailed) => final(self).outcome == Some(
                    Err::<Document, StoreError>(StoreError::WriteError),
                ),
                (Phase::ReadingBack, Event::Fetched(rows)) => match final(self).outcome {
                    Some(Ok(d)) => read_back_ok(old(self).row, views(rows@)) && views(
                        rows@,
                    ).contains(d@),
                    Some(Err(err)) => !read_back_ok(old(self).row, views(rows@)) && err
                        == StoreError::ReadBackError,
                    None => false,
                },
                (Phase::ReadingBack, Event::FetchFailed) => final(self).outcome == Some(
                    Err::<Document, StoreError>(StoreError::ReadBackError),
                ),
                (Phase::Releasing, Event::Released) => final(self).phase == Phase::Done
                    && a == Action::Finish(old(self).outcome.unwrap()),
                _ => false,
            },
    {
        match e {
            Event::Leased => {
                self.phase = Phase::Writing;
                Action::Insert(self.row.duplicate())
            },
            Event::LeaseFailed(f) => {
                self.phase = Phase::Done;
                let err = match f {
                    AcquireFailure::TimedOut => StoreError::PoolExhausted,
                    AcquireFailure::Closed => StoreError::PoolClosed,
                };
                Action::Finish(Err(err))
            },
            Event::Inserted(n) => {
                if n == 1 {
                    self.phase = Phase::ReadingBack;
                    Action::Fetch(self.row.external_id.clone())
                } else {
                    self.phase = Phase::Releasing;
                    self.outcome = Some(Err(StoreError::WriteError));
                    Action::Release
                }
            },
            Event::InsertFailed => {
                self.phase = Phase::Releasing;
                self.outcome = Some(Err(StoreError::WriteError));
                Action::Release
            },
            Event::Fetched(rows) => {
                let found = select_stored(&self.row, &rows);
                self.phase = Phase::Releasing;
                self.outcome = Some(found);
                Action::Release
            },
            Event::FetchFailed => {
                self.phase = Phase::Releasing;
                self.outcome = Some(Err(StoreError::ReadBackError));
                Action::Release
            },
            Event::Released => {
                self.phase = Phase::Done;
                let out = self.outcome.take();
                match out {
                    Some(res) => Action::Finish(res),
                    None => Action::Finish(Err(StoreError::ReadBackError)),
                }
            },
        }
    }
}

/// A session returns exactly the payload text it wrote, under the external
/// identifier it generated, whatever the store reported.
pub proof fn lemma_returned_document_is_written(s: InsertSession, d: Document)
    requires
        s.wf(),
        s.outcome == Some(Ok::<Document, StoreError>(d)),
    ensures
        d.payload@ == s.row.payload@,
        d.external_id@ == s.row.external_id@,
{
}

} // verus!
