use vstd::prelude::*;

use crate::timestamp::Timestamp;

verus! {

/// What `.gist.json` records of a gist: when it was created and, if it is
/// archived, when that happened.
#[derive(Clone, Copy, Debug, PartialEq, Eq, Structural)]
pub struct Metadata {
    pub created_at: Timestamp,
    pub archived_at: Option<Timestamp>,
}

impl Metadata {
    /// The metadata of a new gist: created at `created_at`, not archived.
    pub open spec fn created(created_at: Timestamp) -> Metadata {
        Metadata { created_at, archived_at: None }
    }

    /// This metadata with the gist archived at `archived_at`.
    pub open spec fn archived_model(self, archived_at: Timestamp) -> Metadata {
        Metadata { created_at: self.created_at, archived_at: Some(archived_at) }
    }

    /// This metadata with the gist not archived.
    pub open spec fn unarchived_model(self) -> Metadata {
        Metadata { created_at: self.created_at, archived_at: None }
    }

    /// The metadata of a gist created at `created_at`: not archived.
    pub fn from_created_at(created_at: Timestamp) -> (m: Metadata)
        ensures
            m == Metadata::created(created_at),
            m.created_at == created_at,
            m.archived_at == None::<Timestamp>,
    {
        Metadata { created_at, archived_at: None }
    }

    /// The same metadata, archived at `archived_at`.
    pub fn archived(&self, archived_at: Timestamp) -> (m: Metadata)
        ensures
            m == self.archived_model(archived_at),
            m.created_at == self.created_at,
            m.archived_at == Some(archived_at),
    {
        Metadata { created_at: self.created_at, archived_at: Some(archived_at) }
    }

    /// The same metadata, no longer archived.
    pub fn unarchived(&self) -> (m: Metadata)
        ensures
            m == self.unarchived_model(),
            m.created_at == self.created_at,
            m.archived_at == None::<Timestamp>,
    {
        Metadata { created_at: self.created_at, archived_at: None }
    }

    pub fn is_archived(&self) -> (b: bool)
        ensures
            b == (self.archived_at is Some),
    {
        self.archived_at.is_some()
    }
}

/// Unarchiving undoes archiving: archived and then unarchived, metadata is
/// as if only unarchived, and a gist that was not archived gets back its
/// metadata unchanged.
pub proof fn lemma_unarchive_undoes_archive(m: Metadata, archived_at: Timestamp)
    ensures
        m.archived_model(archived_at).unarchived_model() == m.unarchived_model(),
        m.archived_at is None ==> m.archived_model(archived_at).unarchived_model() == m,
{
}

/// Archiving and unarchiving never change when a gist was created, and the
/// last archive time wins.
pub proof fn lemma_archive_keeps_creation(m: Metadata, first: Timestamp, second: Timestamp)
    ensures
        m.archived_model(first).created_at == m.created_at,
        m.unarchived_model().created_at == m.created_at,
        m.archived_model(first).archived_model(second) == m.archived_model(second),
        m.unarchived_model().unarchived_model() == m.unarchived_model(),
        m.unarchived_model().archived_model(second) == m.archived_model(second),
{
}

/// A new gist is not archived, and unarchiving it changes nothing.
pub proof fn lemma_new_gist_not_archived(created_at: Timestamp)
    ensures
        Metadata::created(created_at).archived_at is None,
        Metadata::created(created_at).unarchived_model() == Metadata::created(created_at),
{
}

} // verus!
