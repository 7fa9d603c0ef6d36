//! The catalog: maps a table identifier to the current table metadata and a
//! version token, and offers the one concurrency-control primitive of the
//! engine — a conditional pointer swap.
//!
//! [`Catalog::commit`] succeeds only if the stored version token still equals
//! the token the writer read at load time; otherwise the pointer has moved
//! (another writer committed first) and the caller gets `CommitConflict`.
//! This in-memory catalog plays the role of the durable metadata store: its
//! contract is exactly the conditional-write semantics a remote store offers.

use vstd::prelude::*;
use crate::ident::{Identifier, IdentifierV};
use crate::table::{TableMetadata, TableMetadataV};

verus! {

/// Failure to load a table through the catalog.  Neither variant is a
/// concurrency conflict, so the writer never retries them.
#[derive(Debug, PartialEq)]
pub enum CatalogError {
    /// The identifier has no metadata pointer.
    NotFound,
    /// Transient transport failure towards the metadata store.  The in-memory
    /// catalog never raises it; remote catalog implementations hand it to the
    /// writer through the protocol events.
    CatalogUnavailable,
}

/// Failure of the conditional write.
#[derive(Debug, PartialEq)]
pub enum CommitError {
    /// The identifier has no metadata pointer.
    NotFound,
    /// The pointer moved since load: another writer committed first.
    CommitConflict,
}

/// Mathematical model of a [`CatalogEntry`].
pub struct CatalogEntryV {
    pub identifier: IdentifierV,
    pub metadata: TableMetadataV,
    pub version: u64,
}

/// One table known to the catalog: its identifier, its current metadata, and
/// the version token of that metadata.
#[derive(Debug)]
pub struct CatalogEntry {
    pub identifier: Identifier,
    pub metadata: TableMetadata,
    pub version: u64,
}

impl View for CatalogEntry {
    type V = CatalogEntryV;

    open spec fn view(&self) -> CatalogEntryV {
        CatalogEntryV {
            identifier: self.identifier@,
            metadata: self.metadata@,
            version: self.version,
        }
    }
}

/// Deep view of a sequence of catalog entries.
pub open spec fn entries_view(es: Seq<CatalogEntry>) -> Seq<CatalogEntryV> {
    es.map_values(|e: CatalogEntry| e@)
}

/// The catalog holds an entry for this identifier.
pub open spec fn has_entry(entries: Seq<CatalogEntryV>, id: IdentifierV) -> bool {
    exists|i: int| 0 <= i < entries.len() && (#[trigger] entries[i]).identifier == id
}

/// Every stored version token has room left, so a commit can still bump it.
pub open spec fn versions_ok(entries: Seq<CatalogEntryV>) -> bool {
    forall|i: int| 0 <= i < entries.len() ==> (#[trigger] entries[i]).version < u64::MAX
}

/// Every stored table's id counters have room left, so a snapshot can still
/// be appended to any of them.
pub open spec fn table_counters_ok(entries: Seq<CatalogEntryV>) -> bool {
    forall|i: int| 0 <= i < entries.len() ==> (#[trigger] entries[i]).metadata.counters_ok()
}

/// The in-memory catalog: a set of tables, each with versioned metadata.
#[derive(Debug)]
pub struct Catalog {
    pub entries: Vec<CatalogEntry>,
}

impl View for Catalog {
    type V = Seq<CatalogEntryV>;

    open spec fn view(&self) -> Seq<CatalogEntryV> {
        entries_view(self.entries@)
    }
}

impl Catalog {
    /// Identifiers are pairwise distinct and well formed, and every stored
    /// metadata value is well formed.
    pub open spec fn wf(&self) -> bool {
        &&& forall|i: int| 0 <= i < self@.len() ==> (#[trigger] self@[i]).identifier.wf()
        &&& forall|i: int| 0 <= i < self@.len() ==> (#[trigger] self@[i]).metadata.wf()
        &&& forall|i: int, j: int| 0 <= i < j < self@.len()
            ==> self@[i].identifier != self@[j].identifier
    }

    /// An empty catalog.
    pub fn new() -> (r: Catalog)
        ensures
            r@.len() == 0,
            r.wf(),
    {
        let r = Catalog { entries: Vec::new() };
        proof {
            assert(r@ =~= Seq::<CatalogEntryV>::empty());
        }
        r
    }

    /// The index of the entry for an identifier, if one exists.
    fn find_entry(&self, identifier: &Identifier) -> (r: Option<usize>)
        ensures
            r matches Some(i) ==> i < self@.len() && self@[i as int].identifier == identifier@,
            r is None ==> !has_entry(self@, identifier@),
    {
        let mut i: usize = 0;
        while i < self.entries.len()
            invariant
                i <= self.entries.len(),
                forall|j: int| 0 <= j < i ==> (#[trigger] self@[j]).identifier != identifier@,
            decreases self.entries.len() - i,
        {
            if self.entries[i].identifier.same_as(identifier) {
                proof {
                    assert(self@[i as int] == self.entries@[i as int]@);
                }
                return Some(i);
            }
            proof {
                assert(self@[i as int] == self.entries@[i as int]@);
            }
            i += 1;
        }
        None
    }

    /// Registers a new table (the creation ceremony kept minimal: an
    /// identifier and its initial metadata at version token 0).  Returns
    /// false, changing nothing, when the identifier is already taken.
    pub fn try_register(&mut self, identifier: Identifier, metadata: TableMetadata) -> (r: bool)
        requires
            old(self).wf(),
            identifier@.wf(),
            metadata@.wf(),
        ensures
            r <==> !has_entry(old(self)@, identifier@),
            r ==> final(self)@ == old(self)@.push(CatalogEntryV {
                identifier: identifier@,
                metadata: metadata@,
                version: 0,
            }),
            !r ==> final(self)@ == old(self)@,
            final(self).wf(),
    {
        match self.find_entry(&identifier) {
            Some(_) => false,
            None => {
                self.entries.push(CatalogEntry { identifier, metadata, version: 0 });
                proof {
                    assert(self@ =~= old(self)@.push(CatalogEntryV {
                        identifier: identifier@,
                        metadata: metadata@,
                        version: 0,
                    }));
                }
                true
            },
        }
    }

    /// Resolves an identifier to a copy of the current table metadata and the
    /// version token identifying the exact metadata value read.  Fails with
    /// `NotFound` exactly when the catalog has no entry for the identifier.
    pub fn load(&self, identifier: &Identifier) -> (r: Result<(TableMetadata, u64), CatalogError>)
        requires
            self.wf(),
        ensures
            r is Ok <==> has_entry(self@, identifier@),
            r matches Ok((m, tok)) ==> exists|i: int| {
                &&& 0 <= i < self@.len()
                &&& (#[trigger] self@[i]).identifier == identifier@
                &&& m@ == self@[i].metadata
                &&& tok == self@[i].version
            },
            r matches Ok((m, tok)) ==> m@.wf(),
            r matches Err(e) ==> e == CatalogError::NotFound,
    {
        match self.find_entry(identifier) {
            Some(i) => {
                let m = self.entries[i].metadata.duplicate();
                let tok = self.entries[i].version;
                proof {
                    assert(self@[i as int] == self.entries@[i as int]@);
                }
                Ok((m, tok))
            },
            None => Err(CatalogError::NotFound),
        }
    }

    /// The conditional write: replaces the metadata for an identifier only if
    /// the stored version token still equals `expected_version`, bumping the
    /// token.  Fails with `CommitConflict` exactly when the entry exists but
    /// its token moved — another writer committed since this one loaded.  On
    /// any failure the catalog is untouched.  Earlier metadata values remain
    /// retrievable by their holders: the entry's pointer moves, nothing is
    /// edited in place.
    pub fn commit(
        &mut self,
        identifier: &Identifier,
        expected_version: u64,
        new_metadata: TableMetadata,
    ) -> (r: Result<(), CommitError>)
        requires
            old(self).wf(),
            versions_ok(old(self)@),
            new_metadata@.wf(),
        ensures
            r is Ok <==> exists|i: int| {
                &&& 0 <= i < old(self)@.len()
                &&& (#[trigger] old(self)@[i]).identifier == identifier@
                &&& old(self)@[i].version == expected_version
            },
            r is Ok ==> exists|i: int| {
                &&& 0 <= i < old(self)@.len()
                &&& (#[trigger] old(self)@[i]).identifier == identifier@
                &&& old(self)@[i].version == expected_version
                &&& final(self)@ == old(self)@.update(i, CatalogEntryV {
                    identifier: old(self)@[i].identifier,
                    metadata: new_metadata@,
                    version: (expected_version + 1) as u64,
                })
            },
            r matches Err(e) ==> {
                &&& final(self)@ == old(self)@
                &&& (e == CommitError::NotFound <==> !has_entry(old(self)@, identifier@))
                &&& (e == CommitError::CommitConflict <==> exists|i: int| {
                    &&& 0 <= i < old(self)@.len()
                    &&& (#[trigger] old(self)@[i]).identifier == identifier@
                    &&& old(self)@[i].version != expected_version
                })
            },
            final(self).wf(),
            final(self)@.len() == old(self)@.len(),
    {
        match self.find_entry(identifier) {
            None => Err(CommitError::NotFound),
            Some(i) => {
                if self.entries[i].version != expected_version {
                    proof {
                        assert(self@[i as int] == self.entries@[i as int]@);
                    }
                    Err(CommitError::CommitConflict)
                } else {
                    let id_kept = self.entries[i].identifier.duplicate();
                    let e = CatalogEntry {
                        identifier: id_kept,
                        metadata: new_metadata,
                        version: expected_version + 1,
                    };
                    proof {
                        assert(self@[i as int] == self.entries@[i as int]@);
                        assert(self@[i as int].version < u64::MAX);
                    }
                    self.entries[i] = e;
                    proof {
                        assert(self@ =~= old(self)@.update(i as int, CatalogEntryV {
                            identifier: old(self)@[i as int].identifier,
                            metadata: new_metadata@,
                            version: (expected_version + 1) as u64,
                        }));
                    }
                    Ok(())
                }
            },
        }
    }
}

} // verus!
