//! A catalog-mediated table ingestion engine.
//!
//! Given a logical table identifier, the engine resolves the table's current
//! metadata through a catalog, reconciles a batch of typed records against the
//! table's declared schema, and commits the reconciled data as a new,
//! atomically visible snapshot.  Concurrent writers are coordinated solely by
//! the catalog's conditional write: a commit succeeds only if the metadata
//! pointer is unchanged since it was read, and a writer that loses the race
//! reloads and rebuilds its candidate on top of the new current snapshot.
//!
//! - [`ident`]: table identifiers, the catalog lookup key.
//! - [`schema`]: fields, schemas, and precise schema mismatches.
//! - [`batch`]: the caller-supplied table of typed columns.
//! - [`reconcile`]: reshaping a batch into a target schema's layout.
//! - [`table`]: table metadata, the snapshot chain, and the pure
//!   snapshot-append builder.
//! - [`catalog`]: identifier resolution and the conditional pointer swap.
//! - [`writer`]: the load → reconcile → stage → commit protocol with
//!   bounded conflict retries.

pub mod batch;
pub mod catalog;
pub mod ident;
pub mod reconcile;
pub mod schema;
pub mod table;
pub mod writer;
