//! Versioning state of the search index.
//!
//! The index stores, beside its content documents, a single well-known meta
//! document recording the schema version the index was built with and a dirty
//! flag. The dirty flag is a single-bit write-ahead marker: it is set (by
//! overwriting the whole meta document) immediately before a rebuild starts
//! and cleared (again by a full overwrite) only once the rebuild has fully
//! completed. Any meta document observed with the flag still set therefore
//! proves that the previous rebuild never finished.

use vstd::prelude::*;

verus! {

/// Data stored in the meta area of the search index.
pub struct Meta {
    /// Fixed identifier; at most one meta document may exist.
    pub id: String,
    /// A number simply counting up whenever the search index changes in a way
    /// that requires a rebuild.
    pub version: u32,
    /// Set to `true` while transitioning to a new index version. If the
    /// transition fails or is interrupted, the flag stays set and the next
    /// startup rebuilds again.
    pub dirty: bool,
}

/// The reserved identifier under which the meta document is stored. It must
/// never collide with a content document's identifier.
pub open spec fn meta_doc_id() -> Seq<char> {
    "meta"@
}

impl Meta {
    /// The reserved identifier of the meta document.
    pub fn id_str() -> (r: &'static str)
        ensures
            r@ == meta_doc_id(),
    {
        "meta"
    }

    /// The marker written right before a rebuild starts.
    pub fn current_dirty(current_version: u32) -> (r: Self)
        ensures
            r.id@ == meta_doc_id(),
            r.version == current_version,
            r.dirty == true,
    {
        Meta { id: String::from_str(Self::id_str()), version: current_version, dirty: true }
    }

    /// The marker written once a rebuild has fully completed.
    pub fn current_clean(current_version: u32) -> (r: Self)
        ensures
            r.id@ == meta_doc_id(),
            r.version == current_version,
            r.dirty == false,
    {
        Meta { id: String::from_str(Self::id_str()), version: current_version, dirty: false }
    }
}

/// One document found under the reserved meta identifier, after an attempt to
/// decode it against the current schema. A document that fails to decode is a
/// normal, recoverable observation, not an error.
pub enum MetaDocument {
    Decoded(Meta),
    Undecodable,
}

/// What a query for all documents under the meta identifier came back with.
/// An index that does not exist at all (never created) is a normal state and
/// reported as such by the store; any other transport failure is fatal and
/// never reaches this type.
pub enum MetaQuery {
    /// The store reported that the index itself does not exist.
    IndexMissing,
    /// The index exists; these are all documents stored under the meta
    /// identifier, each with its decode outcome.
    Documents(Vec<MetaDocument>),
}

/// Fatal failure of the meta classification.
#[derive(Clone, Copy, Debug, PartialEq, Eq, Structural)]
pub enum MetaError {
    /// More than one meta document exists: the store's own invariant was
    /// violated from outside. It is ambiguous which copy is authoritative, so
    /// this is surfaced immediately and never auto-repaired.
    MultipleMetaDocuments,
}

/// Versioning state of the index, as classified from the stored meta document.
#[derive(Clone, Copy, Debug, PartialEq, Eq, Structural)]
pub enum IndexState {
    /// No meta document found: a fresh index, or one created before version
    /// tracking existed.
    NoVersionInfo,
    /// A meta document exists but does not decode under the current schema,
    /// e.g. after a downgrade to code that does not understand a newer format.
    BrokenVersionInfo,
    /// A successfully decoded meta document.
    Info { dirty: bool, version: u32 },
}

/// Whether the index content must be rebuilt from the authoritative source,
/// given the classified state and the version constant of the running code.
pub open spec fn spec_needs_rebuild(state: IndexState, current_version: u32) -> bool {
    match state {
        // Code bases whose version is still 1 predate meta tracking entirely,
        // so an absent record at version 1 is expected, not stale.
        IndexState::NoVersionInfo => current_version != 1,
        IndexState::BrokenVersionInfo => true,
        IndexState::Info { dirty, version } => dirty || version != current_version,
    }
}

impl IndexState {
    /// Decides, from durable state alone, whether the index content is usable
    /// as-is or must be rebuilt.
    pub fn needs_rebuild(self, current_version: u32) -> (r: bool)
        ensures
            r == spec_needs_rebuild(self, current_version),
    {
        match self {
            IndexState::NoVersionInfo => current_version != 1,
            IndexState::BrokenVersionInfo => true,
            IndexState::Info { dirty, version } => dirty || version != current_version,
        }
    }

    /// Classification of the documents found under the meta identifier:
    /// zero documents mean a fresh index, more than one is a structural
    /// corruption, and a single document yields its decode outcome.
    pub open spec fn spec_classify(docs: Seq<MetaDocument>) -> Result<IndexState, MetaError> {
        if docs.len() == 0 {
            Ok(IndexState::NoVersionInfo)
        } else if docs.len() > 1 {
            Err(MetaError::MultipleMetaDocuments)
        } else {
            match docs[0] {
                MetaDocument::Decoded(m) => Ok(
                    IndexState::Info { dirty: m.dirty, version: m.version },
                ),
                MetaDocument::Undecodable => Ok(IndexState::BrokenVersionInfo),
            }
        }
    }

    /// What [`Self::from_query`] returns for each possible query outcome.
    pub open spec fn spec_from_query(query: MetaQuery) -> Result<IndexState, MetaError> {
        match query {
            MetaQuery::IndexMissing => Ok(IndexState::NoVersionInfo),
            MetaQuery::Documents(docs) => Self::spec_classify(docs@),
        }
    }

    /// Classifies the outcome of querying the store for all meta documents.
    ///
    /// A missing index and an empty result are both the normal
    /// [`IndexState::NoVersionInfo`]; a single undecodable document is the
    /// recoverable [`IndexState::BrokenVersionInfo`]; only finding more than
    /// one meta document is a fatal error.
    pub fn from_query(query: &MetaQuery) -> (r: Result<Self, MetaError>)
        ensures
            r == Self::spec_from_query(*query),
    {
        match query {
            MetaQuery::IndexMissing => Ok(IndexState::NoVersionInfo),
            MetaQuery::Documents(docs) => {
                if docs.len() == 0 {
                    Ok(IndexState::NoVersionInfo)
                } else if docs.len() > 1 {
                    Err(MetaError::MultipleMetaDocuments)
                } else {
                    match &docs[0] {
                        MetaDocument::Decoded(m) => Ok(
                            IndexState::Info { dirty: m.dirty, version: m.version },
                        ),
                        MetaDocument::Undecodable => Ok(IndexState::BrokenVersionInfo),
                    }
                }
            },
        }
    }
}

/// State machine of the meta area of the search index.
///
/// The real store is external; this type is its model, holding exactly what a
/// query for the meta identifier would come back with. The surrounding store
/// layer performs each operation below as one durable store round trip; the
/// transitions and the classification are decided here.
pub struct MetaStore {
    pub state: MetaQuery,
}

/// The meta area holds exactly one document, and it decodes to a marker with
/// the given version and dirty flag. This is what the meta area looks like
/// after one of the marker writes, since those writes never append: they
/// replace whatever was there.
pub open spec fn spec_holds_marker(q: MetaQuery, version: u32, dirty: bool) -> bool {
    match q {
        MetaQuery::IndexMissing => false,
        MetaQuery::Documents(docs) => docs@.len() == 1 && match docs@[0] {
            MetaDocument::Decoded(m) => m.id@ == meta_doc_id() && m.version == version
                && m.dirty == dirty,
            MetaDocument::Undecodable => false,
        },
    }
}

impl MetaStore {
    /// A store whose index was never created.
    pub fn new() -> (r: Self)
        ensures
            r.state == MetaQuery::IndexMissing,
    {
        MetaStore { state: MetaQuery::IndexMissing }
    }

    /// Classifies the current content of the meta area.
    pub fn fetch(&self) -> (r: Result<IndexState, MetaError>)
        ensures
            r == IndexState::spec_from_query(self.state),
    {
        IndexState::from_query(&self.state)
    }

    /// Overwrites the meta document with `{version: current, dirty: true}`.
    /// Called immediately before a rebuild begins, before any destructive
    /// index mutation.
    pub fn write_dirty_marker(&mut self, current_version: u32)
        ensures
            spec_holds_marker(final(self).state, current_version, true),
    {
        let mut docs: Vec<MetaDocument> = Vec::new();
        docs.push(MetaDocument::Decoded(Meta::current_dirty(current_version)));
        self.state = MetaQuery::Documents(docs);
    }

    /// Overwrites the meta document with `{version: current, dirty: false}`.
    /// Called only after a rebuild has fully and successfully populated the
    /// index.
    pub fn write_clean_marker(&mut self, current_version: u32)
        ensures
            spec_holds_marker(final(self).state, current_version, false),
    {
        let mut docs: Vec<MetaDocument> = Vec::new();
        docs.push(MetaDocument::Decoded(Meta::current_clean(current_version)));
        self.state = MetaQuery::Documents(docs);
    }
}

/// Writing a marker and then fetching yields exactly the written marker: a
/// meta area that holds one marker document classifies as `Info` with that
/// marker's flag and version.
pub proof fn lemma_marker_round_trip(q: MetaQuery, version: u32, dirty: bool)
    requires
        spec_holds_marker(q, version, dirty),
    ensures
        IndexState::spec_from_query(q) == Ok::<IndexState, MetaError>(
            IndexState::Info { dirty, version },
        ),
{
}

/// Crash recovery: as long as the dirty marker is the last thing written —
/// that is, the clean marker never made it — the index classifies as a state
/// that forces a rebuild, whatever version the restarted code runs.
pub proof fn lemma_dirty_marker_forces_rebuild(q: MetaQuery, version: u32, current_version: u32)
    requires
        spec_holds_marker(q, version, true),
    ensures
        IndexState::spec_from_query(q) matches Ok(state) && spec_needs_rebuild(
            state,
            current_version,
        ),
{
}

/// Successful rebuild: once the clean marker for the running code's version
/// is written, the index classifies as up to date and no rebuild is required.
pub proof fn lemma_clean_marker_settles_index(q: MetaQuery, current_version: u32)
    requires
        spec_holds_marker(q, current_version, false),
    ensures
        IndexState::spec_from_query(q) matches Ok(state) && !spec_needs_rebuild(
            state,
            current_version,
        ),
{
}

/// An absent meta record forces a rebuild exactly when the running code's
/// version differs from the legacy bootstrap value 1.
pub proof fn lemma_no_version_info_rebuild(current_version: u32)
    ensures
        spec_needs_rebuild(IndexState::NoVersionInfo, current_version) == (current_version != 1),
{
}

/// An undecodable meta record forces a rebuild unconditionally, for any
/// version of the running code.
pub proof fn lemma_broken_version_info_rebuild(current_version: u32)
    ensures
        spec_needs_rebuild(IndexState::BrokenVersionInfo, current_version),
{
}

/// A set dirty flag forces a rebuild even when the recorded version matches
/// the running code.
pub proof fn lemma_dirty_flag_rebuild(current_version: u32)
    ensures
        spec_needs_rebuild(
            IndexState::Info { dirty: true, version: current_version },
            current_version,
        ),
{
}

/// A clean meta record at the running code's version requires no rebuild.
pub proof fn lemma_clean_current_no_rebuild(current_version: u32)
    ensures
        !spec_needs_rebuild(
            IndexState::Info { dirty: false, version: current_version },
            current_version,
        ),
{
}

/// A version mismatch forces a rebuild even when the record is clean.
pub proof fn lemma_version_skew_rebuild(version: u32, current_version: u32)
    requires
        version != current_version,
    ensures
        spec_needs_rebuild(IndexState::Info { dirty: false, version }, current_version),
{
}

} // verus!
