//! The ways in which a metastore operation fails.

use crate::metastore::split::SplitState;
use vstd::prelude::*;

verus! {

/// The kind of a [`MetastoreError`].
#[derive(Clone, Copy, Debug, PartialEq, Eq, Structural)]
pub enum MetastoreErrorKind {
    IndexDoesNotExist,
    ExistingSplitId,
    DoesNotExist,
    SplitIsNotStaged,
    Forbidden,
    InvalidManifest,
    InternalError,
}

/// What the storage was asked to do.
#[derive(Clone, Copy, Debug, PartialEq, Eq, Structural)]
pub enum StorageOperation {
    Exists,
    GetAll,
    Put,
    Delete,
}

/// Why a metastore operation failed.
#[derive(Debug)]
pub enum MetastoreError {
    /// The metastore does not know the index.
    IndexDoesNotExist { index_uri: String },
    /// The id of a new split is taken.
    ExistingSplitId { split_id: String },
    /// The index has no such split.
    DoesNotExist { split_id: String },
    /// Only a staged split can be published.
    SplitIsNotStaged { split_id: String },
    /// A split in this state cannot be deleted.
    Forbidden { split_id: String, split_state: SplitState },
    /// The manifest could not be turned into bytes, or bytes into a manifest.
    InvalidManifest { cause: String },
    /// The storage failed.
    InternalError { operation: StorageOperation, cause: String },
}

/// The mathematical value of a [`MetastoreError`].
pub enum MetastoreErrorView {
    IndexDoesNotExist { index_uri: Seq<char> },
    ExistingSplitId { split_id: Seq<char> },
    DoesNotExist { split_id: Seq<char> },
    SplitIsNotStaged { split_id: Seq<char> },
    Forbidden { split_id: Seq<char>, split_state: SplitState },
    InvalidManifest { cause: Seq<char> },
    InternalError { operation: StorageOperation, cause: Seq<char> },
}

impl View for MetastoreError {
    type V = MetastoreErrorView;

    open spec fn view(&self) -> MetastoreErrorView {
        match *self {
            MetastoreError::IndexDoesNotExist { index_uri } => MetastoreErrorView::IndexDoesNotExist {
                index_uri: index_uri@,
            },
            MetastoreError::ExistingSplitId { split_id } => MetastoreErrorView::ExistingSplitId {
                split_id: split_id@,
            },
            MetastoreError::DoesNotExist { split_id } => MetastoreErrorView::DoesNotExist {
                split_id: split_id@,
            },
            MetastoreError::SplitIsNotStaged { split_id } => MetastoreErrorView::SplitIsNotStaged {
                split_id: split_id@,
            },
            MetastoreError::Forbidden { split_id, split_state } => MetastoreErrorView::Forbidden {
                split_id: split_id@,
                split_state,
            },
            MetastoreError::InvalidManifest { cause } => MetastoreErrorView::InvalidManifest {
                cause: cause@,
            },
            MetastoreError::InternalError { operation, cause } => MetastoreErrorView::InternalError {
                operation,
                cause: cause@,
            },
        }
    }
}

impl MetastoreErrorView {
    pub open spec fn kind(self) -> MetastoreErrorKind {
        match self {
            MetastoreErrorView::IndexDoesNotExist { .. } => MetastoreErrorKind::IndexDoesNotExist,
            MetastoreErrorView::ExistingSplitId { .. } => MetastoreErrorKind::ExistingSplitId,
            MetastoreErrorView::DoesNotExist { .. } => MetastoreErrorKind::DoesNotExist,
            MetastoreErrorView::SplitIsNotStaged { .. } => MetastoreErrorKind::SplitIsNotStaged,
            MetastoreErrorView::Forbidden { .. } => MetastoreErrorKind::Forbidden,
            MetastoreErrorView::InvalidManifest { .. } => MetastoreErrorKind::InvalidManifest,
            MetastoreErrorView::InternalError { .. } => MetastoreErrorKind::InternalError,
        }
    }
}

impl MetastoreError {
    /// The kind of the error.
    pub fn kind(&self) -> (kind: MetastoreErrorKind)
        ensures
            kind == self@.kind(),
    {
        match self {
            MetastoreError::IndexDoesNotExist { .. } => MetastoreErrorKind::IndexDoesNotExist,
            MetastoreError::ExistingSplitId { .. } => MetastoreErrorKind::ExistingSplitId,
            MetastoreError::DoesNotExist { .. } => MetastoreErrorKind::DoesNotExist,
            MetastoreError::SplitIsNotStaged { .. } => MetastoreErrorKind::SplitIsNotStaged,
            MetastoreError::Forbidden { .. } => MetastoreErrorKind::Forbidden,
            MetastoreError::InvalidManifest { .. } => MetastoreErrorKind::InvalidManifest,
            MetastoreError::InternalError { .. } => MetastoreErrorKind::InternalError,
        }
    }
}

} // verus!
