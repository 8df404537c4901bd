//! Shared option types for the key-value operations.

use vstd::prelude::*;

verus! {

/// Optional preconditions on the current state of a node, used by the
/// conditional compare-and-swap and compare-and-delete operations.
///
/// A conditional operation must supply at least one of the two fields; a
/// condition set with neither is rejected locally, before any endpoint is
/// contacted.
#[derive(Clone, Debug, Eq, Hash, PartialEq)]
pub struct ComparisonConditions {
    /// The value the node is required to currently hold.
    pub value: Option<String>,
    /// The modification index the node is required to currently be at.
    pub modified_index: Option<u64>,
}

impl ComparisonConditions {
    /// True when neither condition field is set, which makes the condition
    /// set invalid.
    pub open spec fn spec_is_empty(&self) -> bool {
        self.value is None && self.modified_index is None
    }

    /// Reports whether both condition fields are absent.
    pub fn is_empty(&self) -> (r: bool)
        ensures
            r == self.spec_is_empty(),
    {
        self.value.is_none() && self.modified_index.is_none()
    }
}

/// The full parameter set for a write-family operation.
#[derive(Clone, Debug, Eq, Hash, PartialEq)]
pub struct SetOptions {
    /// Preconditions on the current state of the node.
    pub conditions: Option<ComparisonConditions>,
    /// Route the write through the "append under this directory" path
    /// instead of the idempotent "set" path.
    pub create_in_order: bool,
    /// Whether the write targets a directory rather than a leaf key.
    pub dir: Option<bool>,
    /// Require the node to currently exist (or to not exist).
    pub prev_exist: Option<bool>,
    /// Bump the node's time to live without changing its value and without
    /// notifying watchers.
    pub refresh: bool,
    /// The node's new time to live, in seconds.
    pub ttl: Option<u64>,
    /// The node's new value.
    pub value: Option<String>,
}

/// The full parameter set for a delete-family operation.
#[derive(Clone, Debug, Eq, Hash, PartialEq)]
pub struct DeleteOptions {
    /// Preconditions on the current state of the node.
    pub conditions: Option<ComparisonConditions>,
    /// Whether the delete targets a directory.
    pub dir: Option<bool>,
    /// Whether a directory's children are deleted as well.
    pub recursive: Option<bool>,
}

/// The full parameter set for a read-family operation, including the
/// long-poll fields used by watches.
#[derive(Clone, Debug, Eq, Hash, PartialEq)]
pub struct GetOptions {
    /// Whether a directory's children are returned as well.
    pub recursive: bool,
    /// Whether a directory's children are sorted alphabetically.
    pub sort: Option<bool>,
    /// Whether the serving node synchronizes with the quorum first.
    pub strong_consistency: bool,
    /// Hold the request open until the node changes.
    pub wait: bool,
    /// Report the first change at this store index or greater.
    pub wait_index: Option<u64>,
}

} // verus!
