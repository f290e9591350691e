use vstd::prelude::*;

use crate::dispatch::Request;

verus! {

/// The page the workspace shows.
#[derive(Clone, Copy, Debug, PartialEq, Eq, Structural)]
pub enum Page {
    Home,
    Collections,
}

/// A named group of requests.
#[derive(Clone, Debug, PartialEq)]
pub struct Collection {
    pub name: String,
    pub requests: Vec<Request>,
    pub collapsed: bool,
}

/// Everything that is saved and restored: the page, the open request of the
/// root collection, the open request inside a collection (collection, request),
/// the root collection and the other collections.
#[derive(Clone, Debug, PartialEq)]
pub struct WorkspaceSnapshot {
    pub page: Page,
    pub main_current: usize,
    pub col_current: Vec<usize>,
    pub main_col: Collection,
    pub collections: Vec<Collection>,
}

/// The canonical workspace, and whether the UI has been asked to re-render
/// since the last time it took the notification.
pub struct StateStore {
    pub workspace: WorkspaceSnapshot,
    pub update_pending: bool,
}

/// The store after a restore whose blob parsed to `parsed` (`None`: it did
/// not parse). A failed restore changes nothing; a successful one replaces the
/// whole workspace at once and asks for a re-render.
pub open spec fn restored(store: StateStore, parsed: Option<WorkspaceSnapshot>) -> StateStore {
    match parsed {
        Some(s) => StateStore { workspace: s, update_pending: true },
        None => store,
    }
}

impl StateStore {
    /// A store holding `workspace`, with no re-render pending.
    pub fn new(workspace: WorkspaceSnapshot) -> (r: StateStore)
        ensures
            r.workspace == workspace,
            !r.update_pending,
    {
        StateStore { workspace, update_pending: false }
    }

    /// The workspace to serialize on save.
    pub fn save_state(&self) -> (r: &WorkspaceSnapshot)
        ensures
            *r == self.workspace,
    {
        &self.workspace
    }

    /// Applies the outcome of parsing a restored blob; returns whether the
    /// workspace was replaced.
    pub fn set_save_state(&mut self, parsed: Option<WorkspaceSnapshot>) -> (r: bool)
        ensures
            *final(self) == restored(*old(self), parsed),
            r == parsed.is_some(),
    {
        match parsed {
            Some(s) => {
                self.workspace = s;
                self.update_pending = true;
                true
            },
            None => false,
        }
    }

    /// Takes the pending re-render notification, if any.
    pub fn take_update(&mut self) -> (r: bool)
        ensures
            r == old(self).update_pending,
            !final(self).update_pending,
            final(self).workspace == old(self).workspace,
    {
        let r = self.update_pending;
        self.update_pending = false;
        r
    }
}

/// Saving a workspace and restoring what was saved, into any store, leaves
/// that store holding exactly the saved workspace.
pub proof fn lemma_restore_after_save(saved_from: StateStore, target: StateStore)
    ensures
        restored(target, Some(saved_from.workspace)).workspace == saved_from.workspace,
{
}

/// A restore whose blob does not parse leaves the store as it was.
pub proof fn lemma_failed_restore_keeps_store(store: StateStore)
    ensures
        restored(store, None) == store,
{
}

} // verus!
