//! The requests that the interactive side queues for the I/O worker.

use vstd::prelude::*;
use crate::models::key::{Key, KeyView};

pub mod handler;

verus! {

/// One request to the I/O worker.
#[derive(Debug)]
pub enum IoEvent {
    /// Open the vault with this passphrase.
    Initialize(String),
    /// Put the secret of this record on the clipboard and store its use.
    Copy(Key),
    /// Store this new record.
    RegisterKey(Key),
    /// List the stored records anew.
    Refresh,
    /// Remove the record with this identifier.
    Delete(u128),
    /// Seal the vault.
    Close,
}

/// What a request holds, as plain values.
pub enum IoEventView {
    Initialize(Seq<char>),
    Copy(KeyView),
    RegisterKey(KeyView),
    Refresh,
    Delete(u128),
    Close,
}

impl View for IoEvent {
    type V = IoEventView;

    open spec fn view(&self) -> IoEventView {
        match self {
            IoEvent::Initialize(passphrase) => IoEventView::Initialize(passphrase@),
            IoEvent::Copy(key) => IoEventView::Copy(key@),
            IoEvent::RegisterKey(key) => IoEventView::RegisterKey(key@),
            IoEvent::Refresh => IoEventView::Refresh,
            IoEvent::Delete(id) => IoEventView::Delete(*id),
            IoEvent::Close => IoEventView::Close,
        }
    }
}

impl Clone for IoEvent {
    fn clone(&self) -> (r: IoEvent)
        ensures
            r@ == self@,
    {
        match self {
            IoEvent::Initialize(passphrase) => IoEvent::Initialize(passphrase.clone()),
            IoEvent::Copy(key) => IoEvent::Copy(key.clone()),
            IoEvent::RegisterKey(key) => IoEvent::RegisterKey(key.clone()),
            IoEvent::Refresh => IoEvent::Refresh,
            IoEvent::Delete(id) => IoEvent::Delete(*id),
            IoEvent::Close => IoEvent::Close,
        }
    }
}

/// What a queue of requests holds, request by request.
pub open spec fn event_views(events: Seq<IoEvent>) -> Seq<IoEventView> {
    Seq::new(events.len(), |i: int| events[i]@)
}

} // verus!
