use vstd::prelude::*;
use crate::app::state::{key_views, AppState};
use crate::app::{App, AppView};
use crate::crypto::utils::{
    decrypt_small_file, derived_key, encrypt_small_file, gen_key_from_password, is_sealing, scrub,
    sealable, spec_open,
};
use crate::io::{IoEvent, IoEventView};
use crate::models::key::{Key, KeyView};

verus! {

/// What went wrong while a request was handled.
#[derive(Clone, Copy, Debug, PartialEq, Eq, Structural)]
pub enum Failure {
    /// The passphrase is wrong or the sealed vault is damaged.
    CryptoFailure,
    /// The disk or the store refused an operation.
    StorageFailure,
    /// The clipboard is not to be had.
    ResourceUnavailable,
    /// The vault changed its form, but the file of the old form could not be
    /// removed and is left to be cleaned up.
    StaleFile,
}

/// One piece of outside work that the worker is asked to do.
#[derive(Debug)]
pub enum IoRequest {
    /// Look for the sealed vault and read it.
    ReadSealed,
    /// Write these bytes as the working file.
    WritePlaintext(Vec<u8>),
    /// Remove the sealed vault.
    RemoveSealed,
    /// Create the schema in the working file, if it is not there.
    InitSchema,
    /// List the stored records.
    ListKeys,
    /// Store this new record.
    InsertKey(Key),
    /// Store this record in place of the one with its identifier.
    UpdateKey(Key),
    /// Remove the record with this identifier.
    DeleteKey(u128),
    /// Put this text on the clipboard.
    SetClipboard(String),
    /// Read the working file.
    ReadPlaintext,
    /// Write these bytes as the sealed vault.
    WriteSealed(Vec<u8>),
    /// Remove the working file.
    RemovePlaintext,
    /// Wait a moment before the session ends.
    Pause,
    /// Nothing more: the request is handled, with the failure named if there
    /// was one.
    Done(Option<Failure>),
}

/// What a piece of outside work is, as plain values.
pub enum IoRequestView {
    ReadSealed,
    WritePlaintext(Seq<u8>),
    RemoveSealed,
    InitSchema,
    ListKeys,
    InsertKey(KeyView),
    UpdateKey(KeyView),
    DeleteKey(u128),
    SetClipboard(Seq<char>),
    ReadPlaintext,
    WriteSealed(Seq<u8>),
    RemovePlaintext,
    Pause,
    Done(Option<Failure>),
}

impl View for IoRequest {
    type V = IoRequestView;

    open spec fn view(&self) -> IoRequestView {
        match self {
            IoRequest::ReadSealed => IoRequestView::ReadSealed,
            IoRequest::WritePlaintext(bytes) => IoRequestView::WritePlaintext(bytes@),
            IoRequest::RemoveSealed => IoRequestView::RemoveSealed,
            IoRequest::InitSchema => IoRequestView::InitSchema,
            IoRequest::ListKeys => IoRequestView::ListKeys,
            IoRequest::InsertKey(key) => IoRequestView::InsertKey(key@),
            IoRequest::UpdateKey(key) => IoRequestView::UpdateKey(key@),
            IoRequest::DeleteKey(id) => IoRequestView::DeleteKey(*id),
            IoRequest::SetClipboard(text) => IoRequestView::SetClipboard(text@),
            IoRequest::ReadPlaintext => IoRequestView::ReadPlaintext,
            IoRequest::WriteSealed(bytes) => IoRequestView::WriteSealed(bytes@),
            IoRequest::RemovePlaintext => IoRequestView::RemovePlaintext,
            IoRequest::Pause => IoRequestView::Pause,
            IoRequest::Done(failure) => IoRequestView::Done(*failure),
        }
    }
}

/// What came of a piece of outside work.
#[derive(Debug)]
pub enum IoReply {
    /// The work was done.
    Completed,
    /// The work could not be done.
    Failed,
    /// The sealed vault as it was read, or `None` where there is none.
    Sealed(Option<Vec<u8>>),
    /// The working file as it was read.
    Plaintext(Vec<u8>),
    /// The stored records as they were listed.
    Keys(Vec<Key>),
}

/// What came of a piece of outside work, as plain values.
pub enum IoReplyView {
    Completed,
    Failed,
    Sealed(Option<Seq<u8>>),
    Plaintext(Seq<u8>),
    Keys(Seq<KeyView>),
}

impl View for IoReply {
    type V = IoReplyView;

    open spec fn view(&self) -> IoReplyView {
        match self {
            IoReply::Completed => IoReplyView::Completed,
            IoReply::Failed => IoReplyView::Failed,
            IoReply::Sealed(Some(blob)) => IoReplyView::Sealed(Some(blob@)),
            IoReply::Sealed(None) => IoReplyView::Sealed(None),
            IoReply::Plaintext(bytes) => IoReplyView::Plaintext(bytes@),
            IoReply::Keys(keys) => IoReplyView::Keys(key_views(keys@)),
        }
    }
}

/// How far the handling of a request has come: which piece of outside work
/// the handler waits for.
#[derive(Clone, Copy, Debug, PartialEq, Eq, Structural)]
pub enum Stage {
    /// No request is being handled.
    Idle,
    /// Opening: waiting for the sealed vault to be read.
    Probing,
    /// Opening: waiting for the working file to be written.
    Unsealing,
    /// Opening: waiting for the sealed vault to be removed.
    Unlinking,
    /// Opening a new vault: waiting for the schema to be created.
    Founding,
    /// Opening: waiting for the first listing. Carries what went wrong so
    /// far.
    Populating(Option<Failure>),
    /// Waiting for a listing.
    Listing,
    /// Waiting for a record to be stored.
    Inserting,
    /// Waiting for a record to be removed.
    Deleting,
    /// Copying: waiting for the use of the record to be stored.
    Updating,
    /// Copying: waiting for the clipboard. Carries what went wrong so far.
    Clipping(Option<Failure>),
    /// Closing: waiting for the working file to be read.
    Reading,
    /// Closing: waiting for the sealed vault to be written.
    Sealing,
    /// Closing: waiting for the working file to be removed.
    Shredding,
    /// Closing: waiting for the pause to end. Carries what went wrong.
    Pausing(Option<Failure>),
}

/// The I/O worker's side of the session: it takes one request at a time and
/// splits it into pieces of outside work, deciding after each what comes
/// next.
pub struct IoAsyncHandler {
    password: String,
    clip: String,
    stage: Stage,
}

/// What the handler holds, as plain values.
pub struct HandlerView {
    /// The passphrase of the session, as it came with the request to open.
    pub password: Seq<char>,
    /// The secret that is on its way to the clipboard.
    pub clip: Seq<char>,
    pub stage: Stage,
}

impl View for IoAsyncHandler {
    type V = HandlerView;

    closed spec fn view(&self) -> HandlerView {
        HandlerView { password: self.password@, clip: self.clip@, stage: self.stage }
    }
}

/// What a sealed vault is, where there is one.
pub open spec fn sealed_view(sealed: Option<Vec<u8>>) -> Option<Seq<u8>> {
    match sealed {
        Some(blob) => Some(blob@),
        None => None,
    }
}

impl HandlerView {
    /// The handler at the start of a session.
    pub open spec fn initial() -> HandlerView {
        HandlerView { password: Seq::empty(), clip: Seq::empty(), stage: Stage::Idle }
    }

    /// The end of a request: the handler is idle again and the interactive
    /// side is told that the worker is free, whatever went wrong.
    pub open spec fn done(self, app: AppView, failure: Option<Failure>) -> (
        HandlerView,
        AppView,
        IoRequestView,
    ) {
        (HandlerView { stage: Stage::Idle, ..self }, app.loaded(), IoRequestView::Done(failure))
    }

    /// A further piece of outside work, and the stage in which its result is
    /// awaited.
    pub open spec fn ask(self, app: AppView, stage: Stage, request: IoRequestView) -> (
        HandlerView,
        AppView,
        IoRequestView,
    ) {
        (HandlerView { stage, ..self }, app, request)
    }

    /// The end of an attempt to open that failed: the vault stays closed and
    /// the passphrase is asked for again.
    pub open spec fn refuse(self, app: AppView, failure: Failure) -> (
        HandlerView,
        AppView,
        IoRequestView,
    ) {
        self.done(app.asking(), Some(failure))
    }

    /// The interactive state once the vault is open: the full tables come
    /// into force and the phase starts, unless the vault was open already.
    pub open spec fn opened(app: AppView) -> AppView {
        if app.state.spec_is_initialized() {
            app
        } else {
            app.initialized()
        }
    }

    /// What the handler does with a new request: it names the first piece of
    /// outside work. A request to open a vault that is open already is done
    /// at once.
    pub open spec fn start(self, app: AppView, event: IoEventView) -> (
        HandlerView,
        AppView,
        IoRequestView,
    ) {
        match event {
            IoEventView::Initialize(passphrase) => if app.state.spec_is_initialized() {
                self.done(app, None)
            } else {
                HandlerView { password: passphrase, ..self }.ask(
                    app,
                    Stage::Probing,
                    IoRequestView::ReadSealed,
                )
            },
            IoEventView::Copy(key) => HandlerView { clip: key.password, ..self }.ask(
                app,
                Stage::Updating,
                IoRequestView::UpdateKey(key),
            ),
            IoEventView::RegisterKey(key) => self.ask(
                app,
                Stage::Inserting,
                IoRequestView::InsertKey(key),
            ),
            IoEventView::Refresh => self.ask(app, Stage::Listing, IoRequestView::ListKeys),
            IoEventView::Delete(id) => self.ask(app, Stage::Deleting, IoRequestView::DeleteKey(id)),
            IoEventView::Close => self.ask(app, Stage::Reading, IoRequestView::ReadPlaintext),
        }
    }

    /// What the handler does when a piece of outside work has ended. `sealed`
    /// is the sealed form of the working file, where the file was just read
    /// and could be sealed.
    pub open spec fn resume(self, app: AppView, reply: IoReplyView, sealed: Option<Seq<u8>>) -> (
        HandlerView,
        AppView,
        IoRequestView,
    ) {
        match self.stage {
            Stage::Idle => self.done(app, None),
            Stage::Probing => match reply {
                IoReplyView::Sealed(None) => self.ask(
                    app,
                    Stage::Founding,
                    IoRequestView::InitSchema,
                ),
                IoReplyView::Sealed(Some(blob)) => match spec_open(blob, derived_key(self.password)) {
                    Some(plaintext) => self.ask(
                        app,
                        Stage::Unsealing,
                        IoRequestView::WritePlaintext(plaintext),
                    ),
                    None => self.refuse(app, Failure::CryptoFailure),
                },
                _ => self.refuse(app, Failure::StorageFailure),
            },
            Stage::Unsealing => match reply {
                IoReplyView::Completed => self.ask(
                    app,
                    Stage::Unlinking,
                    IoRequestView::RemoveSealed,
                ),
                _ => self.refuse(app, Failure::StorageFailure),
            },
            Stage::Unlinking => match reply {
                IoReplyView::Completed => self.ask(
                    app,
                    Stage::Populating(None),
                    IoRequestView::ListKeys,
                ),
                _ => self.ask(
                    app,
                    Stage::Populating(Some(Failure::StaleFile)),
                    IoRequestView::ListKeys,
                ),
            },
            Stage::Founding => match reply {
                IoReplyView::Completed => self.ask(
                    app,
                    Stage::Populating(None),
                    IoRequestView::ListKeys,
                ),
                _ => self.refuse(app, Failure::StorageFailure),
            },
            Stage::Populating(so_far) => match reply {
                IoReplyView::Keys(keys) => self.done(
                    HandlerView::opened(app.listing(keys)).cleared(),
                    so_far,
                ),
                _ => self.done(HandlerView::opened(app).cleared(), Some(Failure::StorageFailure)),
            },
            Stage::Listing => match reply {
                IoReplyView::Keys(keys) => self.done(app.listing(keys), None),
                _ => self.done(app, Some(Failure::StorageFailure)),
            },
            Stage::Inserting => match reply {
                IoReplyView::Completed => self.done(app, None),
                _ => self.done(app, Some(Failure::StorageFailure)),
            },
            Stage::Deleting => match reply {
                IoReplyView::Completed => self.done(app, None),
                _ => self.done(app, Some(Failure::StorageFailure)),
            },
            Stage::Updating => match reply {
                IoReplyView::Completed => self.ask(
                    app,
                    Stage::Clipping(None),
                    IoRequestView::SetClipboard(self.clip),
                ),
                _ => self.ask(
                    app,
                    Stage::Clipping(Some(Failure::StorageFailure)),
                    IoRequestView::SetClipboard(self.clip),
                ),
            },
            Stage::Clipping(so_far) => HandlerView { clip: Seq::empty(), ..self }.done(
                app,
                match reply {
                    IoReplyView::Completed => so_far,
                    _ => Some(Failure::ResourceUnavailable),
                },
            ),
            Stage::Reading => match reply {
                IoReplyView::Plaintext(plaintext) => match sealed {
                    Some(blob) => self.ask(app, Stage::Sealing, IoRequestView::WriteSealed(blob)),
                    None => self.ask(
                        app,
                        Stage::Pausing(Some(Failure::CryptoFailure)),
                        IoRequestView::Pause,
                    ),
                },
                _ => self.ask(
                    app,
                    Stage::Pausing(Some(Failure::StorageFailure)),
                    IoRequestView::Pause,
                ),
            },
            Stage::Sealing => match reply {
                IoReplyView::Completed => self.ask(
                    app,
                    Stage::Shredding,
                    IoRequestView::RemovePlaintext,
                ),
                _ => self.ask(
                    app,
                    Stage::Pausing(Some(Failure::StorageFailure)),
                    IoRequestView::Pause,
                ),
            },
            Stage::Shredding => match reply {
                IoReplyView::Completed => self.ask(
                    app,
                    Stage::Pausing(None),
                    IoRequestView::Pause,
                ),
                _ => self.ask(
                    app,
                    Stage::Pausing(Some(Failure::StaleFile)),
                    IoRequestView::Pause,
                ),
            },
            Stage::Pausing(so_far) => HandlerView { password: Seq::empty(), ..self }.done(
                app,
                so_far,
            ),
        }
    }

    /// Whether the working file is to be sealed on this reply: the handler
    /// waits for the file and the reply brings it.
    pub open spec fn seals_on(self, reply: IoReplyView) -> bool {
        self.stage == Stage::Reading && reply is Plaintext
    }

    /// Whether `sealed` is what sealing may come to on this reply: nothing
    /// where nothing is to be sealed or the file is too long, and else either
    /// nothing or a sealed form of the file under the key of the session's
    /// passphrase.
    pub open spec fn admits_sealed(self, reply: IoReplyView, sealed: Option<Seq<u8>>) -> bool {
        match sealed {
            Some(blob) => self.seals_on(reply) && sealable(reply->Plaintext_0.len()) && is_sealing(
                blob,
                derived_key(self.password),
                reply->Plaintext_0,
            ),
            None => true,
        }
    }
}

impl IoAsyncHandler {
    /// The handler at the start of a session: idle, with no passphrase.
    pub fn new() -> (r: IoAsyncHandler)
        ensures
            r@ == HandlerView::initial(),
    {
        IoAsyncHandler { password: String::new(), clip: String::new(), stage: Stage::Idle }
    }

    /// Which piece of outside work the handler waits for.
    pub fn stage(&self) -> (r: Stage)
        ensures
            r == self@.stage,
    {
        self.stage
    }

    /// Starts to open the vault with a passphrase.
    pub fn do_initialize(&mut self, passphrase: String) -> (r: IoRequest)
        requires
            old(self)@.stage == Stage::Idle,
        ensures
            final(self)@ == (HandlerView {
                password: passphrase@,
                stage: Stage::Probing,
                ..old(self)@
            }),
            r@ == IoRequestView::ReadSealed,
    {
        self.password = passphrase;
        self.stage = Stage::Probing;
        IoRequest::ReadSealed
    }

    /// Starts to copy the secret of a record: first the use of the record is
    /// stored.
    pub fn do_copy(&mut self, key: Key) -> (r: IoRequest)
        requires
            old(self)@.stage == Stage::Idle,
        ensures
            final(self)@ == (HandlerView {
                clip: key@.password,
                stage: Stage::Updating,
                ..old(self)@
            }),
            r@ == IoRequestView::UpdateKey(key@),
    {
        self.clip = key.password().to_owned();
        self.stage = Stage::Updating;
        IoRequest::UpdateKey(key)
    }

    /// Starts to store a new record.
    pub fn register_key(&mut self, key: Key) -> (r: IoRequest)
        requires
            old(self)@.stage == Stage::Idle,
        ensures
            final(self)@ == (HandlerView { stage: Stage::Inserting, ..old(self)@ }),
            r@ == IoRequestView::InsertKey(key@),
    {
        self.stage = Stage::Inserting;
        IoRequest::InsertKey(key)
    }

    /// Starts to list the stored records anew.
    pub fn refresh_application_state(&mut self) -> (r: IoRequest)
        requires
            old(self)@.stage == Stage::Idle,
        ensures
            final(self)@ == (HandlerView { stage: Stage::Listing, ..old(self)@ }),
            r@ == IoRequestView::ListKeys,
    {
        self.stage = Stage::Listing;
        IoRequest::ListKeys
    }

    /// Starts to remove a record. The records shown are listed anew by the
    /// request to refresh that follows.
    pub fn delete_key(&mut self, id: u128) -> (r: IoRequest)
        requires
            old(self)@.stage == Stage::Idle,
        ensures
            final(self)@ == (HandlerView { stage: Stage::Deleting, ..old(self)@ }),
            r@ == IoRequestView::DeleteKey(id),
    {
        self.stage = Stage::Deleting;
        IoRequest::DeleteKey(id)
    }

    /// Starts to seal the vault: first the working file is read.
    pub fn close_application(&mut self) -> (r: IoRequest)
        requires
            old(self)@.stage == Stage::Idle,
        ensures
            final(self)@ == (HandlerView { stage: Stage::Reading, ..old(self)@ }),
            r@ == IoRequestView::ReadPlaintext,
    {
        self.stage = Stage::Reading;
        IoRequest::ReadPlaintext
    }

    /// Takes a request from the queue and names the first piece of outside
    /// work that it needs. Requests are handled one at a time: the handler
    /// must be idle.
    pub fn handle_io_event(&mut self, app: &mut App, io_event: IoEvent) -> (r: IoRequest)
        requires
            old(self)@.stage == Stage::Idle,
        ensures
            (final(self)@, final(app)@, r@) == old(self)@.start(old(app)@, io_event@),
    {
        match io_event {
            IoEvent::Initialize(passphrase) => {
                if app.state().is_initialized() {
                    self.finish(app, None)
                } else {
                    self.do_initialize(passphrase)
                }
            },
            IoEvent::Copy(key) => self.do_copy(key),
            IoEvent::RegisterKey(key) => self.register_key(key),
            IoEvent::Refresh => self.refresh_application_state(),
            IoEvent::Delete(id) => self.delete_key(id),
            IoEvent::Close => self.close_application(),
        }
    }

    /// Ends the handling of a request.
    fn finish(&mut self, app: &mut App, failure: Option<Failure>) -> (r: IoRequest)
        ensures
            (final(self)@, final(app)@, r@) == old(self)@.done(old(app)@, failure),
    {
        self.stage = Stage::Idle;
        app.loaded();
        IoRequest::Done(failure)
    }

    /// Ends an attempt to open that failed.
    fn give_up(&mut self, app: &mut App, failure: Failure) -> (r: IoRequest)
        ensures
            (final(self)@, final(app)@, r@) == old(self)@.refuse(old(app)@, failure),
    {
        app.ask_passphrase();
        self.finish(app, Some(failure))
    }

    /// Takes the result of a piece of outside work and names the next one,
    /// given the sealed form of the working file where the file was just
    /// read.
    pub fn resume_with(&mut self, app: &mut App, reply: IoReply, sealed: Option<Vec<u8>>) -> (r:
        IoRequest)
        ensures
            (final(self)@, final(app)@, r@) == old(self)@.resume(
                old(app)@,
                reply@,
                sealed_view(sealed),
            ),
    {
        match self.stage {
            Stage::Idle => self.finish(app, None),
            Stage::Probing => match reply {
                IoReply::Sealed(None) => {
                    self.stage = Stage::Founding;
                    IoRequest::InitSchema
                },
                IoReply::Sealed(Some(blob)) => {
                    let mut key = gen_key_from_password(self.password.clone());
                    let opened = decrypt_small_file(blob.as_slice(), &key);
                    scrub(&mut key);
                    match opened {
                        Ok(plaintext) => {
                            self.stage = Stage::Unsealing;
                            IoRequest::WritePlaintext(plaintext)
                        },
                        Err(_) => self.give_up(app, Failure::CryptoFailure),
                    }
                },
                _ => self.give_up(app, Failure::StorageFailure),
            },
            Stage::Unsealing => match reply {
                IoReply::Completed => {
                    self.stage = Stage::Unlinking;
                    IoRequest::RemoveSealed
                },
                _ => self.give_up(app, Failure::StorageFailure),
            },
            Stage::Unlinking => match reply {
                IoReply::Completed => {
                    self.stage = Stage::Populating(None);
                    IoRequest::ListKeys
                },
                _ => {
                    self.stage = Stage::Populating(Some(Failure::StaleFile));
                    IoRequest::ListKeys
                },
            },
            Stage::Founding => match reply {
                IoReply::Completed => {
                    self.stage = Stage::Populating(None);
                    IoRequest::ListKeys
                },
                _ => self.give_up(app, Failure::StorageFailure),
            },
            Stage::Populating(so_far) => match reply {
                IoReply::Keys(keys) => {
                    app.load_key_list(keys);
                    if !app.state().is_initialized() {
                        app.initialized();
                    }
                    app.clear_input_buffer();
                    self.finish(app, so_far)
                },
                _ => {
                    if !app.state().is_initialized() {
                        app.initialized();
                    }
                    app.clear_input_buffer();
                    self.finish(app, Some(Failure::StorageFailure))
                },
            },
            Stage::Listing => match reply {
                IoReply::Keys(keys) => {
                    app.load_key_list(keys);
                    self.finish(app, None)
                },
                _ => self.finish(app, Some(Failure::StorageFailure)),
            },
            Stage::Inserting => match reply {
                IoReply::Completed => self.finish(app, None),
                _ => self.finish(app, Some(Failure::StorageFailure)),
            },
            Stage::Deleting => match reply {
                IoReply::Completed => self.finish(app, None),
                _ => self.finish(app, Some(Failure::StorageFailure)),
            },
            Stage::Updating => match reply {
                IoReply::Completed => {
                    self.stage = Stage::Clipping(None);
                    IoRequest::SetClipboard(self.clip.clone())
                },
                _ => {
                    self.stage = Stage::Clipping(Some(Failure::StorageFailure));
                    IoRequest::SetClipboard(self.clip.clone())
                },
            },
            Stage::Clipping(so_far) => {
                self.clip.clear();
                match reply {
                    IoReply::Completed => self.finish(app, so_far),
                    _ => self.finish(app, Some(Failure::ResourceUnavailable)),
                }
            },
            Stage::Reading => match reply {
                IoReply::Plaintext(_) => match sealed {
                    Some(blob) => {
                        self.stage = Stage::Sealing;
                        IoRequest::WriteSealed(blob)
                    },
                    None => {
                        self.stage = Stage::Pausing(Some(Failure::CryptoFailure));
                        IoRequest::Pause
                    },
                },
                _ => {
                    self.stage = Stage::Pausing(Some(Failure::StorageFailure));
                    IoRequest::Pause
                },
            },
            Stage::Sealing => match reply {
                IoReply::Completed => {
                    self.stage = Stage::Shredding;
                    IoRequest::RemovePlaintext
                },
                _ => {
                    self.stage = Stage::Pausing(Some(Failure::StorageFailure));
                    IoRequest::Pause
                },
            },
            Stage::Shredding => match reply {
                IoReply::Completed => {
                    self.stage = Stage::Pausing(None);
                    IoRequest::Pause
                },
                _ => {
                    self.stage = Stage::Pausing(Some(Failure::StaleFile));
                    IoRequest::Pause
                },
            },
            Stage::Pausing(so_far) => {
                self.password.clear();
                self.finish(app, so_far)
            },
        }
    }

    /// Takes the result of a piece of outside work and names the next one.
    /// Where the working file was just read, it is sealed here, under the key
    /// of the session's passphrase and a nonce drawn afresh.
    pub fn resume(&mut self, app: &mut App, reply: IoReply) -> (r: IoRequest)
        ensures
            exists|sealed: Option<Seq<u8>>|
                {
                    &&& old(self)@.admits_sealed(reply@, sealed)
                    &&& (final(self)@, final(app)@, r@) == #[trigger] old(self)@.resume(
                        old(app)@,
                        reply@,
                        sealed,
                    )
                },
    {
        let sealed = match (self.stage, &reply) {
            (Stage::Reading, IoReply::Plaintext(plaintext)) => {
                let mut key = gen_key_from_password(self.password.clone());
                let outcome = encrypt_small_file(plaintext.as_slice(), &key);
                scrub(&mut key);
                match outcome {
                    Ok(blob) => Some(blob),
                    Err(_) => None,
                }
            },
            _ => None,
        };
        let ghost before = self@;
        let ghost shown = app@;
        let ghost given = sealed_view(sealed);
        let ghost brought = reply@;
        let r = self.resume_with(app, reply, sealed);
        assert((self@, app@, r@) == before.resume(shown, brought, given));
        r
    }
}

impl Stage {
    /// How many pieces of outside work may still be asked for before the
    /// request in hand is done.
    pub open spec fn pieces_left(self) -> nat {
        match self {
            Stage::Idle => 0,
            Stage::Probing => 4,
            Stage::Unsealing => 3,
            Stage::Unlinking => 2,
            Stage::Founding => 2,
            Stage::Populating(_) => 1,
            Stage::Listing => 1,
            Stage::Inserting => 1,
            Stage::Deleting => 1,
            Stage::Updating => 2,
            Stage::Clipping(_) => 1,
            Stage::Reading => 4,
            Stage::Sealing => 3,
            Stage::Shredding => 2,
            Stage::Pausing(_) => 1,
        }
    }
}

/// The handling of every request ends: each result of a piece of outside work
/// brings the handler nearer to the end, which comes after four pieces at
/// most, and the handler is idle exactly when it says that it is done.
pub proof fn lemma_handling_ends(
    handler: HandlerView,
    app: AppView,
    event: IoEventView,
    reply: IoReplyView,
    sealed: Option<Seq<u8>>,
)
    ensures
        ({
            let (begun, _, first) = handler.start(app, event);
            &&& begun.stage.pieces_left() <= 4
            &&& first is Done <==> begun.stage == Stage::Idle
        }),
        ({
            let (next, _, request) = handler.resume(app, reply, sealed);
            &&& handler.stage != Stage::Idle ==> next.stage.pieces_left()
                < handler.stage.pieces_left()
            &&& request is Done <==> next.stage == Stage::Idle
        }),
{
}

/// When the handling of a request ends, the handler is idle and the
/// interactive side is told that the worker is free, whatever went wrong.
pub proof fn lemma_done_frees_the_worker(
    handler: HandlerView,
    app: AppView,
    reply: IoReplyView,
    sealed: Option<Seq<u8>>,
)
    ensures
        ({
            let (next, shown, request) = handler.resume(app, reply, sealed);
            request is Done ==> next.stage == Stage::Idle && !shown.is_loading
        }),
{
}

/// The vault comes to count as open once only, when its first listing was
/// asked for, which is after the working file was written or its schema
/// created; an attempt to open that fails leaves the vault closed and asks
/// for the passphrase again.
pub proof fn lemma_vault_opens_once_unsealed(
    handler: HandlerView,
    app: AppView,
    reply: IoReplyView,
    sealed: Option<Seq<u8>>,
)
    ensures
        ({
            let (next, shown, request) = handler.resume(app, reply, sealed);
            &&& shown.state != app.state ==> handler.stage is Populating
                && !app.state.spec_is_initialized() && shown.state == AppState::spec_initialized()
            &&& handler.stage is Populating ==> shown.state.spec_is_initialized()
            &&& next.stage is Populating ==> (handler.stage == Stage::Unlinking || (handler.stage
                == Stage::Founding && reply is Completed))
            &&& next.stage == Stage::Unlinking ==> handler.stage == Stage::Unsealing && reply
                is Completed
            &&& (handler.stage == Stage::Probing || handler.stage == Stage::Unsealing
                || handler.stage == Stage::Founding) && request is Done ==> shown == app.asking().loaded()
        }),
{
}

/// A file is removed only right after the vault was written in its other
/// form: the sealed vault after the working file, the working file after the
/// sealed vault. So the vault is never without a file.
pub proof fn lemma_removal_follows_write(
    handler: HandlerView,
    app: AppView,
    reply: IoReplyView,
    sealed: Option<Seq<u8>>,
)
    ensures
        ({
            let (next, shown, request) = handler.resume(app, reply, sealed);
            &&& request is RemoveSealed ==> handler.stage == Stage::Unsealing && reply is Completed
            &&& request is RemovePlaintext ==> handler.stage == Stage::Sealing && reply
                is Completed
            &&& next.stage == Stage::Unsealing ==> handler.stage == Stage::Probing && (
            reply matches IoReplyView::Sealed(Some(blob)) && request
                == IoRequestView::WritePlaintext(
                spec_open(blob, derived_key(handler.password))->0,
            ))
            &&& next.stage == Stage::Sealing ==> handler.stage == Stage::Reading && request
                == IoRequestView::WriteSealed(sealed->0)
        }),
{
}

/// The handler changes nothing of the tables of bindings but to put the full
/// tables in force when the vault opens, and nothing of the settings: a
/// well-formed state stays well-formed.
pub proof fn lemma_resume_keeps_tables(
    handler: HandlerView,
    app: AppView,
    reply: IoReplyView,
    sealed: Option<Seq<u8>>,
)
    requires
        app.wf(),
    ensures
        handler.resume(app, reply, sealed).1.wf(),
        handler.resume(app, reply, sealed).1.outbox == app.outbox,
{
    crate::app::lemma_builtin_tables();
}

} // verus!
