//! The store: the one copy of the application state, behind a lock that
//! admits many readers or one writer.
//!
//! A guard stands for a lock that is held. It is released by a call, not by
//! going out of scope: the functions of this module that take both steps
//! themselves are the ones to use from a command.

use vstd::prelude::*;
use vstd::rwlock::{ReadHandle, RwLock, RwLockPredicate, WriteHandle};
use crate::model::{clone_all, views, Image, ImageView, Preferences};
use crate::persist::SaveError;
use crate::state::{AppState, FrontendView};

verus! {

/// What the lock asks of a state that is put into it: nothing, every state may be stored.
pub struct AnyState;

impl RwLockPredicate<AppState> for AnyState {
    open spec fn inv(self, state: AppState) -> bool {
        true
    }
}

/// The application-state store. It is made once at start and handed to every command.
pub struct Store {
    lock: RwLock<AppState, AnyState>,
}

/// Shared access to the state, held until `release`.
pub struct ReadGuard<'a> {
    handle: ReadHandle<'a, AppState, AnyState>,
}

/// Exclusive access to the state, held until `release`. The state is in
/// `state` meanwhile; `release` puts back what stands there then.
pub struct WriteGuard<'a> {
    pub state: AppState,
    handle: WriteHandle<'a, AppState, AnyState>,
}

impl<'a> ReadGuard<'a> {
    /// The state that the guard gives access to.
    pub closed spec fn held(self) -> AppState {
        self.handle.view()
    }

    /// The store whose lock the guard holds.
    pub closed spec fn guards(self, store: Store) -> bool {
        self.handle.rwlock() == store.lock
    }

    pub fn state(&self) -> (state: &AppState)
        ensures
            *state == self.held(),
    {
        self.handle.borrow()
    }

    /// Gives the shared access up.
    pub fn release(self) {
        self.handle.release_read();
    }
}

impl<'a> WriteGuard<'a> {
    /// The store whose lock the guard holds.
    pub closed spec fn guards(self, store: Store) -> bool {
        self.handle.rwlock() == store.lock
    }

    /// Stores the state as it stands in the guard and gives the exclusive access up.
    pub fn release(self) {
        let WriteGuard { state, handle } = self;
        handle.release_write(state);
    }
}

impl Store {
    pub fn new(state: AppState) -> (store: Store) {
        Store { lock: RwLock::new(state, Ghost(AnyState)) }
    }
}

/// Takes the state for writing. The call returns when no reader and no other
/// writer holds the store; until the guard is released nobody else gets in.
pub fn get_app_state(store: &Store) -> (guard: WriteGuard<'_>)
    ensures
        guard.guards(*store),
{
    let (state, handle) = store.lock.acquire_write();
    WriteGuard { state, handle }
}

/// Takes the state for reading. Readers do not wait for each other, only for a writer.
pub fn get_readonly_app_state(store: &Store) -> (guard: ReadGuard<'_>)
    ensures
        guard.guards(*store),
{
    ReadGuard { handle: store.lock.acquire_read() }
}

/// Runs a change of the state under one exclusive access, start to end, and
/// returns a copy of the state that it left in the store, for the caller to
/// persist once the lock is free again.
pub fn mutate<F: FnOnce(AppState) -> AppState>(store: &Store, change: F) -> (after: AppState)
    requires
        forall|state: AppState| change.requires((state,)),
    ensures
        exists|before: AppState, stored: AppState|
            change.ensures((before,), stored) && after@ == stored@,
{
    let (state, handle) = store.lock.acquire_write();
    let stored = change(state);
    let after = stored.clone();
    handle.release_write(stored);
    after
}

/// Builds the projection for the front end under one shared access, so that
/// all of it shows the same moment.
pub fn load_frontend_app_state(store: &Store) -> (view: FrontendView)
    ensures
        exists|state: AppState| view@ == state@.frontend(),
{
    let guard = get_readonly_app_state(store);
    let view = guard.state().snapshot_for_frontend();
    assert(view@ == guard.held()@.frontend());
    guard.release();
    view
}

/// The exposure time entered for an image that comes in through the gallery.
pub const GALLERY_EXPOSURE: i32 = 300;

/// The gallery entry of an image that was copied to `destination`.
pub open spec fn gallery_entry(title: Seq<char>, destination: Seq<char>) -> ImageView {
    ImageView { title, path: destination, total_exposure: GALLERY_EXPOSURE }
}

/// The name of the gallery's folder under the storage root.
pub fn gallery_directory() -> (name: &'static str)
    ensures
        name@ == "Gallery"@,
{
    "Gallery"
}

/// The file name under which the gallery keeps an image.
pub fn gallery_file_name(title: &str) -> (name: String)
    ensures
        name@ == title@ + ".png"@,
{
    let mut name = title.to_owned();
    name.append(".png");
    name
}

/// Enters an image into the gallery: appends its entry under one exclusive
/// access and returns the gallery as it stands right after, for the caller
/// to persist. What was in the gallery stays, in its order, before the entry.
pub fn add_new_image(store: &Store, title: String, destination: String) -> (gallery: Vec<Image>)
    ensures
        gallery@.len() > 0,
        gallery@.last()@ == gallery_entry(title@, destination@),
{
    let entry = Image { title, path: destination, total_exposure: GALLERY_EXPOSURE };
    let mut guard = get_app_state(store);
    let ghost before = guard.state@.images;
    guard.state.add_image(entry);
    let gallery = clone_all(&guard.state.image_list);
    assert(views(gallery@) == before.push(gallery_entry(title@, destination@)));
    assert(views(gallery@).last() == gallery@.last()@);
    guard.release();
    gallery
}

/// Saves new preferences: replaces the stored ones under one exclusive
/// access, gives the access up, and only then hands a copy of what was
/// stored to `persist`, which writes the document. The result is what
/// `persist` made of exactly these preferences: no error of it is dropped.
/// The store keeps the new preferences also where the document could not be
/// written.
pub fn save_preferences<F: FnOnce(Preferences) -> Result<(), SaveError>>(
    store: &Store,
    preferences: Preferences,
    persist: F,
) -> (saved: Result<(), SaveError>)
    requires
        forall|stored: Preferences| stored@ == preferences@ ==> persist.requires((stored,)),
    ensures
        exists|stored: Preferences|
            stored@ == preferences@ && persist.ensures((stored,), saved),
{
    let mut guard = get_app_state(store);
    guard.state.set_preferences(preferences);
    let stored = guard.state.preferences.clone();
    guard.release();
    let ghost handed = stored;
    let saved = persist(stored);
    assert(handed@ == preferences@ && persist.ensures((handed,), saved));
    saved
}

} // verus!
