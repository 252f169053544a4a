//! The application state: one instance of every collection, how it comes
//! into being from what was loaded, and the changes that commands make to it.

use vstd::prelude::*;
use crate::log::{
    calibration_rows, session_errors, session_rows, ProjectionError, TableData, TableDataView,
};
use crate::model::{
    clone_all, views, EquipmentList, EquipmentView, Image, ImageView, ImagingFrameList,
    ImagingFrameListView, ImagingSession, ImagingSessionView, Preferences, PreferencesView,
};

verus! {

/// Why a document could not be loaded.
#[derive(Clone, Copy, Debug, PartialEq, Eq, Hash, Structural)]
pub enum LoadError {
    /// The file could not be opened or read.
    Io,
    /// The contents are not what the collection's schema asks for.
    Parse,
}

/// The collections, each kept in a document of its own.
#[derive(Clone, Copy, Debug, PartialEq, Eq, Hash, Structural)]
pub enum CollectionId {
    Preferences,
    Equipment,
    ImagingFrames,
    ImagingSessions,
    Images,
}

/// A collection that fell back to its default at start, and why.
#[derive(Clone, Copy, Debug, PartialEq, Eq, Hash, Structural)]
pub struct LoadFailure {
    pub collection: CollectionId,
    pub error: LoadError,
}

/// What came of loading each document. The documents are loaded
/// independently, so any of them may have failed without the others.
#[derive(Debug, PartialEq, Eq)]
pub struct Loaded {
    pub preferences: Result<Preferences, LoadError>,
    pub equipment_list: Result<EquipmentList, LoadError>,
    pub imaging_frame_list: Result<ImagingFrameList, LoadError>,
    pub imaging_session_list: Result<Vec<ImagingSession>, LoadError>,
    pub image_list: Result<Vec<Image>, LoadError>,
}

/// The failure that one load contributes to the report: none if it succeeded.
pub open spec fn failure_of<T>(collection: CollectionId, loaded: Result<T, LoadError>) -> Seq<
    LoadFailure,
> {
    match loaded {
        Ok(_) => Seq::empty(),
        Err(error) => seq![LoadFailure { collection, error }],
    }
}

impl Loaded {
    /// The loads that failed, in the order preferences, equipment, frames, sessions, images.
    pub open spec fn failed(self) -> Seq<LoadFailure> {
        failure_of(CollectionId::Preferences, self.preferences) + failure_of(
            CollectionId::Equipment,
            self.equipment_list,
        ) + failure_of(CollectionId::ImagingFrames, self.imaging_frame_list) + failure_of(
            CollectionId::ImagingSessions,
            self.imaging_session_list,
        ) + failure_of(CollectionId::Images, self.image_list)
    }

    /// Reports the loads that failed, so that the caller can log them.
    pub fn failures(&self) -> (failures: Vec<LoadFailure>)
        ensures
            failures@ == self.failed(),
    {
        let mut failures: Vec<LoadFailure> = Vec::new();
        if let Err(error) = &self.preferences {
            failures.push(LoadFailure { collection: CollectionId::Preferences, error: *error });
        }
        assert(failures@ =~= failure_of(CollectionId::Preferences, self.preferences));
        let ghost one = failures@;
        if let Err(error) = &self.equipment_list {
            failures.push(LoadFailure { collection: CollectionId::Equipment, error: *error });
        }
        assert(failures@ =~= one + failure_of(CollectionId::Equipment, self.equipment_list));
        let ghost two = failures@;
        if let Err(error) = &self.imaging_frame_list {
            failures.push(LoadFailure { collection: CollectionId::ImagingFrames, error: *error });
        }
        assert(failures@ =~= two + failure_of(
            CollectionId::ImagingFrames,
            self.imaging_frame_list,
        ));
        let ghost three = failures@;
        if let Err(error) = &self.imaging_session_list {
            failures.push(
                LoadFailure { collection: CollectionId::ImagingSessions, error: *error },
            );
        }
        assert(failures@ =~= three + failure_of(
            CollectionId::ImagingSessions,
            self.imaging_session_list,
        ));
        let ghost four = failures@;
        if let Err(error) = &self.image_list {
            failures.push(LoadFailure { collection: CollectionId::Images, error: *error });
        }
        assert(failures@ =~= four + failure_of(CollectionId::Images, self.image_list));
        failures
    }
}

/// Everything the application holds in memory. It is the unit that the store guards.
#[derive(Debug, PartialEq, Eq)]
pub struct AppState {
    pub preferences: Preferences,
    pub equipment_list: EquipmentList,
    pub imaging_frame_list: ImagingFrameList,
    pub imaging_session_list: Vec<ImagingSession>,
    pub image_list: Vec<Image>,
    /// While set, the window must not close.
    pub close_lock: bool,
}

pub struct AppStateView {
    pub preferences: PreferencesView,
    pub equipment: Seq<EquipmentView>,
    pub frames: ImagingFrameListView,
    pub sessions: Seq<ImagingSessionView>,
    pub images: Seq<ImageView>,
    pub close_lock: bool,
}

impl View for AppState {
    type V = AppStateView;

    open spec fn view(&self) -> AppStateView {
        AppStateView {
            preferences: self.preferences@,
            equipment: self.equipment_list@,
            frames: self.imaging_frame_list@,
            sessions: views(self.imaging_session_list@),
            images: views(self.image_list@),
            close_lock: self.close_lock,
        }
    }
}

impl AppStateView {
    /// The state of a first start: every collection at its default.
    pub open spec fn initial() -> AppStateView {
        AppStateView {
            preferences: PreferencesView::initial(),
            equipment: Seq::empty(),
            frames: ImagingFrameListView::initial(),
            sessions: Seq::empty(),
            images: Seq::empty(),
            close_lock: false,
        }
    }

    /// The state at start: each collection as it was loaded, or at its
    /// default where its own load failed.
    pub open spec fn started(loaded: Loaded) -> AppStateView {
        AppStateView {
            preferences: match loaded.preferences {
                Ok(preferences) => preferences@,
                Err(_) => AppStateView::initial().preferences,
            },
            equipment: match loaded.equipment_list {
                Ok(list) => list@,
                Err(_) => AppStateView::initial().equipment,
            },
            frames: match loaded.imaging_frame_list {
                Ok(list) => list@,
                Err(_) => AppStateView::initial().frames,
            },
            sessions: match loaded.imaging_session_list {
                Ok(list) => views(list@),
                Err(_) => AppStateView::initial().sessions,
            },
            images: match loaded.image_list {
                Ok(list) => views(list@),
                Err(_) => AppStateView::initial().images,
            },
            close_lock: false,
        }
    }

    /// The state after an image was appended to the gallery.
    pub open spec fn with_image(self, image: ImageView) -> AppStateView {
        AppStateView { images: self.images.push(image), ..self }
    }

    /// The state after images were appended one after the other.
    pub open spec fn with_images(self, images: Seq<ImageView>) -> AppStateView
        decreases images.len(),
    {
        if images.len() == 0 {
            self
        } else {
            self.with_images(images.drop_last()).with_image(images.last())
        }
    }

    /// The state after the preferences were replaced.
    pub open spec fn with_preferences(self, preferences: PreferencesView) -> AppStateView {
        AppStateView { preferences, ..self }
    }

    /// The state after the close lock was set or lifted.
    pub open spec fn with_close_lock(self, close_lock: bool) -> AppStateView {
        AppStateView { close_lock, ..self }
    }

    /// What the front end is shown of this state.
    pub open spec fn frontend(self) -> FrontendViewModel {
        FrontendViewModel {
            preferences: self.preferences,
            table: TableDataView {
                sessions: session_rows(self.sessions, self.frames.light_frames),
                calibration: calibration_rows(self.frames.calibration_frames),
            },
            image_list: self.images,
            errors: session_errors(self.sessions, self.frames.light_frames),
        }
    }
}

/// The read-only projection handed to the front end: the preferences, both
/// tables, the gallery, and the sessions that could not be shown.
#[derive(Debug, PartialEq, Eq)]
pub struct FrontendView {
    pub preferences: Preferences,
    pub table: TableData,
    pub image_list: Vec<Image>,
    pub errors: Vec<ProjectionError>,
}

pub struct FrontendViewModel {
    pub preferences: PreferencesView,
    pub table: TableDataView,
    pub image_list: Seq<ImageView>,
    pub errors: Seq<ProjectionError>,
}

impl View for FrontendView {
    type V = FrontendViewModel;

    open spec fn view(&self) -> FrontendViewModel {
        FrontendViewModel {
            preferences: self.preferences@,
            table: self.table@,
            image_list: views(self.image_list@),
            errors: self.errors@,
        }
    }
}

impl AppState {
    /// Builds the state at start from what was loaded. No failed load stops
    /// the start or touches another collection: the collection that failed
    /// starts at its default, the others as they were loaded.
    pub fn new(loaded: Loaded) -> (state: AppState)
        ensures
            state@ == AppStateView::started(loaded),
    {
        let Loaded {
            preferences,
            equipment_list,
            imaging_frame_list,
            imaging_session_list,
            image_list,
        } = loaded;
        let preferences = match preferences {
            Ok(preferences) => preferences,
            Err(_) => Preferences::new(),
        };
        let equipment_list = match equipment_list {
            Ok(list) => list,
            Err(_) => EquipmentList::new(),
        };
        let imaging_frame_list = match imaging_frame_list {
            Ok(list) => list,
            Err(_) => ImagingFrameList::new(),
        };
        let imaging_session_list = match imaging_session_list {
            Ok(list) => list,
            Err(_) => Vec::new(),
        };
        let image_list = match image_list {
            Ok(list) => list,
            Err(_) => Vec::new(),
        };
        let state = AppState {
            preferences,
            equipment_list,
            imaging_frame_list,
            imaging_session_list,
            image_list,
            close_lock: false,
        };
        assert(state@.sessions =~= AppStateView::started(loaded).sessions);
        assert(state@.images =~= AppStateView::started(loaded).images);
        state
    }

    /// Appends an image to the gallery.
    pub fn add_image(&mut self, image: Image)
        ensures
            final(self)@ == old(self)@.with_image(image@),
    {
        self.image_list.push(image);
        assert(views(self.image_list@) =~= views(old(self).image_list@).push(image@));
    }

    /// Replaces the preferences whole.
    pub fn set_preferences(&mut self, preferences: Preferences)
        ensures
            final(self)@ == old(self)@.with_preferences(preferences@),
    {
        self.preferences = preferences;
    }

    /// Forbids the window to close.
    pub fn add_close_lock(&mut self)
        ensures
            final(self)@ == old(self)@.with_close_lock(true),
    {
        self.close_lock = true;
    }

    /// Lets the window close again.
    pub fn remove_close_lock(&mut self)
        ensures
            final(self)@ == old(self)@.with_close_lock(false),
    {
        self.close_lock = false;
    }

    /// Whether a request to close the window is to be granted.
    pub fn may_close(&self) -> (granted: bool)
        ensures
            granted == !self@.close_lock,
    {
        !self.close_lock
    }

    /// Builds the projection for the front end. The state is not changed, and
    /// every part of the projection is taken from this one state.
    pub fn snapshot_for_frontend(&self) -> (view: FrontendView)
        ensures
            view@ == self@.frontend(),
    {
        let projection = TableData::project(&self.imaging_session_list, &self.imaging_frame_list);
        FrontendView {
            preferences: self.preferences.clone(),
            table: projection.table,
            image_list: clone_all(&self.image_list),
            errors: projection.errors,
        }
    }
}

impl Clone for AppState {
    fn clone(&self) -> (copy: AppState)
        ensures
            copy@ == self@,
    {
        AppState {
            preferences: self.preferences.clone(),
            equipment_list: self.equipment_list.clone(),
            imaging_frame_list: self.imaging_frame_list.clone(),
            imaging_session_list: clone_all(&self.imaging_session_list),
            image_list: clone_all(&self.image_list),
            close_lock: self.close_lock,
        }
    }
}

/// A load that fails costs only its own collection: whatever becomes of the
/// preferences document, the equipment, the frames, the sessions and the
/// images start as their own documents gave them, and preferences that could
/// not be loaded start at their default.
pub proof fn lemma_failed_load_is_isolated(loaded: Loaded, other: Loaded)
    requires
        other.equipment_list == loaded.equipment_list,
        other.imaging_frame_list == loaded.imaging_frame_list,
        other.imaging_session_list == loaded.imaging_session_list,
        other.image_list == loaded.image_list,
    ensures
        loaded.preferences is Err ==> AppStateView::started(loaded).preferences
            == PreferencesView::initial(),
        AppStateView::started(loaded).equipment == AppStateView::started(other).equipment,
        AppStateView::started(loaded).frames == AppStateView::started(other).frames,
        AppStateView::started(loaded).sessions == AppStateView::started(other).sessions,
        AppStateView::started(loaded).images == AppStateView::started(other).images,
{
}

/// Images appended one after the other are all kept, in the order in which
/// they came: none is lost, none is entered twice, and what was there before
/// stays in front.
pub proof fn lemma_appended_images_are_all_kept(state: AppStateView, images: Seq<ImageView>)
    ensures
        state.with_images(images).images == state.images + images,
        state.with_images(images).images.len() == state.images.len() + images.len(),
        state.with_images(images) == (AppStateView { images: state.images + images, ..state }),
    decreases images.len(),
{
    if images.len() == 0 {
        assert(state.images + images =~= state.images);
    } else {
        lemma_appended_images_are_all_kept(state, images.drop_last());
        assert(state.images + images =~= (state.images + images.drop_last()).push(
            images.last(),
        ));
    }
}

/// No two of a run of appends start from the same gallery: the append that
/// comes `k`-th finds exactly `k` more images than the first one found.
pub proof fn lemma_each_append_sees_its_predecessors(
    state: AppStateView,
    images: Seq<ImageView>,
    k: int,
)
    requires
        0 <= k <= images.len(),
    ensures
        state.with_images(images.take(k)).images == state.images + images.take(k),
        state.with_images(images.take(k)).images.len() == state.images.len() + k,
{
    lemma_appended_images_are_all_kept(state, images.take(k));
}

} // verus!
