//! The records of the log: preferences, equipment, frames, sessions, gallery images.
//!
//! Every record that owns text has a view, a ghost copy of it in which each
//! string is a sequence of characters. Contracts are stated over views.

use vstd::prelude::*;

verus! {

/// Identifier of a record: the 128-bit value of its UUID.
#[derive(Clone, Copy, Debug, PartialEq, Eq, Hash, Structural)]
pub struct Id {
    pub value: u128,
}

/// A measured quantity, kept as the 64-bit pattern of a double-precision number.
/// The library only carries measurements from record to row; it never computes with them.
#[derive(Clone, Copy, Debug, PartialEq, Eq, Hash, Structural)]
pub struct Real {
    pub bits: u64,
}

/// The views of the elements of a sequence, in order.
pub open spec fn views<T: View>(items: Seq<T>) -> Seq<T::V> {
    items.map_values(|item: T| item@)
}

/// A copy of a list, element by element.
pub fn clone_all<T: Clone + View>(items: &Vec<T>) -> (copy: Vec<T>)
    requires
        forall|a: T, b: T| cloned::<T>(a, b) ==> a@ == b@,
    ensures
        views(copy@) == views(items@),
{
    let mut copy: Vec<T> = Vec::new();
    let mut i: usize = 0;
    while i < items.len()
        invariant
            i <= items.len(),
            copy.len() == i,
            forall|a: T, b: T| cloned::<T>(a, b) ==> a@ == b@,
            forall|j: int| 0 <= j < i ==> copy@[j]@ == items@[j]@,
        decreases items.len() - i,
    {
        let item = items[i].clone();
        assert(cloned::<T>(items@[i as int], item));
        copy.push(item);
        i += 1;
    }
    assert(views(copy@) =~= views(items@));
    copy
}

/// Where the application keeps its files.
#[derive(Debug, PartialEq, Eq)]
pub struct Storage {
    pub root_directory: String,
}

/// User and application configuration. There is one instance; a save replaces it whole.
#[derive(Debug, PartialEq, Eq)]
pub struct Preferences {
    pub storage: Storage,
}

pub struct PreferencesView {
    pub root_directory: Seq<char>,
}

impl View for Preferences {
    type V = PreferencesView;

    open spec fn view(&self) -> PreferencesView {
        PreferencesView { root_directory: self.storage.root_directory@ }
    }
}

impl PreferencesView {
    /// The preferences of a fresh installation: no storage root chosen yet.
    pub open spec fn initial() -> PreferencesView {
        PreferencesView { root_directory: Seq::empty() }
    }
}

impl Preferences {
    pub fn new() -> (preferences: Preferences)
        ensures
            preferences@ == PreferencesView::initial(),
    {
        Preferences { storage: Storage { root_directory: String::new() } }
    }
}

impl Clone for Preferences {
    fn clone(&self) -> (copy: Preferences)
        ensures
            copy@ == self@,
    {
        Preferences { storage: Storage { root_directory: self.storage.root_directory.clone() } }
    }
}

/// What a piece of equipment is.
#[derive(Clone, Copy, Debug, PartialEq, Eq, Hash, Structural)]
pub enum EquipmentKind {
    Telescope,
    Camera,
    Mount,
    Filter,
    Flattener,
}

/// One piece of equipment.
#[derive(Debug, PartialEq, Eq)]
pub struct Equipment {
    pub id: Id,
    pub kind: EquipmentKind,
    pub name: String,
}

pub struct EquipmentView {
    pub id: Id,
    pub kind: EquipmentKind,
    pub name: Seq<char>,
}

impl View for Equipment {
    type V = EquipmentView;

    open spec fn view(&self) -> EquipmentView {
        EquipmentView { id: self.id, kind: self.kind, name: self.name@ }
    }
}

impl Clone for Equipment {
    fn clone(&self) -> (copy: Equipment)
        ensures
            copy@ == self@,
    {
        Equipment { id: self.id, kind: self.kind, name: self.name.clone() }
    }
}

/// The equipment records, in the order in which they were entered.
#[derive(Debug, PartialEq, Eq)]
pub struct EquipmentList {
    pub items: Vec<Equipment>,
}

impl View for EquipmentList {
    type V = Seq<EquipmentView>;

    open spec fn view(&self) -> Seq<EquipmentView> {
        views(self.items@)
    }
}

impl EquipmentList {
    pub fn new() -> (list: EquipmentList)
        ensures
            list@ == Seq::<EquipmentView>::empty(),
    {
        let list = EquipmentList { items: Vec::new() };
        assert(list@ =~= Seq::<EquipmentView>::empty());
        list
    }
}

impl Clone for EquipmentList {
    fn clone(&self) -> (copy: EquipmentList)
        ensures
            copy@ == self@,
    {
        EquipmentList { items: clone_all(&self.items) }
    }
}

/// A captured exposure series of the subject itself.
#[derive(Debug, PartialEq, Eq)]
pub struct LightFrame {
    pub id: Id,
    pub date: String,
    pub target: String,
    pub sub_length: Real,
    pub total_subs: i32,
    pub integrated_subs: i32,
    pub gain: i32,
    pub offset: i32,
    pub camera_temp: Real,
    pub outside_temp: Real,
    pub average_seeing: Real,
    pub average_cloud_cover: Real,
    pub average_moon: Real,
    pub notes: String,
}

pub struct LightFrameView {
    pub id: Id,
    pub date: Seq<char>,
    pub target: Seq<char>,
    pub sub_length: Real,
    pub total_subs: i32,
    pub integrated_subs: i32,
    pub gain: i32,
    pub offset: i32,
    pub camera_temp: Real,
    pub outside_temp: Real,
    pub average_seeing: Real,
    pub average_cloud_cover: Real,
    pub average_moon: Real,
    pub notes: Seq<char>,
}

impl View for LightFrame {
    type V = LightFrameView;

    open spec fn view(&self) -> LightFrameView {
        LightFrameView {
            id: self.id,
            date: self.date@,
            target: self.target@,
            sub_length: self.sub_length,
            total_subs: self.total_subs,
            integrated_subs: self.integrated_subs,
            gain: self.gain,
            offset: self.offset,
            camera_temp: self.camera_temp,
            outside_temp: self.outside_temp,
            average_seeing: self.average_seeing,
            average_cloud_cover: self.average_cloud_cover,
            average_moon: self.average_moon,
            notes: self.notes@,
        }
    }
}

impl Clone for LightFrame {
    fn clone(&self) -> (copy: LightFrame)
        ensures
            copy@ == self@,
    {
        LightFrame {
            id: self.id,
            date: self.date.clone(),
            target: self.target.clone(),
            sub_length: self.sub_length,
            total_subs: self.total_subs,
            integrated_subs: self.integrated_subs,
            gain: self.gain,
            offset: self.offset,
            camera_temp: self.camera_temp,
            outside_temp: self.outside_temp,
            average_seeing: self.average_seeing,
            average_cloud_cover: self.average_cloud_cover,
            average_moon: self.average_moon,
            notes: self.notes.clone(),
        }
    }
}

/// The kinds of calibration frame.
#[derive(Clone, Copy, Debug, PartialEq, Eq, Hash, Structural)]
pub enum CalibrationType {
    Dark,
    Bias,
    Flat,
}

/// What every calibration frame records, whatever its kind.
#[derive(Clone, Copy, Debug, PartialEq, Eq, Hash, Structural)]
pub struct CalibrationCommon {
    pub id: Id,
    pub gain: i32,
    pub total_subs: i32,
}

/// A calibration frame: the common fields, and with a dark frame the exposure
/// length and sensor temperature it was taken at.
#[derive(Clone, Copy, Debug, PartialEq, Eq, Hash, Structural)]
pub enum CalibrationFrame {
    Dark { common: CalibrationCommon, sub_length: Real, camera_temp: Real },
    Bias { common: CalibrationCommon },
    Flat { common: CalibrationCommon },
}

impl CalibrationFrame {
    /// The fields that all kinds share.
    pub open spec fn shared(self) -> CalibrationCommon {
        match self {
            CalibrationFrame::Dark { common, .. } => common,
            CalibrationFrame::Bias { common } => common,
            CalibrationFrame::Flat { common } => common,
        }
    }

    pub open spec fn kind(self) -> CalibrationType {
        match self {
            CalibrationFrame::Dark { .. } => CalibrationType::Dark,
            CalibrationFrame::Bias { .. } => CalibrationType::Bias,
            CalibrationFrame::Flat { .. } => CalibrationType::Flat,
        }
    }

    pub fn common(&self) -> (common: CalibrationCommon)
        ensures
            common == self.shared(),
    {
        match self {
            CalibrationFrame::Dark { common, .. } => *common,
            CalibrationFrame::Bias { common } => *common,
            CalibrationFrame::Flat { common } => *common,
        }
    }

    pub fn calibration_type(&self) -> (kind: CalibrationType)
        ensures
            kind == self.kind(),
    {
        match self {
            CalibrationFrame::Dark { .. } => CalibrationType::Dark,
            CalibrationFrame::Bias { .. } => CalibrationType::Bias,
            CalibrationFrame::Flat { .. } => CalibrationType::Flat,
        }
    }
}

/// All frames on record: the light frames and the calibration frames.
#[derive(Debug, PartialEq, Eq)]
pub struct ImagingFrameList {
    pub light_frames: Vec<LightFrame>,
    pub calibration_frames: Vec<CalibrationFrame>,
}

pub struct ImagingFrameListView {
    pub light_frames: Seq<LightFrameView>,
    pub calibration_frames: Seq<CalibrationFrame>,
}

impl View for ImagingFrameList {
    type V = ImagingFrameListView;

    open spec fn view(&self) -> ImagingFrameListView {
        ImagingFrameListView {
            light_frames: views(self.light_frames@),
            calibration_frames: self.calibration_frames@,
        }
    }
}

impl ImagingFrameListView {
    pub open spec fn initial() -> ImagingFrameListView {
        ImagingFrameListView { light_frames: Seq::empty(), calibration_frames: Seq::empty() }
    }
}

impl ImagingFrameList {
    pub fn new() -> (list: ImagingFrameList)
        ensures
            list@ == ImagingFrameListView::initial(),
    {
        let list = ImagingFrameList { light_frames: Vec::new(), calibration_frames: Vec::new() };
        assert(list@.light_frames =~= Seq::<LightFrameView>::empty());
        list
    }
}

impl Clone for ImagingFrameList {
    fn clone(&self) -> (copy: ImagingFrameList)
        ensures
            copy@ == self@,
    {
        let mut calibration_frames: Vec<CalibrationFrame> = Vec::new();
        let mut i: usize = 0;
        while i < self.calibration_frames.len()
            invariant
                i <= self.calibration_frames.len(),
                calibration_frames@ == self.calibration_frames@.take(i as int),
            decreases self.calibration_frames.len() - i,
        {
            calibration_frames.push(self.calibration_frames[i]);
            i += 1;
        }
        assert(calibration_frames@ =~= self.calibration_frames@);
        ImagingFrameList { light_frames: clone_all(&self.light_frames), calibration_frames }
    }
}

/// One imaging session. It describes exactly one light frame, named by its identifier.
#[derive(Debug, PartialEq, Eq)]
pub struct ImagingSession {
    pub id: Id,
    pub folder_dir: String,
    pub light_frame_id: Id,
}

pub struct ImagingSessionView {
    pub id: Id,
    pub folder_dir: Seq<char>,
    pub light_frame_id: Id,
}

impl View for ImagingSession {
    type V = ImagingSessionView;

    open spec fn view(&self) -> ImagingSessionView {
        ImagingSessionView {
            id: self.id,
            folder_dir: self.folder_dir@,
            light_frame_id: self.light_frame_id,
        }
    }
}

impl Clone for ImagingSession {
    fn clone(&self) -> (copy: ImagingSession)
        ensures
            copy@ == self@,
    {
        ImagingSession {
            id: self.id,
            folder_dir: self.folder_dir.clone(),
            light_frame_id: self.light_frame_id,
        }
    }
}

/// An entry of the gallery.
#[derive(Debug, PartialEq, Eq)]
pub struct Image {
    pub title: String,
    pub path: String,
    pub total_exposure: i32,
}

pub struct ImageView {
    pub title: Seq<char>,
    pub path: Seq<char>,
    pub total_exposure: i32,
}

impl View for Image {
    type V = ImageView;

    open spec fn view(&self) -> ImageView {
        ImageView { title: self.title@, path: self.path@, total_exposure: self.total_exposure }
    }
}

impl Clone for Image {
    fn clone(&self) -> (copy: Image)
        ensures
            copy@ == self@,
    {
        Image {
            title: self.title.clone(),
            path: self.path.clone(),
            total_exposure: self.total_exposure,
        }
    }
}

} // verus!
