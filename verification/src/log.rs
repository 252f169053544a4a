//! The rows of the log: one per imaging session whose light frame is on
//! record, one per calibration frame.

use vstd::prelude::*;
use crate::model::{
    views, CalibrationFrame, CalibrationType, Id, ImagingFrameList, ImagingSession,
    ImagingSessionView, LightFrame, LightFrameView, Real,
};

verus! {

/// A field of a calibration row that only some kinds of frame record.
/// A reading that does not apply is never shown as a number.
#[derive(Clone, Copy, Debug, PartialEq, Eq, Hash, Structural)]
pub enum Reading {
    NotApplicable,
    Value(Real),
}

impl Reading {
    /// The text a table shows for a reading that does not apply.
    pub fn not_applicable_text() -> (text: String)
        ensures
            text@ == "N/A"@,
    {
        "N/A".to_owned()
    }
}

/// Why a session has no row.
#[derive(Clone, Copy, Debug, PartialEq, Eq, Hash, Structural)]
pub enum ProjectionError {
    /// The session names a light frame that is not on record.
    DanglingReference { session: Id, light_frame: Id },
}

/// Position `i` holds the first light frame with identifier `id`.
pub open spec fn is_first_match(frames: Seq<LightFrameView>, id: Id, i: int) -> bool {
    &&& 0 <= i < frames.len()
    &&& frames[i].id == id
    &&& forall|j: int| 0 <= j < i ==> (#[trigger] frames[j]).id != id
}

/// The light frame that `id` names: the first one with that identifier, if there is any.
pub open spec fn resolve(frames: Seq<LightFrameView>, id: Id) -> Option<LightFrameView> {
    if exists|i: int| is_first_match(frames, id, i) {
        Some(frames[choose|i: int| is_first_match(frames, id, i)])
    } else {
        None
    }
}

/// No two light frames share an identifier.
pub open spec fn ids_unique(frames: Seq<LightFrameView>) -> bool {
    forall|i: int, j: int|
        0 <= i < j < frames.len() ==> (#[trigger] frames[i]).id != (#[trigger] frames[j]).id
}

/// Where no two light frames share an identifier, the identifier of a frame
/// on record names that frame and no other.
pub proof fn lemma_unique_id_names_its_frame(frames: Seq<LightFrameView>, i: int)
    requires
        ids_unique(frames),
        0 <= i < frames.len(),
    ensures
        resolve(frames, frames[i].id) == Some(frames[i]),
{
    let id = frames[i].id;
    assert(is_first_match(frames, id, i));
    let k = choose|k: int| is_first_match(frames, id, k);
    if k < i {
        assert(frames[k].id != frames[i].id);
    } else if i < k {
        assert(frames[i].id != id);
    }
}

/// An identifier resolves to a frame on record that bears it, or to none
/// where no frame on record bears it.
pub proof fn lemma_resolve_finds_a_frame_on_record(frames: Seq<LightFrameView>, id: Id)
    ensures
        match resolve(frames, id) {
            Some(frame) => frame.id == id && frames.contains(frame),
            None => forall|i: int| 0 <= i < frames.len() ==> (#[trigger] frames[i]).id != id,
        },
{
    if exists|i: int| is_first_match(frames, id, i) {
        let k = choose|k: int| is_first_match(frames, id, k);
        assert(frames[k].id == id);
    } else {
        assert forall|i: int| 0 <= i < frames.len() implies (#[trigger] frames[i]).id != id by {
            if frames[i].id == id {
                lemma_first_match_exists(frames, id, i);
            }
        }
    }
}

/// Where some frame up to position `i` bears the identifier, there is a first one that does.
proof fn lemma_first_match_exists(frames: Seq<LightFrameView>, id: Id, i: int)
    requires
        0 <= i < frames.len(),
        frames[i].id == id,
    ensures
        exists|k: int| is_first_match(frames, id, k),
    decreases i,
{
    if exists|j: int| 0 <= j < i && (#[trigger] frames[j]).id == id {
        let j = choose|j: int| 0 <= j < i && (#[trigger] frames[j]).id == id;
        lemma_first_match_exists(frames, id, j);
    } else {
        assert(is_first_match(frames, id, i));
    }
}

impl ImagingFrameList {
    /// Looks a light frame up by its identifier.
    pub fn get_light_frame(&self, id: Id) -> (found: Option<&LightFrame>)
        ensures
            match found {
                Some(frame) => resolve(self@.light_frames, id) == Some(frame@),
                None => resolve(self@.light_frames, id) is None,
            },
    {
        let ghost frames = self@.light_frames;
        let mut i: usize = 0;
        while i < self.light_frames.len()
            invariant
                i <= self.light_frames.len(),
                frames == views(self.light_frames@),
                forall|j: int| 0 <= j < i ==> (#[trigger] frames[j]).id != id,
            decreases self.light_frames.len() - i,
        {
            if self.light_frames[i].id.value == id.value {
                proof {
                    assert(is_first_match(frames, id, i as int));
                    let k = choose|k: int| is_first_match(frames, id, k);
                    assert(k == i);
                }
                return Some(&self.light_frames[i]);
            }
            i += 1;
        }
        assert(forall|k: int| !is_first_match(frames, id, k));
        None
    }
}

/// A row of the session table.
#[derive(Debug, PartialEq, Eq)]
pub struct LogTableRow {
    pub id: Id,
    pub date: String,
    pub target: String,
    pub sub_length: Real,
    pub total_subs: i32,
    pub integrated_subs: i32,
    pub filter: String,
    pub gain: i32,
    pub offset: i32,
    pub camera_temp: Real,
    pub outside_temp: Real,
    pub average_seeing: Real,
    pub average_cloud_cover: Real,
    pub average_moon: Real,
    pub telescope: String,
    pub flattener: String,
    pub mount: String,
    pub camera: String,
    pub notes: String,
}

pub struct LogTableRowView {
    pub id: Id,
    pub date: Seq<char>,
    pub target: Seq<char>,
    pub sub_length: Real,
    pub total_subs: i32,
    pub integrated_subs: i32,
    pub filter: Seq<char>,
    pub gain: i32,
    pub offset: i32,
    pub camera_temp: Real,
    pub outside_temp: Real,
    pub average_seeing: Real,
    pub average_cloud_cover: Real,
    pub average_moon: Real,
    pub telescope: Seq<char>,
    pub flattener: Seq<char>,
    pub mount: Seq<char>,
    pub camera: Seq<char>,
    pub notes: Seq<char>,
}

impl View for LogTableRow {
    type V = LogTableRowView;

    open spec fn view(&self) -> LogTableRowView {
        LogTableRowView {
            id: self.id,
            date: self.date@,
            target: self.target@,
            sub_length: self.sub_length,
            total_subs: self.total_subs,
            integrated_subs: self.integrated_subs,
            filter: self.filter@,
            gain: self.gain,
            offset: self.offset,
            camera_temp: self.camera_temp,
            outside_temp: self.outside_temp,
            average_seeing: self.average_seeing,
            average_cloud_cover: self.average_cloud_cover,
            average_moon: self.average_moon,
            telescope: self.telescope@,
            flattener: self.flattener@,
            mount: self.mount@,
            camera: self.camera@,
            notes: self.notes@,
        }
    }
}

/// The row that shows a light frame. The filter and the four pieces of
/// equipment are those of the one rig the log is kept for.
pub open spec fn log_row(frame: LightFrameView) -> LogTableRowView {
    LogTableRowView {
        id: frame.id,
        date: frame.date,
        target: frame.target,
        sub_length: frame.sub_length,
        total_subs: frame.total_subs,
        integrated_subs: frame.integrated_subs,
        filter: "L"@,
        gain: frame.gain,
        offset: frame.offset,
        camera_temp: frame.camera_temp,
        outside_temp: frame.outside_temp,
        average_seeing: frame.average_seeing,
        average_cloud_cover: frame.average_cloud_cover,
        average_moon: frame.average_moon,
        telescope: "Sky-Watcher Esprit 100ED"@,
        flattener: "Sky-Watcher 1.0x"@,
        mount: "Sky-Watcher EQ6-R Pro"@,
        camera: "ZWO ASI1600MM Pro"@,
        notes: frame.notes,
    }
}

/// What a session contributes to the table: the row of its light frame, or
/// the report that the frame is missing.
pub open spec fn session_row(session: ImagingSessionView, frames: Seq<LightFrameView>) -> Result<
    LogTableRowView,
    ProjectionError,
> {
    match resolve(frames, session.light_frame_id) {
        Some(frame) => Ok(log_row(frame)),
        None => Err(
            ProjectionError::DanglingReference {
                session: session.id,
                light_frame: session.light_frame_id,
            },
        ),
    }
}

impl LogTableRow {
    /// The row of the light frame itself.
    pub fn of_frame(frame: &LightFrame) -> (row: LogTableRow)
        ensures
            row@ == log_row(frame@),
    {
        LogTableRow {
            id: frame.id,
            date: frame.date.clone(),
            target: frame.target.clone(),
            sub_length: frame.sub_length,
            total_subs: frame.total_subs,
            integrated_subs: frame.integrated_subs,
            filter: "L".to_owned(),
            gain: frame.gain,
            offset: frame.offset,
            camera_temp: frame.camera_temp,
            outside_temp: frame.outside_temp,
            average_seeing: frame.average_seeing,
            average_cloud_cover: frame.average_cloud_cover,
            average_moon: frame.average_moon,
            telescope: "Sky-Watcher Esprit 100ED".to_owned(),
            flattener: "Sky-Watcher 1.0x".to_owned(),
            mount: "Sky-Watcher EQ6-R Pro".to_owned(),
            camera: "ZWO ASI1600MM Pro".to_owned(),
            notes: frame.notes.clone(),
        }
    }

    /// The row of a session, built from the light frame that the session names.
    /// A session whose frame is not on record gets no row but an error that names it.
    pub fn new(imaging_session: &ImagingSession, frames: &ImagingFrameList) -> (row: Result<
        LogTableRow,
        ProjectionError,
    >)
        ensures
            match row {
                Ok(r) => session_row(imaging_session@, frames@.light_frames) == Ok::<
                    LogTableRowView,
                    ProjectionError,
                >(r@),
                Err(e) => session_row(imaging_session@, frames@.light_frames) == Err::<
                    LogTableRowView,
                    ProjectionError,
                >(e),
            },
    {
        match frames.get_light_frame(imaging_session.light_frame_id) {
            Some(frame) => Ok(LogTableRow::of_frame(frame)),
            None => Err(
                ProjectionError::DanglingReference {
                    session: imaging_session.id,
                    light_frame: imaging_session.light_frame_id,
                },
            ),
        }
    }
}

/// A row of the calibration table.
#[derive(Debug, PartialEq, Eq)]
pub struct CalibrationTableRow {
    pub id: Id,
    pub camera: String,
    pub calibration_type: CalibrationType,
    pub gain: i32,
    pub sub_length: Reading,
    pub camera_temp: Reading,
    pub total_subs: i32,
}

pub struct CalibrationTableRowView {
    pub id: Id,
    pub camera: Seq<char>,
    pub calibration_type: CalibrationType,
    pub gain: i32,
    pub sub_length: Reading,
    pub camera_temp: Reading,
    pub total_subs: i32,
}

impl View for CalibrationTableRow {
    type V = CalibrationTableRowView;

    open spec fn view(&self) -> CalibrationTableRowView {
        CalibrationTableRowView {
            id: self.id,
            camera: self.camera@,
            calibration_type: self.calibration_type,
            gain: self.gain,
            sub_length: self.sub_length,
            camera_temp: self.camera_temp,
            total_subs: self.total_subs,
        }
    }
}

/// The exposure length that a calibration frame records, if its kind records one.
pub open spec fn sub_length_of(frame: CalibrationFrame) -> Reading {
    match frame {
        CalibrationFrame::Dark { sub_length, .. } => Reading::Value(sub_length),
        CalibrationFrame::Bias { .. } => Reading::NotApplicable,
        CalibrationFrame::Flat { .. } => Reading::NotApplicable,
    }
}

/// The sensor temperature that a calibration frame records, if its kind records one.
pub open spec fn camera_temp_of(frame: CalibrationFrame) -> Reading {
    match frame {
        CalibrationFrame::Dark { camera_temp, .. } => Reading::Value(camera_temp),
        CalibrationFrame::Bias { .. } => Reading::NotApplicable,
        CalibrationFrame::Flat { .. } => Reading::NotApplicable,
    }
}

/// The row that shows a calibration frame.
pub open spec fn calibration_row(frame: CalibrationFrame) -> CalibrationTableRowView {
    CalibrationTableRowView {
        id: frame.shared().id,
        camera: "default_camera"@,
        calibration_type: frame.kind(),
        gain: frame.shared().gain,
        sub_length: sub_length_of(frame),
        camera_temp: camera_temp_of(frame),
        total_subs: frame.shared().total_subs,
    }
}

impl CalibrationTableRow {
    pub fn new(calibration_frame: &CalibrationFrame) -> (row: CalibrationTableRow)
        ensures
            row@ == calibration_row(*calibration_frame),
    {
        let (sub_length, camera_temp) = match calibration_frame {
            CalibrationFrame::Dark { sub_length, camera_temp, .. } => (
                Reading::Value(*sub_length),
                Reading::Value(*camera_temp),
            ),
            CalibrationFrame::Bias { .. } => (Reading::NotApplicable, Reading::NotApplicable),
            CalibrationFrame::Flat { .. } => (Reading::NotApplicable, Reading::NotApplicable),
        };
        let common = calibration_frame.common();
        CalibrationTableRow {
            id: common.id,
            camera: "default_camera".to_owned(),
            calibration_type: calibration_frame.calibration_type(),
            gain: common.gain,
            sub_length,
            camera_temp,
            total_subs: common.total_subs,
        }
    }
}

/// A calibration row shows an exposure length and a sensor temperature for
/// a dark frame and for no other kind: for every other kind both fields are
/// marked as not applicable, and so are no number at all.
pub proof fn lemma_readings_only_for_dark_frames(frame: CalibrationFrame)
    ensures
        frame is Dark ==> calibration_row(frame).sub_length == Reading::Value(frame->sub_length)
            && calibration_row(frame).camera_temp == Reading::Value(frame->camera_temp),
        !(frame is Dark) ==> calibration_row(frame).sub_length is NotApplicable
            && calibration_row(frame).camera_temp is NotApplicable,
        forall|value: Real|
            !(frame is Dark) ==> calibration_row(frame).sub_length != Reading::Value(value)
                && calibration_row(frame).camera_temp != Reading::Value(value),
{
}

/// The two tables of the log.
#[derive(Debug, PartialEq, Eq)]
pub struct TableData {
    pub sessions: Vec<LogTableRow>,
    pub calibration: Vec<CalibrationTableRow>,
}

pub struct TableDataView {
    pub sessions: Seq<LogTableRowView>,
    pub calibration: Seq<CalibrationTableRowView>,
}

impl View for TableData {
    type V = TableDataView;

    open spec fn view(&self) -> TableDataView {
        TableDataView { sessions: views(self.sessions@), calibration: views(self.calibration@) }
    }
}

/// The row of a session, where it has one.
pub open spec fn row_if_resolved(frames: Seq<LightFrameView>) -> spec_fn(ImagingSessionView) -> Option<
    LogTableRowView,
> {
    |session: ImagingSessionView|
        match session_row(session, frames) {
            Ok(row) => Some(row),
            Err(_) => None,
        }
}

/// The error of a session, where it has no row.
pub open spec fn error_if_dangling(frames: Seq<LightFrameView>) -> spec_fn(
    ImagingSessionView,
) -> Option<ProjectionError> {
    |session: ImagingSessionView|
        match session_row(session, frames) {
            Ok(_) => None,
            Err(error) => Some(error),
        }
}

/// The session table: the rows of the sessions whose light frame is on record, in session order.
pub open spec fn session_rows(
    sessions: Seq<ImagingSessionView>,
    frames: Seq<LightFrameView>,
) -> Seq<LogTableRowView> {
    sessions.filter_map(row_if_resolved(frames))
}

/// The errors of the sessions whose light frame is missing, in session order.
pub open spec fn session_errors(
    sessions: Seq<ImagingSessionView>,
    frames: Seq<LightFrameView>,
) -> Seq<ProjectionError> {
    sessions.filter_map(error_if_dangling(frames))
}

/// The calibration table: one row per calibration frame, in frame order.
pub open spec fn calibration_rows(frames: Seq<CalibrationFrame>) -> Seq<CalibrationTableRowView> {
    frames.map_values(|frame: CalibrationFrame| calibration_row(frame))
}

/// The tables together with the sessions that could not be shown.
#[derive(Debug, PartialEq, Eq)]
pub struct Projection {
    pub table: TableData,
    pub errors: Vec<ProjectionError>,
}

impl TableData {
    /// Builds both tables. A session whose light frame is missing is left out
    /// of the session table and reported; the other sessions are not affected.
    pub fn project(sessions: &Vec<ImagingSession>, frames: &ImagingFrameList) -> (projection:
        Projection)
        ensures
            projection.table@.sessions == session_rows(views(sessions@), frames@.light_frames),
            projection.table@.calibration == calibration_rows(frames@.calibration_frames),
            projection.errors@ == session_errors(views(sessions@), frames@.light_frames),
    {
        let ghost all = views(sessions@);
        let ghost lights = frames@.light_frames;
        let mut rows: Vec<LogTableRow> = Vec::new();
        let mut errors: Vec<ProjectionError> = Vec::new();
        let mut i: usize = 0;
        assert(all.take(0) =~= Seq::<ImagingSessionView>::empty());
        while i < sessions.len()
            invariant
                i <= sessions.len(),
                all == views(sessions@),
                lights == frames@.light_frames,
                views(rows@) == session_rows(all.take(i as int), lights),
                errors@ == session_errors(all.take(i as int), lights),
            decreases sessions.len() - i,
        {
            proof {
                all.lemma_filter_map_take_succ(row_if_resolved(lights), i as int);
                all.lemma_filter_map_take_succ(error_if_dangling(lights), i as int);
            }
            let ghost before = views(rows@);
            match LogTableRow::new(&sessions[i], frames) {
                Ok(row) => {
                    rows.push(row);
                    assert(views(rows@) =~= before + seq![row@]);
                },
                Err(error) => {
                    errors.push(error);
                },
            }
            i += 1;
        }
        assert(all.take(sessions.len() as int) =~= all);

        let mut calibration: Vec<CalibrationTableRow> = Vec::new();
        let mut k: usize = 0;
        while k < frames.calibration_frames.len()
            invariant
                k <= frames.calibration_frames.len(),
                calibration.len() == k,
                forall|j: int|
                    0 <= j < k ==> (#[trigger] calibration@[j])@ == calibration_row(
                        frames.calibration_frames@[j],
                    ),
            decreases frames.calibration_frames.len() - k,
        {
            calibration.push(CalibrationTableRow::new(&frames.calibration_frames[k]));
            k += 1;
        }
        assert(views(calibration@) =~= calibration_rows(frames@.calibration_frames));
        Projection { table: TableData { sessions: rows, calibration }, errors }
    }
}

/// `filter_map` goes through a concatenation part by part.
proof fn lemma_filter_map_concat<A, B>(a: Seq<A>, b: Seq<A>, f: spec_fn(A) -> Option<B>)
    ensures
        (a + b).filter_map(f) == a.filter_map(f) + b.filter_map(f),
    decreases b.len(),
{
    if b.len() == 0 {
        assert(a + b =~= a);
        assert(a.filter_map(f) + b.filter_map(f) =~= a.filter_map(f));
    } else {
        assert((a + b).drop_last() =~= a + b.drop_last());
        assert((a + b).last() == b.last());
        lemma_filter_map_concat(a, b.drop_last(), f);
        match f(b.last()) {
            Some(x) => {
                assert((a + b).filter_map(f) =~= a.filter_map(f) + b.filter_map(f));
            },
            None => {},
        }
    }
}

/// A sequence falls into what stands before position `i`, the element there, and what follows.
proof fn lemma_split_at<A>(s: Seq<A>, i: int)
    requires
        0 <= i < s.len(),
    ensures
        s == s.take(i) + seq![s[i]] + s.skip(i + 1),
        s.remove(i) == s.take(i) + s.skip(i + 1),
{
    assert(s =~= s.take(i) + seq![s[i]] + s.skip(i + 1));
    assert(s.remove(i) =~= s.take(i) + s.skip(i + 1));
}

/// Every session is shown or reported: the rows and the errors together are
/// as many as the sessions.
pub proof fn lemma_each_session_shown_or_reported(
    sessions: Seq<ImagingSessionView>,
    frames: Seq<LightFrameView>,
)
    ensures
        session_rows(sessions, frames).len() + session_errors(sessions, frames).len()
            == sessions.len(),
    decreases sessions.len(),
{
    if sessions.len() > 0 {
        lemma_each_session_shown_or_reported(sessions.drop_last(), frames);
    }
}

/// A session whose light frame is not on record is reported under its own
/// identifier and that of the missing frame, and it changes nothing for the
/// others: the session table is the one that the other sessions alone give.
pub proof fn lemma_dangling_session_is_reported(
    sessions: Seq<ImagingSessionView>,
    frames: Seq<LightFrameView>,
    i: int,
)
    requires
        0 <= i < sessions.len(),
        resolve(frames, sessions[i].light_frame_id) is None,
    ensures
        session_errors(sessions, frames).contains(
            ProjectionError::DanglingReference {
                session: sessions[i].id,
                light_frame: sessions[i].light_frame_id,
            },
        ),
        session_rows(sessions, frames) == session_rows(sessions.remove(i), frames),
        session_errors(sessions, frames).len() == session_errors(sessions.remove(i), frames).len()
            + 1,
{
    let before = sessions.take(i);
    let after = sessions.skip(i + 1);
    let here = seq![sessions[i]];
    let rows = row_if_resolved(frames);
    let errors = error_if_dangling(frames);
    let error = ProjectionError::DanglingReference {
        session: sessions[i].id,
        light_frame: sessions[i].light_frame_id,
    };
    lemma_split_at(sessions, i);
    lemma_filter_map_concat(before, here, rows);
    lemma_filter_map_concat(before + here, after, rows);
    lemma_filter_map_concat(before, after, rows);
    lemma_filter_map_concat(before, here, errors);
    lemma_filter_map_concat(before + here, after, errors);
    lemma_filter_map_concat(before, after, errors);
    Seq::lemma_filter_map_singleton(sessions[i], rows);
    Seq::lemma_filter_map_singleton(sessions[i], errors);
    assert(here.filter_map(rows) =~= Seq::<LogTableRowView>::empty());
    assert(here.filter_map(errors) =~= seq![error]);
    assert(before.filter_map(rows) + here.filter_map(rows) =~= before.filter_map(rows));
    let reported = session_errors(sessions, frames);
    assert(reported == before.filter_map(errors) + seq![error] + after.filter_map(errors));
    assert(reported[before.filter_map(errors).len() as int] == error);
}

/// A session whose light frame is on record has the row of that frame in the session table.
pub proof fn lemma_resolved_session_has_row(
    sessions: Seq<ImagingSessionView>,
    frames: Seq<LightFrameView>,
    i: int,
)
    requires
        0 <= i < sessions.len(),
        resolve(frames, sessions[i].light_frame_id) is Some,
    ensures
        session_rows(sessions, frames).contains(
            log_row(resolve(frames, sessions[i].light_frame_id)->0),
        ),
        session_errors(sessions, frames) == session_errors(sessions.remove(i), frames),
{
    let before = sessions.take(i);
    let after = sessions.skip(i + 1);
    let here = seq![sessions[i]];
    let rows = row_if_resolved(frames);
    let errors = error_if_dangling(frames);
    let row = log_row(resolve(frames, sessions[i].light_frame_id)->0);
    lemma_split_at(sessions, i);
    lemma_filter_map_concat(before, here, rows);
    lemma_filter_map_concat(before + here, after, rows);
    lemma_filter_map_concat(before, here, errors);
    lemma_filter_map_concat(before + here, after, errors);
    lemma_filter_map_concat(before, after, errors);
    Seq::lemma_filter_map_singleton(sessions[i], rows);
    Seq::lemma_filter_map_singleton(sessions[i], errors);
    assert(here.filter_map(errors) =~= Seq::<ProjectionError>::empty());
    assert(here.filter_map(rows) =~= seq![row]);
    assert(before.filter_map(errors) + here.filter_map(errors) =~= before.filter_map(errors));
    let shown = session_rows(sessions, frames);
    assert(shown == before.filter_map(rows) + seq![row] + after.filter_map(rows));
    assert(shown[before.filter_map(rows).len() as int] == row);
}

} // verus!
