use astrolog::log::ProjectionError;
use astrolog::model::{
    Equipment, EquipmentKind, EquipmentList, Id, ImagingFrameList, ImagingSession, Preferences,
};
use astrolog::persist::load;
use astrolog::state::{AppState, CollectionId, LoadError, LoadFailure, Loaded};
use astrolog::store::{load_frontend_app_state, Store};

fn id_in(entry: &serde_json::Value, field: &str) -> Option<Id> {
    let text = entry.get(field)?.as_str()?;
    Some(Id { value: uuid::Uuid::parse_str(text).ok()?.as_u128() })
}

fn equipment_in(text: String) -> Option<EquipmentList> {
    let document: serde_json::Value = serde_json::from_str(&text).ok()?;
    let mut items = Vec::new();
    for entry in document.as_array()? {
        items.push(Equipment {
            id: id_in(entry, "id")?,
            kind: EquipmentKind::Telescope,
            name: String::from(entry.get("name")?.as_str()?),
        });
    }
    Some(EquipmentList { items })
}

fn sessions_in(text: String) -> Option<Vec<ImagingSession>> {
    let document: serde_json::Value = serde_json::from_str(&text).ok()?;
    let mut sessions = Vec::new();
    for entry in document.as_array()? {
        sessions.push(ImagingSession {
            id: id_in(entry, "id")?,
            folder_dir: String::from(entry.get("folder_dir")?.as_str()?),
            light_frame_id: id_in(entry, "light_frame_id")?,
        });
    }
    Some(sessions)
}

fn no_preferences(_text: String) -> Option<Preferences> {
    None
}

fn no_frames(_text: String) -> Option<ImagingFrameList> {
    None
}

#[test]
fn empty_equipment_and_one_dangling_session_on_disk() {
    let sessions = String::from(
        "[{\"id\": \"00000000-0000-0000-0000-000000000001\", \
          \"folder_dir\": \"2024-08-29_M31\", \
          \"light_frame_id\": \"00000000-0000-0000-0000-0000000000ff\"}]",
    );
    let loaded = Loaded {
        preferences: load(Some(String::from("{ not json")), no_preferences),
        equipment_list: load(Some(String::from("[]")), equipment_in),
        imaging_frame_list: load(None, no_frames),
        imaging_session_list: load(Some(sessions), sessions_in),
        image_list: load(None, |_text: String| None),
    };
    assert_eq!(loaded.equipment_list, Ok(EquipmentList { items: vec![] }));
    assert_eq!(
        loaded.failures(),
        vec![
            LoadFailure { collection: CollectionId::Preferences, error: LoadError::Parse },
            LoadFailure { collection: CollectionId::ImagingFrames, error: LoadError::Io },
            LoadFailure { collection: CollectionId::Images, error: LoadError::Io },
        ]
    );

    let store = Store::new(AppState::new(loaded));
    let view = load_frontend_app_state(&store);
    assert_eq!(view.table.sessions.len(), 0);
    assert_eq!(
        view.errors,
        vec![ProjectionError::DanglingReference {
            session: Id { value: 1 },
            light_frame: Id { value: 255 },
        }]
    );
    assert_eq!(view.preferences, Preferences::new());
}

#[test]
fn a_document_of_the_wrong_shape_is_a_parse_error() {
    assert_eq!(load(Some(String::from("{}")), equipment_in), Err(LoadError::Parse));
    assert_eq!(load(Some(String::from("[{\"id\": 7}]")), sessions_in), Err(LoadError::Parse));
    assert_eq!(load(None, sessions_in), Err(LoadError::Io));
}
