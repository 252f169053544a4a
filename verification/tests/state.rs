use astrolog::log::ProjectionError;
use astrolog::model::{
    clone_all, Equipment, EquipmentKind, EquipmentList, Id, Image, ImagingFrameList,
    ImagingSession, LightFrame, Preferences, Real, Storage,
};
use astrolog::persist::{
    load, report_save, save, save_app_state, save_frontend_app_state, SaveError, SaveFailure,
    SaveOutcome, SaveTarget,
};
use astrolog::state::{AppState, CollectionId, LoadError, LoadFailure, Loaded};

fn preferences(root: &str) -> Preferences {
    Preferences { storage: Storage { root_directory: String::from(root) } }
}

fn frame(id: u128) -> LightFrame {
    LightFrame {
        id: Id { value: id },
        date: String::from("2024-01-02"),
        target: String::from("M81"),
        sub_length: Real { bits: 180.0f64.to_bits() },
        total_subs: 10,
        integrated_subs: 9,
        gain: 0,
        offset: 0,
        camera_temp: Real { bits: (-20.0f64).to_bits() },
        outside_temp: Real { bits: 3.0f64.to_bits() },
        average_seeing: Real { bits: 1.5f64.to_bits() },
        average_cloud_cover: Real { bits: 0.0f64.to_bits() },
        average_moon: Real { bits: 0.2f64.to_bits() },
        notes: String::new(),
    }
}

fn session(id: u128, light_frame_id: u128) -> ImagingSession {
    ImagingSession {
        id: Id { value: id },
        folder_dir: String::from("sessions/one"),
        light_frame_id: Id { value: light_frame_id },
    }
}

fn image(title: &str) -> Image {
    Image { title: String::from(title), path: format!("Gallery/{}.png", title), total_exposure: 300 }
}

fn everything_loaded() -> Loaded {
    Loaded {
        preferences: Ok(preferences("/data/astro/")),
        equipment_list: Ok(EquipmentList {
            items: vec![Equipment {
                id: Id { value: 1 },
                kind: EquipmentKind::Telescope,
                name: String::from("Esprit 100ED"),
            }],
        }),
        imaging_frame_list: Ok(ImagingFrameList {
            light_frames: vec![frame(5)],
            calibration_frames: vec![],
        }),
        imaging_session_list: Ok(vec![session(2, 5)]),
        image_list: Ok(vec![image("first")]),
    }
}

#[test]
fn start_keeps_what_was_loaded() {
    let loaded = everything_loaded();
    assert!(loaded.failures().is_empty());
    let state = AppState::new(loaded);
    assert_eq!(state.preferences, preferences("/data/astro/"));
    assert_eq!(state.equipment_list.items.len(), 1);
    assert_eq!(state.imaging_frame_list.light_frames, vec![frame(5)]);
    assert_eq!(state.imaging_session_list, vec![session(2, 5)]);
    assert_eq!(state.image_list, vec![image("first")]);
    assert!(!state.close_lock);
}

#[test]
fn unparsable_preferences_fall_back_alone() {
    let mut loaded = everything_loaded();
    loaded.preferences = Err(LoadError::Parse);
    assert_eq!(
        loaded.failures(),
        vec![LoadFailure { collection: CollectionId::Preferences, error: LoadError::Parse }]
    );
    let state = AppState::new(loaded);
    assert_eq!(state.preferences, Preferences::new());
    assert_eq!(state.preferences.storage.root_directory, "");
    assert_eq!(state.equipment_list.items.len(), 1);
    assert_eq!(state.imaging_frame_list.light_frames, vec![frame(5)]);
    assert_eq!(state.imaging_session_list, vec![session(2, 5)]);
    assert_eq!(state.image_list, vec![image("first")]);
}

#[test]
fn start_with_every_load_failed_is_all_defaults() {
    let loaded = Loaded {
        preferences: Err(LoadError::Io),
        equipment_list: Err(LoadError::Parse),
        imaging_frame_list: Err(LoadError::Io),
        imaging_session_list: Err(LoadError::Parse),
        image_list: Err(LoadError::Io),
    };
    assert_eq!(
        loaded.failures(),
        vec![
            LoadFailure { collection: CollectionId::Preferences, error: LoadError::Io },
            LoadFailure { collection: CollectionId::Equipment, error: LoadError::Parse },
            LoadFailure { collection: CollectionId::ImagingFrames, error: LoadError::Io },
            LoadFailure { collection: CollectionId::ImagingSessions, error: LoadError::Parse },
            LoadFailure { collection: CollectionId::Images, error: LoadError::Io },
        ]
    );
    let state = AppState::new(loaded);
    assert_eq!(state.preferences, Preferences::new());
    assert_eq!(state.equipment_list, EquipmentList::new());
    assert_eq!(state.imaging_frame_list, ImagingFrameList::new());
    assert!(state.imaging_session_list.is_empty());
    assert!(state.image_list.is_empty());
    assert!(!state.close_lock);
}

#[test]
fn one_failed_collection_in_the_middle() {
    let mut loaded = everything_loaded();
    loaded.imaging_frame_list = Err(LoadError::Io);
    assert_eq!(
        loaded.failures(),
        vec![LoadFailure { collection: CollectionId::ImagingFrames, error: LoadError::Io }]
    );
    let state = AppState::new(loaded);
    assert_eq!(state.imaging_frame_list, ImagingFrameList::new());
    assert_eq!(state.preferences, preferences("/data/astro/"));
    assert_eq!(state.imaging_session_list, vec![session(2, 5)]);
}

#[test]
fn empty_equipment_and_dangling_session_still_give_a_view() {
    let loaded = Loaded {
        preferences: Ok(preferences("/data/astro/")),
        equipment_list: Ok(EquipmentList { items: vec![] }),
        imaging_frame_list: Ok(ImagingFrameList::new()),
        imaging_session_list: Ok(vec![session(1, 404)]),
        image_list: Ok(vec![]),
    };
    let state = AppState::new(loaded);
    let view = state.snapshot_for_frontend();
    assert_eq!(view.table.sessions.len(), 0);
    assert_eq!(
        view.errors,
        vec![ProjectionError::DanglingReference {
            session: Id { value: 1 },
            light_frame: Id { value: 404 },
        }]
    );
    assert_eq!(view.preferences, preferences("/data/astro/"));
    assert!(view.image_list.is_empty());
    assert!(view.table.calibration.is_empty());
}

#[test]
fn snapshot_shows_the_state_and_leaves_it_alone() {
    let state = AppState::new(everything_loaded());
    let before = state.clone();
    let view = state.snapshot_for_frontend();
    assert_eq!(state, before);
    assert_eq!(view.preferences, state.preferences);
    assert_eq!(view.image_list, state.image_list);
    assert_eq!(view.table.sessions.len(), 1);
    assert_eq!(view.table.sessions[0].id, Id { value: 5 });
    assert_eq!(view.table.sessions[0].target, "M81");
    assert!(view.errors.is_empty());
}

#[test]
fn appended_images_are_kept_in_order() {
    let mut state = AppState::new(everything_loaded());
    let titles = ["a", "b", "c", "d", "e"];
    for (k, title) in titles.iter().enumerate() {
        assert_eq!(state.image_list.len(), 1 + k);
        state.add_image(image(title));
    }
    assert_eq!(state.image_list.len(), 1 + titles.len());
    assert_eq!(state.image_list[0], image("first"));
    for (k, title) in titles.iter().enumerate() {
        assert_eq!(state.image_list[1 + k], image(title));
    }
    assert_eq!(state.imaging_session_list, vec![session(2, 5)]);
}

#[test]
fn preferences_are_replaced_whole() {
    let mut state = AppState::new(everything_loaded());
    state.set_preferences(preferences("/elsewhere/"));
    assert_eq!(state.preferences, preferences("/elsewhere/"));
    assert_eq!(state.image_list, vec![image("first")]);
}

#[test]
fn close_lock_blocks_closing() {
    let mut state = AppState::new(everything_loaded());
    assert!(state.may_close());
    state.add_close_lock();
    assert!(state.close_lock);
    assert!(!state.may_close());
    state.remove_close_lock();
    assert!(state.may_close());
}

#[test]
fn clones_are_equal() {
    let state = AppState::new(everything_loaded());
    assert_eq!(state.clone(), state);
    assert_eq!(clone_all(&state.image_list), state.image_list);
    assert_eq!(state.preferences.clone(), state.preferences);
    assert_eq!(state.equipment_list.clone(), state.equipment_list);
    assert_eq!(state.imaging_frame_list.clone(), state.imaging_frame_list);
}

#[test]
fn whole_save_writes_four_documents_in_order() {
    let targets = save_app_state("C:/astrolog/cache/");
    assert_eq!(
        targets,
        vec![
            SaveTarget {
                collection: CollectionId::Equipment,
                path: String::from("C:/astrolog/cache/equipment.json"),
            },
            SaveTarget {
                collection: CollectionId::ImagingSessions,
                path: String::from("C:/astrolog/cache/imagingSessions.json"),
            },
            SaveTarget {
                collection: CollectionId::ImagingFrames,
                path: String::from("C:/astrolog/cache/imagingFrames.json"),
            },
            SaveTarget {
                collection: CollectionId::Preferences,
                path: String::from("C:/astrolog/cache/preferences.json"),
            },
        ]
    );
}

#[test]
fn document_paths_append_the_name() {
    assert_eq!(CollectionId::Images.document_name(), "imageList.json");
    assert_eq!(CollectionId::Images.document_path("/root/"), "/root/imageList.json");
    assert_eq!(CollectionId::Preferences.document_path(""), "preferences.json");
    assert_eq!(CollectionId::Equipment.document_path("dir"), "direquipment.json");
}

#[test]
fn save_report_collects_every_failure() {
    let outcomes = vec![
        SaveOutcome { collection: CollectionId::Equipment, result: Err(SaveError::Io) },
        SaveOutcome { collection: CollectionId::ImagingSessions, result: Ok(()) },
        SaveOutcome { collection: CollectionId::ImagingFrames, result: Err(SaveError::Serialize) },
        SaveOutcome { collection: CollectionId::Preferences, result: Ok(()) },
    ];
    assert_eq!(
        report_save(&outcomes),
        Err(vec![
            SaveFailure { collection: CollectionId::Equipment, error: SaveError::Io },
            SaveFailure { collection: CollectionId::ImagingFrames, error: SaveError::Serialize },
        ])
    );
}

#[test]
fn save_report_of_a_clean_save_is_ok() {
    let outcomes = vec![
        SaveOutcome { collection: CollectionId::Equipment, result: Ok(()) },
        SaveOutcome { collection: CollectionId::Preferences, result: Ok(()) },
    ];
    assert_eq!(report_save(&outcomes), Ok(()));
    assert_eq!(report_save(&vec![]), Ok(()));
}

#[test]
fn load_tells_unreadable_from_unparsable() {
    let number = |text: String| text.trim().parse::<i32>().ok();
    assert_eq!(load(None, number), Err(LoadError::Io));
    assert_eq!(load(Some(String::from("not a number")), number), Err(LoadError::Parse));
    assert_eq!(load(Some(String::from(" 42 ")), number), Ok(42));
}

#[test]
fn save_tells_unencodable_from_unwritable() {
    let mut written: Vec<String> = Vec::new();
    assert_eq!(
        save(None, |text: String| {
            written.push(text);
            true
        }),
        Err(SaveError::Serialize)
    );
    assert!(written.is_empty());
    assert_eq!(save(Some(String::from("[]")), |_text: String| false), Err(SaveError::Io));
    assert_eq!(
        save(Some(String::from("[]")), |text: String| {
            written.push(text);
            true
        }),
        Ok(())
    );
    assert_eq!(written, vec![String::from("[]")]);
}

#[test]
fn saved_document_loads_back() {
    let collection: Vec<(String, i32)> =
        vec![(String::from("M31"), 300), (String::from("M42"), 120)];
    let mut document: Option<String> = None;
    let saved = save(serde_json::to_string(&collection).ok(), |text: String| {
        document = Some(text);
        true
    });
    assert_eq!(saved, Ok(()));
    let loaded =
        load(document, |text: String| serde_json::from_str::<Vec<(String, i32)>>(&text).ok());
    assert_eq!(loaded, Ok(collection));
}

#[test]
fn frontend_save_goes_to_the_cache_first() {
    let targets = save_frontend_app_state("cache/", "data/");
    let paths: Vec<&str> = targets.iter().map(|target| target.path.as_str()).collect();
    assert_eq!(
        paths,
        vec![
            "cache/equipment.json",
            "cache/imagingSessions.json",
            "cache/imagingFrames.json",
            "cache/preferences.json",
            "data/equipment.json",
            "data/imagingSessions.json",
            "data/imagingFrames.json",
            "data/preferences.json",
        ]
    );
    assert_eq!(targets[4].collection, CollectionId::Equipment);
    assert_eq!(targets[7].collection, CollectionId::Preferences);
}
