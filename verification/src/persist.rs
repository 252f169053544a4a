//! Loading and saving: what becomes of reading and of writing a document,
//! which document each collection goes to, and what is reported of a save.
//! Each document is handled on its own; a failure is collected and reported,
//! and stops no other load or save.
//!
//! Reading, writing and the encoding itself are the caller's: they come in
//! as values and as functions.

use vstd::prelude::*;
use crate::model::views;
use crate::state::{CollectionId, LoadError};

verus! {

/// Why a document could not be saved.
#[derive(Clone, Copy, Debug, PartialEq, Eq, Hash, Structural)]
pub enum SaveError {
    /// The file could not be written.
    Io,
    /// The collection could not be encoded.
    Serialize,
}

/// What a load comes to: a failure to read before anything else, then a
/// failure to parse, then the value.
pub open spec fn load_result<T>(readable: bool, parsed: Option<T>) -> Result<T, LoadError> {
    if !readable {
        Err(LoadError::Io)
    } else {
        match parsed {
            Some(value) => Ok(value),
            None => Err(LoadError::Parse),
        }
    }
}

/// What a save comes to: a failure to encode before anything else, then a
/// failure to write, then success.
pub open spec fn save_result(encodable: bool, written: bool) -> Result<(), SaveError> {
    if !encodable {
        Err(SaveError::Serialize)
    } else if !written {
        Err(SaveError::Io)
    } else {
        Ok(())
    }
}

/// Loads a collection from the contents of its document. `contents` is what
/// was read, `None` where the file could not be opened or read; `parse`
/// decodes the collection, and gives `None` where the text does not fit its
/// schema.
pub fn load<T, F: FnOnce(String) -> Option<T>>(contents: Option<String>, parse: F) -> (loaded:
    Result<T, LoadError>)
    requires
        forall|text: String| parse.requires((text,)),
    ensures
        contents is None ==> loaded == load_result(false, None::<T>),
        contents matches Some(text) ==> exists|parsed: Option<T>|
            parse.ensures((text,), parsed) && loaded == load_result(true, parsed),
{
    match contents {
        None => Err(LoadError::Io),
        Some(text) => {
            let parsed = parse(text);
            let ghost seen = parsed;
            let loaded = match parsed {
                Some(value) => Ok(value),
                None => Err(LoadError::Parse),
            };
            assert(parse.ensures((text,), seen) && loaded == load_result(true, seen));
            loaded
        },
    }
}

/// Saves a collection to its document. `encoded` is the collection as text,
/// `None` where it could not be encoded; `write` replaces the document's
/// contents and says whether that succeeded. Nothing is written of a
/// collection that could not be encoded.
pub fn save<F: FnOnce(String) -> bool>(encoded: Option<String>, write: F) -> (saved: Result<
    (),
    SaveError,
>)
    requires
        forall|text: String| write.requires((text,)),
    ensures
        encoded is None ==> saved == save_result(false, false),
        encoded matches Some(text) ==> exists|written: bool|
            write.ensures((text,), written) && saved == save_result(true, written),
{
    match encoded {
        None => Err(SaveError::Serialize),
        Some(text) => {
            let written = write(text);
            let saved = if written {
                Ok(())
            } else {
                Err(SaveError::Io)
            };
            assert(write.ensures((text,), written) && saved == save_result(true, written));
            saved
        },
    }
}

/// A collection that was saved loads back as it was: where the encoding can
/// be decoded again, the document was written, and it is read back as
/// written, the save succeeds and the load gives the collection that was
/// saved. Loading and saving themselves change nothing.
pub proof fn lemma_saved_collection_loads_back<T>(
    collection: T,
    encode: spec_fn(T) -> Option<Seq<char>>,
    decode: spec_fn(Seq<char>) -> Option<T>,
)
    requires
        encode(collection) matches Some(text) && decode(text) == Some(collection),
    ensures
        save_result(encode(collection) is Some, true) == Ok::<(), SaveError>(()),
        load_result(true, decode(encode(collection)->0)) == Ok::<T, LoadError>(collection),
{
}

/// The file name of the document that holds a collection.
pub open spec fn document_name(collection: CollectionId) -> Seq<char> {
    match collection {
        CollectionId::Preferences => "preferences.json"@,
        CollectionId::Equipment => "equipment.json"@,
        CollectionId::ImagingFrames => "imagingFrames.json"@,
        CollectionId::ImagingSessions => "imagingSessions.json"@,
        CollectionId::Images => "imageList.json"@,
    }
}

/// The path of a collection's document under a folder. The folder's path is
/// taken as it is, its trailing separator included: the name is appended to it.
pub open spec fn document_path(folder_dir: Seq<char>, collection: CollectionId) -> Seq<char> {
    folder_dir + document_name(collection)
}

impl CollectionId {
    pub fn document_name(&self) -> (name: &'static str)
        ensures
            name@ == document_name(*self),
    {
        match self {
            CollectionId::Preferences => "preferences.json",
            CollectionId::Equipment => "equipment.json",
            CollectionId::ImagingFrames => "imagingFrames.json",
            CollectionId::ImagingSessions => "imagingSessions.json",
            CollectionId::Images => "imageList.json",
        }
    }

    pub fn document_path(&self, folder_dir: &str) -> (path: String)
        ensures
            path@ == document_path(folder_dir@, *self),
    {
        let mut path = folder_dir.to_owned();
        path.append(self.document_name());
        path
    }
}

/// One document to write: the collection and the path of its file.
#[derive(Debug, PartialEq, Eq)]
pub struct SaveTarget {
    pub collection: CollectionId,
    pub path: String,
}

pub struct SaveTargetView {
    pub collection: CollectionId,
    pub path: Seq<char>,
}

impl View for SaveTarget {
    type V = SaveTargetView;

    open spec fn view(&self) -> SaveTargetView {
        SaveTargetView { collection: self.collection, path: self.path@ }
    }
}

/// The target of one collection under a folder.
pub open spec fn target_of(folder_dir: Seq<char>, collection: CollectionId) -> SaveTargetView {
    SaveTargetView { collection, path: document_path(folder_dir, collection) }
}

/// The documents of a whole save, in the order in which they are written:
/// equipment, sessions, frames, preferences.
pub open spec fn save_targets(folder_dir: Seq<char>) -> Seq<SaveTargetView> {
    seq![
        target_of(folder_dir, CollectionId::Equipment),
        target_of(folder_dir, CollectionId::ImagingSessions),
        target_of(folder_dir, CollectionId::ImagingFrames),
        target_of(folder_dir, CollectionId::Preferences),
    ]
}

/// Plans the save of the whole state under a folder: the four documents to
/// write. The caller writes each of them, whatever became of the one before.
pub fn save_app_state(folder_dir: &str) -> (targets: Vec<SaveTarget>)
    ensures
        views(targets@) == save_targets(folder_dir@),
{
    let mut targets: Vec<SaveTarget> = Vec::new();
    targets.push(
        SaveTarget {
            collection: CollectionId::Equipment,
            path: CollectionId::Equipment.document_path(folder_dir),
        },
    );
    targets.push(
        SaveTarget {
            collection: CollectionId::ImagingSessions,
            path: CollectionId::ImagingSessions.document_path(folder_dir),
        },
    );
    targets.push(
        SaveTarget {
            collection: CollectionId::ImagingFrames,
            path: CollectionId::ImagingFrames.document_path(folder_dir),
        },
    );
    targets.push(
        SaveTarget {
            collection: CollectionId::Preferences,
            path: CollectionId::Preferences.document_path(folder_dir),
        },
    );
    assert(views(targets@) =~= save_targets(folder_dir@));
    targets
}

/// Plans the save that a change from the front end asks for: the state as
/// it was goes to the cache folder first, then the state goes to the data
/// folder, four documents each.
pub fn save_frontend_app_state(cache_dir: &str, data_dir: &str) -> (targets: Vec<SaveTarget>)
    ensures
        views(targets@) == save_targets(cache_dir@) + save_targets(data_dir@),
{
    let mut targets = save_app_state(cache_dir);
    let ghost cached = views(targets@);
    let mut rest = save_app_state(data_dir);
    let ghost stored = views(rest@);
    targets.append(&mut rest);
    assert(views(targets@) =~= cached + stored);
    targets
}

/// What came of writing one document.
#[derive(Clone, Copy, Debug, PartialEq, Eq)]
pub struct SaveOutcome {
    pub collection: CollectionId,
    pub result: Result<(), SaveError>,
}

/// A document that was not saved, and why.
#[derive(Clone, Copy, Debug, PartialEq, Eq, Hash, Structural)]
pub struct SaveFailure {
    pub collection: CollectionId,
    pub error: SaveError,
}

/// The failure in an outcome, if it is one.
pub open spec fn failure_in(outcome: SaveOutcome) -> Option<SaveFailure> {
    match outcome.result {
        Ok(_) => None,
        Err(error) => Some(SaveFailure { collection: outcome.collection, error }),
    }
}

/// The failures among the outcomes, in their order.
pub open spec fn save_failures(outcomes: Seq<SaveOutcome>) -> Seq<SaveFailure> {
    outcomes.filter_map(|outcome: SaveOutcome| failure_in(outcome))
}

/// Sums a save up for the caller: done, or the documents that were not
/// saved with the error of each. No failure is dropped.
pub fn report_save(outcomes: &Vec<SaveOutcome>) -> (report: Result<(), Vec<SaveFailure>>)
    ensures
        match report {
            Ok(_) => save_failures(outcomes@).len() == 0,
            Err(failures) => failures@.len() > 0 && failures@ == save_failures(outcomes@),
        },
{
    let ghost pick = |outcome: SaveOutcome| failure_in(outcome);
    let mut failures: Vec<SaveFailure> = Vec::new();
    let mut i: usize = 0;
    assert(outcomes@.take(0) =~= Seq::<SaveOutcome>::empty());
    while i < outcomes.len()
        invariant
            i <= outcomes.len(),
            pick == (|outcome: SaveOutcome| failure_in(outcome)),
            failures@ == outcomes@.take(i as int).filter_map(pick),
        decreases outcomes.len() - i,
    {
        proof {
            outcomes@.lemma_filter_map_take_succ(pick, i as int);
        }
        match outcomes[i].result {
            Ok(_) => {},
            Err(error) => {
                failures.push(SaveFailure { collection: outcomes[i].collection, error });
            },
        }
        i += 1;
    }
    assert(outcomes@.take(outcomes.len() as int) =~= outcomes@);
    if failures.len() == 0 {
        Ok(())
    } else {
        Err(failures)
    }
}

/// A save is reported as done exactly when every document was saved.
pub proof fn lemma_no_failure_iff_all_saved(outcomes: Seq<SaveOutcome>)
    ensures
        save_failures(outcomes).len() == 0 <==> forall|i: int|
            0 <= i < outcomes.len() ==> (#[trigger] outcomes[i]).result is Ok,
    decreases outcomes.len(),
{
    if outcomes.len() > 0 {
        let rest = outcomes.drop_last();
        lemma_no_failure_iff_all_saved(rest);
        if forall|i: int| 0 <= i < outcomes.len() ==> (#[trigger] outcomes[i]).result is Ok {
            assert(forall|i: int| 0 <= i < rest.len() ==> (#[trigger] rest[i]) == outcomes[i]);
            assert(outcomes.last() == outcomes[outcomes.len() - 1]);
        }
        if save_failures(outcomes).len() == 0 {
            assert(outcomes.last().result is Ok);
            assert forall|i: int| 0 <= i < outcomes.len() implies (#[trigger] outcomes[i]).result is Ok by {
                if i < rest.len() {
                    assert(rest[i] == outcomes[i]);
                }
            }
        }
    }
}

} // verus!
