//! Which folders are to be hidden: those on the way to the metadata folder
//! whose name begins with a dot.

use vstd::prelude::*;

verus! {

/// The names of folders as ghost values: `None` where a folder has no name
/// of its own (a root, `..`) or one that is not text.
pub open spec fn names_of(names: Seq<Option<String>>) -> Seq<Option<Seq<char>>> {
    names.map_values(
        |name: Option<String>|
            match name {
                Some(text) => Some(text@),
                None => None,
            },
    )
}

/// A folder is hidden if it has a name and the name begins with a dot.
pub open spec fn is_hidden_name(name: Option<Seq<char>>) -> bool {
    match name {
        Some(text) => text.len() > 0 && text[0] == '.',
        None => false,
    }
}

/// `hidden` lists, in rising order, exactly the positions of the names that are hidden.
pub open spec fn selects_hidden(names: Seq<Option<Seq<char>>>, hidden: Seq<usize>) -> bool {
    &&& forall|k: int|
        0 <= k < hidden.len() ==> (#[trigger] hidden[k]) < names.len() && is_hidden_name(
            names[hidden[k] as int],
        )
    &&& forall|k: int, l: int| 0 <= k < l < hidden.len() ==> hidden[k] < hidden[l]
    &&& forall|i: int|
        0 <= i < names.len() && is_hidden_name(#[trigger] names[i]) ==> hidden.contains(
            i as usize,
        )
}

/// The name of the folder in which the application keeps its metadata.
pub fn metadata_directory() -> (name: &'static str)
    ensures
        name@ == ".astrolog"@,
        is_hidden_name(Some(name@)),
{
    proof {
        reveal_strlit(".astrolog");
    }
    ".astrolog"
}

/// Whether a folder of this name is to be hidden.
pub fn begins_with_dot(name: &str) -> (hidden: bool)
    ensures
        hidden == is_hidden_name(Some(name@)),
{
    name.unicode_len() > 0 && name.get_char(0) == '.'
}

/// Picks the folders to hide on the way down to a folder. `ancestor_names`
/// holds the name of the folder itself, then that of its parent, and so on
/// up to the root. The result holds the positions of those to hide.
pub fn set_folder_invisible(ancestor_names: &Vec<Option<String>>) -> (hidden: Vec<usize>)
    ensures
        selects_hidden(names_of(ancestor_names@), hidden@),
{
    let ghost names = names_of(ancestor_names@);
    let mut hidden: Vec<usize> = Vec::new();
    let mut i: usize = 0;
    while i < ancestor_names.len()
        invariant
            i <= ancestor_names.len(),
            names == names_of(ancestor_names@),
            selects_hidden(names.take(i as int), hidden@),
        decreases ancestor_names.len() - i,
    {
        let ghost before = hidden@;
        let found = match &ancestor_names[i] {
            Some(name) => begins_with_dot(name.as_str()),
            None => false,
        };
        assert(found == is_hidden_name(names[i as int]));
        if found {
            hidden.push(i);
        }
        proof {
            let upto = names.take(i as int + 1);
            assert forall|k: int| 0 <= k < hidden@.len() implies (#[trigger] hidden@[k])
                < upto.len() && is_hidden_name(upto[hidden@[k] as int]) by {
                if k < before.len() {
                    assert(before[k] == hidden@[k]);
                    assert(names.take(i as int)[before[k] as int] == upto[before[k] as int]);
                }
            }
            assert forall|k: int, l: int| 0 <= k < l < hidden@.len() implies hidden@[k]
                < hidden@[l] by {
                if l < before.len() {
                    assert(before[k] < before[l]);
                } else {
                    assert(before[k] < i);
                }
            }
            assert forall|j: int| 0 <= j < upto.len() && is_hidden_name(
                #[trigger] upto[j],
            ) implies hidden@.contains(j as usize) by {
                if j < i {
                    assert(is_hidden_name(names.take(i as int)[j]));
                    let k = choose|k: int| 0 <= k < before.len() && before[k] == j as usize;
                    assert(hidden@[k] == j as usize);
                } else {
                    assert(hidden@[hidden@.len() - 1] == i);
                }
            }
        }
        i += 1;
    }
    assert(names.take(ancestor_names.len() as int) =~= names);
    hidden
}

/// The names on the way down to the metadata folder under a root: the
/// metadata folder's own name, then the names on the way down to the root.
pub open spec fn metadata_ancestors(root_ancestors: Seq<Option<Seq<char>>>) -> Seq<
    Option<Seq<char>>,
> {
    seq![Some(".astrolog"@)] + root_ancestors
}

/// Picks the folders to hide at start: the metadata folder under the storage
/// root, always, and every folder above it whose name begins with a dot.
/// `root_ancestor_names` holds the names on the way down to the root, the
/// root's own first; position 0 of the result stands for the metadata folder.
pub fn setup(root_ancestor_names: &Vec<Option<String>>) -> (hidden: Vec<usize>)
    ensures
        selects_hidden(metadata_ancestors(names_of(root_ancestor_names@)), hidden@),
        hidden@.len() > 0,
        hidden@[0] == 0,
{
    let mut names: Vec<Option<String>> = Vec::new();
    names.push(Some(metadata_directory().to_owned()));
    let mut i: usize = 0;
    while i < root_ancestor_names.len()
        invariant
            i <= root_ancestor_names.len(),
            names_of(names@) == metadata_ancestors(names_of(root_ancestor_names@).take(i as int)),
        decreases root_ancestor_names.len() - i,
    {
        let ghost before = names_of(names@);
        let name = match &root_ancestor_names[i] {
            Some(text) => Some(text.clone()),
            None => None,
        };
        names.push(name);
        assert(names_of(names@) =~= before.push(names_of(root_ancestor_names@)[i as int]));
        assert(names_of(names@) =~= metadata_ancestors(
            names_of(root_ancestor_names@).take(i as int + 1),
        ));
        i += 1;
    }
    assert(names_of(root_ancestor_names@).take(root_ancestor_names.len() as int) =~= names_of(
        root_ancestor_names@,
    ));
    let hidden = set_folder_invisible(&names);
    proof {
        let all = metadata_ancestors(names_of(root_ancestor_names@));
        assert(is_hidden_name(all[0]));
        let k = choose|k: int| 0 <= k < hidden@.len() && hidden@[k] == 0usize;
        if k > 0 {
            assert(hidden@[0] < hidden@[k]);
        }
    }
    hidden
}

/// What a look into the destination of a rename found.
#[derive(Clone, Copy, Debug, PartialEq, Eq, Hash, Structural)]
pub enum DirectoryProbe {
    /// The folder is there and holds nothing.
    Empty,
    /// The folder holds at least one entry.
    Occupied,
    /// The folder could not be read.
    Unreadable,
}

/// Decides whether a folder may be moved onto `destination`: only onto a
/// folder that is there and empty. The move itself, if it is made, says
/// whether the command succeeded.
pub fn rename_directory(destination: DirectoryProbe) -> (attempt: bool)
    ensures
        attempt == (destination is Empty),
{
    match destination {
        DirectoryProbe::Empty => true,
        DirectoryProbe::Occupied => false,
        DirectoryProbe::Unreadable => false,
    }
}

/// One step of moving a folder onto another.
#[derive(Clone, Copy, Debug, PartialEq, Eq, Hash, Structural)]
pub enum FolderAction {
    /// Remove what stands at the destination, with all it holds.
    RemoveDestination,
    /// Move the folder to the destination.
    Rename,
}

/// The steps of moving a folder onto a destination: what stands there is
/// removed first; the steps stop at the first one that fails.
pub fn rename_folder_with_overwrite(destination_exists: bool) -> (steps: Vec<FolderAction>)
    ensures
        steps@ == if destination_exists {
            seq![FolderAction::RemoveDestination, FolderAction::Rename]
        } else {
            seq![FolderAction::Rename]
        },
{
    let mut steps: Vec<FolderAction> = Vec::new();
    if destination_exists {
        steps.push(FolderAction::RemoveDestination);
    }
    steps.push(FolderAction::Rename);
    assert(steps@ =~= if destination_exists {
        seq![FolderAction::RemoveDestination, FolderAction::Rename]
    } else {
        seq![FolderAction::Rename]
    });
    steps
}

} // verus!
