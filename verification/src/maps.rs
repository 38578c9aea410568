//! The map files of the server: which files are maps, and which files
//! belong to a map that is deleted.

use vstd::prelude::*;
use vstd::string::*;
use crate::event::{EventView, WebhookEvent};
use crate::text::{chars_of, ends_with, ends_with_spec, starts_with, starts_with_spec, text_of};

verus! {

/// The ending of the name of a map file.
pub open spec fn map_suffix() -> Seq<char> {
    ".bsp"@
}

/// The map that a file of this name holds: the name without its ending,
/// for a name that has the ending `bsp` after its last dot and something
/// before that dot.
pub open spec fn map_name_spec(file_name: Seq<char>) -> Option<Seq<char>> {
    if ends_with_spec(file_name, map_suffix()) && file_name.len() > map_suffix().len() {
        Some(file_name.take(file_name.len() - map_suffix().len()))
    } else {
        None
    }
}

/// The map that a file of this name holds, if it holds one.
pub fn map_name(file_name: &str) -> (r: Option<String>)
    ensures
        r.deep_view() == map_name_spec(file_name@),
{
    let name = chars_of(file_name);
    let suffix = chars_of(".bsp");
    if ends_with(&name, &suffix) && name.len() > suffix.len() {
        let stem = text_of(&name, 0, name.len() - suffix.len());
        Some(stem)
    } else {
        None
    }
}

/// The maps among the files of the map directory, in the order of the
/// files.
pub fn list_maps(file_names: &Vec<String>) -> (maps: Vec<String>)
    ensures
        maps.deep_view() == file_names.deep_view().filter_map(
            |name: Seq<char>| map_name_spec(name),
        ),
{
    let ghost all = file_names.deep_view();
    let ghost pick = |name: Seq<char>| map_name_spec(name);
    let mut maps: Vec<String> = Vec::new();
    let mut i: usize = 0;
    while i < file_names.len()
        invariant
            i <= file_names.len(),
            all == file_names.deep_view(),
            pick == |name: Seq<char>| map_name_spec(name),
            maps.deep_view() == all.take(i as int).filter_map(pick),
        decreases file_names.len() - i,
    {
        proof {
            all.lemma_filter_map_take_succ(pick, i as int);
        }
        match map_name(file_names[i].as_str()) {
            Some(name) => {
                maps.push(name);
            },
            None => {},
        }
        i += 1;
    }
    assert(all.take(file_names.len() as int) =~= all);
    maps
}

/// What deleting a map comes to.
#[derive(Clone, Debug, PartialEq, Eq)]
pub struct MapDeletion {
    /// The files to remove, in the order of the directory.
    pub files: Vec<String>,
    /// The event that announces the deletion once the files are removed:
    /// none where the map has no file.
    pub event: Option<WebhookEvent>,
}

/// The files among `file_names` that belong to the map `map_name`: those
/// whose name begins with it.
pub open spec fn files_of_map(file_names: Seq<Seq<char>>, map_name: Seq<char>) -> Seq<Seq<char>> {
    file_names.filter(|name: Seq<char>| starts_with_spec(name, map_name))
}

/// Decides which files of the map directory are removed with the map
/// `map_name`, and how the deletion is announced.
pub fn delete_map_files(file_names: &Vec<String>, map_name: String) -> (r: MapDeletion)
    ensures
        r.files.deep_view() == files_of_map(file_names.deep_view(), map_name@),
        r.event.deep_view() == if r.files.len() > 0 {
            Some(EventView::MapDeleted(map_name@))
        } else {
            None
        },
{
    let ghost all = file_names.deep_view();
    let ghost belongs = |name: Seq<char>| starts_with_spec(name, map_name@);
    let prefix = chars_of(map_name.as_str());
    let mut files: Vec<String> = Vec::new();
    let mut i: usize = 0;
    while i < file_names.len()
        invariant
            i <= file_names.len(),
            all == file_names.deep_view(),
            prefix@ == map_name@,
            belongs == |name: Seq<char>| starts_with_spec(name, map_name@),
            files.deep_view() == all.take(i as int).filter(belongs),
        decreases file_names.len() - i,
    {
        proof {
            assert(all.take(i + 1) =~= all.take(i as int).push(all[i as int]));
            all.take(i as int).lemma_filter_push(all[i as int], belongs);
        }
        let name = chars_of(file_names[i].as_str());
        if starts_with(&name, &prefix) {
            files.push(file_names[i].clone());
        }
        i += 1;
    }
    assert(all.take(file_names.len() as int) =~= all);
    let event = if files.len() > 0 {
        Some(WebhookEvent::MapDeleted(map_name))
    } else {
        None
    };
    MapDeletion { files, event }
}

} // verus!
