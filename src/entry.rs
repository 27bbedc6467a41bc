use vstd::prelude::*;

use crate::error::DockError;
use crate::text::{
    chars_of, component_start, find_component_start, last_component,
    lemma_component_start_bounds, string_of_range,
};

verus! {

/// The tile kind of an entry that points at a file.
pub const FILE_TILE_TYPE: u32 = 32;

/// The path encoding kind of a file URL string.
pub const FILE_URL_STRING_TYPE: u32 = 15;

/// How many characters of the last path component are the bundle suffix
/// that the label leaves out (".app").
pub const LABEL_SUFFIX_LEN: usize = 4;

/// A path together with the tag that says how the path string is encoded.
#[derive(Debug, Clone, PartialEq, Eq)]
pub struct FileData {
    pub cf_url_string_type: u32,
    pub cf_url_string: String,
}

/// How one entry renders and behaves. The three optional fields are absent
/// or present; absence is not the same as a zero or `false`.
#[derive(Debug, Clone, PartialEq, Eq)]
pub struct TileData {
    pub file_type: u32,
    pub file_data: FileData,
    pub file_label: String,
    pub directory: Option<bool>,
    pub display_as: Option<u32>,
    pub arrangement: Option<u32>,
}

/// One entry of a section.
#[derive(Debug, Clone, PartialEq, Eq)]
pub struct StaticItem {
    pub guid: u32,
    pub tile_type: String,
    pub tile_data: TileData,
}

impl FileData {
    /// A file reference to `path`, encoded as `url_type` says.
    pub fn new(path: &str, url_type: u32) -> (r: FileData)
        ensures
            r.cf_url_string_type == url_type,
            r.cf_url_string@ == path@,
    {
        FileData { cf_url_string_type: url_type, cf_url_string: path.to_owned() }
    }
}

impl TileData {
    /// The placeholder tile: kind 0, an empty path of kind 0, an empty
    /// label, and every optional field absent.
    pub fn new() -> (r: TileData)
        ensures
            r.file_type == 0,
            r.file_data.cf_url_string_type == 0,
            r.file_data.cf_url_string@ == Seq::<char>::empty(),
            r.file_label@ == Seq::<char>::empty(),
            r.directory is None,
            r.display_as is None,
            r.arrangement is None,
    {
        proof {
            reveal_strlit("");
        }
        TileData {
            arrangement: None,
            display_as: None,
            directory: None,
            file_type: 0,
            file_data: FileData::new("", 0),
            file_label: String::new(),
        }
    }
}

/// A label can be derived from `path` when its last component is longer
/// than the suffix that the label leaves out.
pub open spec fn has_label(path: Seq<char>) -> bool {
    last_component(path).len() > LABEL_SUFFIX_LEN
}

/// The label of `path`: its last component without the suffix.
pub open spec fn label_of(path: Seq<char>) -> Seq<char> {
    let c = last_component(path);
    c.subrange(0, c.len() - LABEL_SUFFIX_LEN)
}

/// What `new_file_tile(path)` builds, but for the identifier.
pub open spec fn is_file_tile_for(item: StaticItem, path: Seq<char>) -> bool {
    &&& item.tile_type@ == "file-tile"@
    &&& item.tile_data.file_type == FILE_TILE_TYPE
    &&& item.tile_data.file_data.cf_url_string_type == FILE_URL_STRING_TYPE
    &&& item.tile_data.file_data.cf_url_string@ == path
    &&& item.tile_data.file_label@ == label_of(path)
    &&& item.tile_data.directory is None
    &&& item.tile_data.display_as is None
    &&& item.tile_data.arrangement is None
}

/// Relies on `rand::random`: a `u32` drawn from the thread-local generator.
/// Nothing is promised of its value.
pub assume_specification<T>[ rand::random::<T> ]() -> (r: T)
    where
        rand::distributions::Standard: rand::distributions::Distribution<T>,
;

impl StaticItem {
    /// An entry of kind `file_type` around `tile_data`, with a fresh random
    /// identifier.
    pub fn new(tile_data: TileData, file_type: &str) -> (r: StaticItem)
        ensures
            r.tile_data == tile_data,
            r.tile_type@ == file_type@,
    {
        StaticItem {
            guid: rand::random::<u32>(),
            tile_type: file_type.to_owned(),
            tile_data: tile_data,
        }
    }

    /// A file tile for `path`, labelled with the last path component
    /// without its suffix. Fails when that component is no longer than the
    /// suffix.
    pub fn new_file_tile(path: &str) -> (r: Result<StaticItem, DockError>)
        ensures
            r is Ok <==> has_label(path@),
            r matches Ok(item) ==> is_file_tile_for(item, path@),
            r matches Err(e) ==> e == DockError::PreconditionViolation,
    {
        let cs = chars_of(path);
        let start = find_component_start(&cs);
        proof {
            lemma_component_start_bounds(cs@);
        }
        if cs.len() - start <= LABEL_SUFFIX_LEN {
            return Err(DockError::PreconditionViolation);
        }
        let label = string_of_range(&cs, start, cs.len() - LABEL_SUFFIX_LEN);
        let tile_data = TileData {
            file_type: FILE_TILE_TYPE,
            file_data: FileData::new(path, FILE_URL_STRING_TYPE),
            file_label: label,
            arrangement: None,
            directory: None,
            display_as: None,
        };
        assert(label@ == label_of(path@));
        Ok(StaticItem::new(tile_data, "file-tile"))
    }
}

} // verus!
