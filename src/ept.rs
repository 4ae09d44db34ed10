use vstd::prelude::*;
use vstd::string::StringExecFns;
use crate::error::ModelParserError;
use crate::octree::{OctreeKey, key_text};
use crate::tile::record_len;

verus! {

broadcast use vstd::string::to_string_from_display_ensures_for_str;

/// One column of the tile schema.
#[derive(Debug, Clone)]
pub struct EptDimension {
    pub name: String,
    pub data_type: String,
    pub size: u32,
}

/// The spatial reference written into the metadata.
#[derive(Debug, Clone)]
pub struct EptSrs {
    pub authority: String,
    pub horizontal: String,
    pub vertical: String,
    pub wkt: String,
}

/// The columns of a tile as (name, type, size in bytes): X, Y, Z, then Red,
/// Green, Blue when colors are present, then NormalX, NormalY, NormalZ when
/// normals are present.
pub open spec fn schema_spec(has_colors: bool, has_normals: bool) -> Seq<(Seq<char>, Seq<char>, u32)> {
    seq![("X"@, "floating"@, 4u32), ("Y"@, "floating"@, 4u32), ("Z"@, "floating"@, 4u32)]
        + (if has_colors {
        seq![("Red"@, "unsigned"@, 1u32), ("Green"@, "unsigned"@, 1u32), ("Blue"@, "unsigned"@, 1u32)]
    } else {
        Seq::empty()
    }) + (if has_normals {
        seq![("NormalX"@, "floating"@, 4u32), ("NormalY"@, "floating"@, 4u32), ("NormalZ"@, "floating"@, 4u32)]
    } else {
        Seq::empty()
    })
}

/// The sum of the sizes of some columns.
pub open spec fn size_sum(s: Seq<(Seq<char>, Seq<char>, u32)>) -> nat
    decreases s.len(),
{
    if s.len() == 0 {
        0
    } else {
        size_sum(s.drop_last()) + s.last().2 as nat
    }
}

/// The columns of the schema take exactly the bytes of one tile record.
pub proof fn lemma_schema_matches_record(has_colors: bool, has_normals: bool)
    ensures
        size_sum(schema_spec(has_colors, has_normals)) == record_len(has_colors, has_normals),
{
    reveal_with_fuel(size_sum, 10);
}

fn dimension(name: &str, data_type: &str, size: u32) -> (r: EptDimension)
    ensures
        r.name@ == name@,
        r.data_type@ == data_type@,
        r.size == size,
{
    EptDimension { name: name.to_string(), data_type: data_type.to_string(), size }
}

/// The columns of a tile, in the fixed order of `schema_spec`.
pub fn build_schema(has_colors: bool, has_normals: bool) -> (r: Vec<EptDimension>)
    ensures
        r@.len() == schema_spec(has_colors, has_normals).len(),
        forall|i: int|
            0 <= i < r@.len() ==> (#[trigger] r@[i].name@, r@[i].data_type@, r@[i].size)
                == schema_spec(has_colors, has_normals)[i],
{
    let mut r: Vec<EptDimension> = Vec::new();
    r.push(dimension("X", "floating", 4));
    r.push(dimension("Y", "floating", 4));
    r.push(dimension("Z", "floating", 4));
    if has_colors {
        r.push(dimension("Red", "unsigned", 1));
        r.push(dimension("Green", "unsigned", 1));
        r.push(dimension("Blue", "unsigned", 1));
    }
    if has_normals {
        r.push(dimension("NormalX", "floating", 4));
        r.push(dimension("NormalY", "floating", 4));
        r.push(dimension("NormalZ", "floating", 4));
    }
    let ghost s = schema_spec(has_colors, has_normals);
    assert(r@.len() == s.len());
    assert forall|i: int| 0 <= i < r@.len() implies (#[trigger] r@[i].name@, r@[i].data_type@, r@[i].size)
        == s[i] by {
        if has_colors && has_normals {
            assert(s.len() == 9);
        }
    }
    r
}

impl EptSrs {
    /// The earth-centred reference: authority EPSG, horizontal code 4978,
    /// no vertical code and no WKT.
    pub fn earth_centered() -> (r: EptSrs)
        ensures
            r.authority@ == "EPSG"@,
            r.horizontal@ == "4978"@,
            r.vertical@ == ""@,
            r.wkt@ == ""@,
    {
        EptSrs {
            authority: "EPSG".to_string(),
            horizontal: "4978".to_string(),
            vertical: "".to_string(),
            wkt: "".to_string(),
        }
    }
}

/// The pretty-printed JSON object that maps the single key `key` to `count`.
pub uninterp spec fn pretty_count_map(key: Seq<char>, count: i64) -> Seq<char>;

/// Relies on serde_json::to_string_pretty, applied to a one-entry map from a
/// string to an integer; the text depends on the key and count alone.
#[verifier::external_body]
fn count_map_json(key: &String, count: i64) -> (r: Result<String, serde_json::Error>)
    ensures
        r matches Ok(s) ==> s@ == pretty_count_map(key@, count),
{
    let mut m = std::collections::HashMap::new();
    m.insert(key.clone(), count);
    serde_json::to_string_pretty(&m)
}

/// The hierarchy index of a tree that holds all `point_count` points in its
/// root tile: a JSON object mapping the root key's text to the count.
pub fn hierarchy_document(point_count: usize) -> (r: Result<String, ModelParserError>)
    requires
        point_count <= i64::MAX,
    ensures
        match r {
            Ok(s) => s@ == pretty_count_map(key_text(OctreeKey { depth: 0, x: 0, y: 0, z: 0 }), point_count as i64),
            Err(e) => e is SerializationError,
        },
{
    let key = OctreeKey::root().to_path_string();
    match count_map_json(&key, point_count as i64) {
        Ok(s) => Ok(s),
        Err(e) => Err(ModelParserError::SerializationError(e)),
    }
}

/// The file name of the tile of `key`: its text form followed by `.bin`.
pub fn tile_file_name(key: &OctreeKey) -> (r: String)
    ensures
        r@ == key_text(*key) + ".bin"@,
{
    let s = key.to_path_string();
    s.concat(".bin")
}

/// The file name of the hierarchy index rooted at `key`: its text form
/// followed by `.json`.
pub fn hierarchy_file_name(key: &OctreeKey) -> (r: String)
    ensures
        r@ == key_text(*key) + ".json"@,
{
    let s = key.to_path_string();
    s.concat(".json")
}

/// Settings of the tile writer.
#[derive(Debug, Clone, Copy)]
pub struct EptBuilder {
    max_points_per_tile: usize,
    max_depth: u32,
}

impl Default for EptBuilder {
    fn default() -> (r: EptBuilder)
        ensures
            r.spec_max_points_per_tile() == 100_000,
            r.spec_max_depth() == 10,
    {
        EptBuilder::new()
    }
}

impl EptBuilder {
    pub closed spec fn spec_max_points_per_tile(&self) -> usize {
        self.max_points_per_tile
    }

    pub closed spec fn spec_max_depth(&self) -> u32 {
        self.max_depth
    }

    /// A writer with at most 100000 points per tile and depth at most 10.
    pub fn new() -> (r: EptBuilder)
        ensures
            r.spec_max_points_per_tile() == 100_000,
            r.spec_max_depth() == 10,
    {
        EptBuilder { max_points_per_tile: 100_000, max_depth: 10 }
    }

    pub fn with_max_points_per_tile(self, max_points: usize) -> (r: EptBuilder)
        ensures
            r.spec_max_points_per_tile() == max_points,
            r.spec_max_depth() == self.spec_max_depth(),
    {
        EptBuilder { max_points_per_tile: max_points, ..self }
    }

    pub fn with_max_depth(self, depth: u32) -> (r: EptBuilder)
        ensures
            r.spec_max_points_per_tile() == self.spec_max_points_per_tile(),
            r.spec_max_depth() == depth,
    {
        EptBuilder { max_depth: depth, ..self }
    }

    pub fn max_points_per_tile(&self) -> (r: usize)
        ensures
            r == self.spec_max_points_per_tile(),
    {
        self.max_points_per_tile
    }

    pub fn max_depth(&self) -> (r: u32)
        ensures
            r == self.spec_max_depth(),
    {
        self.max_depth
    }
}

} // verus!
