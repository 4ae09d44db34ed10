use vstd::prelude::*;
use vstd::string::StringExecFns;
use crate::error::ModelParserError;
use crate::sampling::{
    SamplingMode, SamplingStrategy, full_triangles, mode_spec, random_vertex_indices, sampling_mode,
    vertex_walk_indices,
};

verus! {

broadcast use vstd::string::to_string_from_display_ensures_for_str;

/// The lower-case form of a text, as Unicode defines it.
pub uninterp spec fn lower_of(s: Seq<char>) -> Seq<char>;

/// Relies on str::to_lowercase: the result depends on the characters alone.
#[verifier::external_body]
fn lowercase(s: &str) -> (r: String)
    ensures
        r@ == lower_of(s@),
{
    s.to_lowercase()
}

fn same_text(s: &String, w: &str) -> (r: bool)
    ensures
        r == (s@ == w@),
{
    let t = w.to_string();
    *s == t
}

/// The strategy that a lower-case name selects.
pub open spec fn strategy_named(name: Seq<char>) -> Option<SamplingStrategy> {
    if name == "uniform"@ {
        Some(SamplingStrategy::Uniform)
    } else if name == "area-weighted"@ || name == "area_weighted"@ {
        Some(SamplingStrategy::AreaWeighted)
    } else if name == "vertices"@ {
        Some(SamplingStrategy::Vertices)
    } else {
        None
    }
}

/// The two output forms of the converter.
#[derive(Debug, Clone, Copy, PartialEq, Eq, Structural)]
pub enum OutputFormat {
    /// One JSON document holding points and metadata.
    Json,
    /// A directory of metadata, binary tiles and a hierarchy index.
    Ept,
}

/// The output form that a lower-case name selects.
pub open spec fn format_named(name: Seq<char>) -> Option<OutputFormat> {
    if name == "json"@ {
        Some(OutputFormat::Json)
    } else if name == "ept"@ {
        Some(OutputFormat::Ept)
    } else {
        None
    }
}

/// Whether a lower-case file extension names a glTF file.
pub open spec fn is_gltf_extension(ext: Seq<char>) -> bool {
    ext == "gltf"@ || ext == "glb"@
}

/// The vertices, triangles or random vertices that the sampling engine reads.
#[derive(Debug, Clone)]
pub enum SamplePlan {
    /// Vertex `r[i]` gives output point `i`.
    Walk(Vec<usize>),
    /// Output points are drawn on these triangles.
    Triangles(Vec<[usize; 3]>),
    /// Vertex `r[i]` gives output point `i`.
    Fallback(Vec<usize>),
}

/// Converts meshes into point clouds.
#[derive(Debug, Clone, Copy)]
pub struct ModelParser;

impl ModelParser {
    /// The strategy named by `lower`, a name already in lower case:
    /// `uniform`, `area-weighted` (or `area_weighted`), `vertices`.
    pub fn strategy_from_lower(lower: &String) -> (r: Option<SamplingStrategy>)
        ensures
            r == strategy_named(lower@),
    {
        if same_text(lower, "uniform") {
            Some(SamplingStrategy::Uniform)
        } else if same_text(lower, "area-weighted") || same_text(lower, "area_weighted") {
            Some(SamplingStrategy::AreaWeighted)
        } else if same_text(lower, "vertices") {
            Some(SamplingStrategy::Vertices)
        } else {
            None
        }
    }

    /// The strategy named by `name`, in any case.
    pub fn parse_strategy(name: &str) -> (r: Option<SamplingStrategy>)
        ensures
            r == strategy_named(lower_of(name@)),
    {
        let lower = lowercase(name);
        Self::strategy_from_lower(&lower)
    }

    /// The output form named by `lower`, a name already in lower case.
    pub fn format_from_lower(lower: &String) -> (r: Option<OutputFormat>)
        ensures
            r == format_named(lower@),
    {
        if same_text(lower, "json") {
            Some(OutputFormat::Json)
        } else if same_text(lower, "ept") {
            Some(OutputFormat::Ept)
        } else {
            None
        }
    }

    /// The output form named by `name`, in any case.
    pub fn parse_format(name: &str) -> (r: Option<OutputFormat>)
        ensures
            r == format_named(lower_of(name@)),
    {
        let lower = lowercase(name);
        Self::format_from_lower(&lower)
    }

    /// Accepts a lower-case extension that names a glTF file; any other is
    /// refused with a message that names it.
    pub fn check_lower_extension(lower: &String) -> (r: Result<(), ModelParserError>)
        ensures
            is_gltf_extension(lower@) ==> r is Ok,
            !is_gltf_extension(lower@) ==> (r matches Err(ModelParserError::UnsupportedFormat(m))
                && m@ == lower@ + " (currently only GLTF/GLB supported)"@),
    {
        if same_text(lower, "gltf") || same_text(lower, "glb") {
            Ok(())
        } else {
            let m = lower.clone().concat(" (currently only GLTF/GLB supported)");
            Err(ModelParserError::UnsupportedFormat(m))
        }
    }

    /// Accepts a file whose extension, in any case, is `gltf` or `glb`. A
    /// file without an extension is refused with the message `no extension`.
    pub fn check_extension(ext: Option<&str>) -> (r: Result<(), ModelParserError>)
        ensures
            ext is None ==> (r matches Err(ModelParserError::UnsupportedFormat(m)) && m@
                == "no extension"@),
            ext matches Some(e) ==> (is_gltf_extension(lower_of(e@)) ==> r is Ok),
            ext matches Some(e) ==> (!is_gltf_extension(lower_of(e@)) ==> (r matches Err(
                ModelParserError::UnsupportedFormat(m),
            ) && m@ == lower_of(e@) + " (currently only GLTF/GLB supported)"@)),
    {
        match ext {
            None => Err(ModelParserError::UnsupportedFormat("no extension".to_string())),
            Some(e) => {
                let lower = lowercase(e);
                Self::check_lower_extension(&lower)
            },
        }
    }

    /// The provenance recorded for a file: its name, or `unknown`.
    pub fn source_name(file_name: Option<&str>) -> (r: String)
        ensures
            r@ == match file_name {
                Some(n) => n@,
                None => "unknown"@,
            },
    {
        match file_name {
            Some(n) => n.to_string(),
            None => "unknown".to_string(),
        }
    }

    /// The indices of one mesh part, shifted past the `base` vertices of the
    /// parts before it.
    pub fn offset_indices(indices: &Vec<u32>, base: usize) -> (r: Vec<usize>)
        requires
            base + u32::MAX <= usize::MAX,
        ensures
            r@.len() == indices@.len(),
            forall|i: int| 0 <= i < r@.len() ==> #[trigger] r@[i] == indices@[i] + base,
    {
        let mut r: Vec<usize> = Vec::new();
        let mut i: usize = 0;
        while i < indices.len()
            invariant
                base + u32::MAX <= usize::MAX,
                i <= indices@.len(),
                r@.len() == i,
                forall|j: int| 0 <= j < i ==> #[trigger] r@[j] == indices@[j] + base,
            decreases indices@.len() - i,
        {
            r.push(indices[i] as usize + base);
            i = i + 1;
        }
        r
    }

    /// What the sampling engine reads for `point_count` points over a mesh of
    /// `vertex_count` vertices: the first `min(point_count, vertex_count)`
    /// vertices in order for `Vertices`; the full triangles when a triangle
    /// strategy has one; else `point_count` random vertices. A mesh without
    /// vertices has no data to sample.
    pub fn plan_samples(
        strategy: SamplingStrategy,
        point_count: usize,
        vertex_count: usize,
        indices: &Vec<usize>,
    ) -> (r: Result<SamplePlan, ModelParserError>)
        ensures
            vertex_count == 0 <==> (r matches Err(e) && e is NoMeshData),
            vertex_count > 0 ==> match mode_spec(strategy, indices@.len()) {
                SamplingMode::VertexWalk => r matches Ok(SamplePlan::Walk(v)) && v@.len() == if point_count
                    < vertex_count {
                    point_count
                } else {
                    vertex_count
                } && forall|i: int| 0 <= i < v@.len() ==> #[trigger] v@[i] == i,
                SamplingMode::Triangles => r matches Ok(SamplePlan::Triangles(t)) && t@.len()
                    == indices@.len() / 3 && forall|k: int|
                    0 <= k < t@.len() ==> #[trigger] t@[k] == [indices@[3 * k], indices@[3 * k + 1], indices@[3 * k + 2]],
                SamplingMode::VertexFallback => r matches Ok(SamplePlan::Fallback(v)) && v@.len()
                    == point_count && forall|i: int| 0 <= i < v@.len() ==> #[trigger] v@[i] < vertex_count,
            },
    {
        if vertex_count == 0 {
            return Err(ModelParserError::NoMeshData);
        }
        match sampling_mode(strategy, indices.len()) {
            SamplingMode::VertexWalk => Ok(SamplePlan::Walk(vertex_walk_indices(point_count, vertex_count))),
            SamplingMode::Triangles => Ok(SamplePlan::Triangles(full_triangles(indices))),
            SamplingMode::VertexFallback => Ok(
                SamplePlan::Fallback(random_vertex_indices(point_count, vertex_count)),
            ),
        }
    }
}

} // verus!
