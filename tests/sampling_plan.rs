use model_parser::error::ModelParserError;
use model_parser::parser::{ModelParser, OutputFormat, SamplePlan};
use model_parser::sampling::{
    attach_attribute, attribute_fits, full_triangles, indices_in_range, random_vertex_indices,
    sampling_mode, vertex_walk_indices, SamplingMode, SamplingStrategy,
};

#[test]
fn vertex_walk_is_capped_by_vertex_count() {
    assert_eq!(vertex_walk_indices(10, 4), vec![0, 1, 2, 3]);
    assert_eq!(vertex_walk_indices(2, 4), vec![0, 1]);
    assert_eq!(vertex_walk_indices(0, 4), Vec::<usize>::new());
}

#[test]
fn modes_by_strategy_and_indices() {
    assert_eq!(sampling_mode(SamplingStrategy::Vertices, 9), SamplingMode::VertexWalk);
    assert_eq!(sampling_mode(SamplingStrategy::Uniform, 3), SamplingMode::Triangles);
    assert_eq!(sampling_mode(SamplingStrategy::AreaWeighted, 6), SamplingMode::Triangles);
    assert_eq!(sampling_mode(SamplingStrategy::Uniform, 2), SamplingMode::VertexFallback);
    assert_eq!(sampling_mode(SamplingStrategy::AreaWeighted, 0), SamplingMode::VertexFallback);
}

#[test]
fn trailing_partial_triangle_is_dropped() {
    let idx = vec![0, 1, 2, 2, 3, 0, 1, 3];
    assert_eq!(full_triangles(&idx), vec![[0, 1, 2], [2, 3, 0]]);
    assert_eq!(full_triangles(&vec![0, 1]), Vec::<[usize; 3]>::new());
}

#[test]
fn index_range_check() {
    assert!(indices_in_range(&vec![0, 1, 2], 3));
    assert!(!indices_in_range(&vec![0, 3, 2], 3));
    assert!(indices_in_range(&Vec::new(), 0));
}

#[test]
fn attribute_rules() {
    assert!(attach_attribute(true, 4, 3));
    assert!(!attach_attribute(true, 4, 4));
    assert!(!attach_attribute(false, 4, 0));
    assert!(!attach_attribute(true, 0, 0));
    assert!(attribute_fits(0, 5));
    assert!(attribute_fits(5, 5));
    assert!(!attribute_fits(4, 5));
}

#[test]
fn random_indices_stay_in_range() {
    let r = random_vertex_indices(500, 3);
    assert_eq!(r.len(), 500);
    assert!(r.iter().all(|i| *i < 3));
    assert_eq!(random_vertex_indices(0, 3).len(), 0);
}

#[test]
fn plan_for_each_mode() {
    let idx = vec![0, 1, 2, 0, 2, 3];
    match ModelParser::plan_samples(SamplingStrategy::Vertices, 10, 4, &idx) {
        Ok(SamplePlan::Walk(v)) => assert_eq!(v, vec![0, 1, 2, 3]),
        _ => panic!("expected a vertex walk"),
    }
    match ModelParser::plan_samples(SamplingStrategy::AreaWeighted, 10, 4, &idx) {
        Ok(SamplePlan::Triangles(t)) => assert_eq!(t, vec![[0, 1, 2], [0, 2, 3]]),
        _ => panic!("expected triangles"),
    }
    match ModelParser::plan_samples(SamplingStrategy::Uniform, 10, 4, &vec![0, 1]) {
        Ok(SamplePlan::Fallback(v)) => {
            assert_eq!(v.len(), 10);
            assert!(v.iter().all(|i| *i < 4));
        }
        _ => panic!("expected the vertex fallback"),
    }
}

#[test]
fn plan_without_vertices_fails() {
    let r = ModelParser::plan_samples(SamplingStrategy::Uniform, 10, 0, &Vec::new());
    assert!(matches!(r, Err(ModelParserError::NoMeshData)));
}

#[test]
fn strategy_names() {
    assert_eq!(ModelParser::parse_strategy("Uniform"), Some(SamplingStrategy::Uniform));
    assert_eq!(ModelParser::parse_strategy("AREA-WEIGHTED"), Some(SamplingStrategy::AreaWeighted));
    assert_eq!(ModelParser::parse_strategy("area_weighted"), Some(SamplingStrategy::AreaWeighted));
    assert_eq!(ModelParser::parse_strategy("Vertices"), Some(SamplingStrategy::Vertices));
    assert_eq!(ModelParser::parse_strategy("random"), None);
}

#[test]
fn format_names() {
    assert_eq!(ModelParser::parse_format("JSON"), Some(OutputFormat::Json));
    assert_eq!(ModelParser::parse_format("ept"), Some(OutputFormat::Ept));
    assert_eq!(ModelParser::parse_format("las"), None);
}

#[test]
fn gltf_extensions_accepted() {
    assert!(ModelParser::check_extension(Some("GLB")).is_ok());
    assert!(ModelParser::check_extension(Some("gltf")).is_ok());
}

#[test]
fn other_extensions_refused() {
    match ModelParser::check_extension(Some("OBJ")) {
        Err(ModelParserError::UnsupportedFormat(m)) => {
            assert_eq!(m, "obj (currently only GLTF/GLB supported)")
        }
        _ => panic!("expected an unsupported format"),
    }
    match ModelParser::check_extension(None) {
        Err(ModelParserError::UnsupportedFormat(m)) => assert_eq!(m, "no extension"),
        _ => panic!("expected an unsupported format"),
    }
}

#[test]
fn source_names() {
    assert_eq!(ModelParser::source_name(Some("duck.glb")), "duck.glb");
    assert_eq!(ModelParser::source_name(None), "unknown");
}

#[test]
fn offsets_shift_indices() {
    assert_eq!(ModelParser::offset_indices(&vec![0, 1, 2], 5), vec![5, 6, 7]);
    assert_eq!(ModelParser::offset_indices(&Vec::new(), 5), Vec::<usize>::new());
}
