use little_cube::shaders::select_shader;
use little_cube::shaders::to_glsl;
use little_cube::shaders::Glsl;
use little_cube::shaders::OpenGl;
use little_cube::shaders::GLSL_VERSIONS;

const ALL_GLSL: [Glsl; 12] = [
    Glsl::V1_10,
    Glsl::V1_20,
    Glsl::V1_30,
    Glsl::V1_40,
    Glsl::V1_50,
    Glsl::V3_30,
    Glsl::V4_00,
    Glsl::V4_10,
    Glsl::V4_20,
    Glsl::V4_30,
    Glsl::V4_40,
    Glsl::V4_50,
];

const ALL_OPENGL: [OpenGl; 12] = [
    OpenGl::V2_0,
    OpenGl::V2_1,
    OpenGl::V3_0,
    OpenGl::V3_1,
    OpenGl::V3_2,
    OpenGl::V3_3,
    OpenGl::V4_0,
    OpenGl::V4_1,
    OpenGl::V4_2,
    OpenGl::V4_3,
    OpenGl::V4_4,
    OpenGl::V4_5,
];

#[test]
fn opengl_3_2_speaks_glsl_1_50() {
    assert_eq!(to_glsl(OpenGl::V3_2), Glsl::V1_50);
}

#[test]
fn every_opengl_version_has_its_glsl_version() {
    for (api, glsl) in ALL_OPENGL.iter().zip(ALL_GLSL.iter()) {
        assert_eq!(to_glsl(*api), *glsl);
    }
    assert_ne!(to_glsl(OpenGl::V2_0), to_glsl(OpenGl::V4_5));
}

#[test]
fn from_rank_counts_versions_oldest_first() {
    for (rank, glsl) in ALL_GLSL.iter().enumerate() {
        assert_eq!(Glsl::from_rank(rank as u8), Some(*glsl));
    }
    assert_eq!(GLSL_VERSIONS, 12);
    assert_eq!(Glsl::from_rank(12), None);
    assert_eq!(Glsl::from_rank(255), None);
}

#[test]
fn core_profiles_get_the_1_50_variant() {
    for glsl in &ALL_GLSL[4..] {
        assert_eq!(select_shader(*glsl, "old", "core"), Some("core"));
    }
}

#[test]
fn older_versions_get_the_1_20_variant() {
    assert_eq!(select_shader(Glsl::V1_20, "old", "core"), Some("old"));
    assert_eq!(select_shader(Glsl::V1_30, "old", "core"), Some("old"));
    assert_eq!(select_shader(Glsl::V1_40, "old", "core"), Some("old"));
}

#[test]
fn glsl_1_10_has_no_variant() {
    assert_eq!(select_shader(Glsl::V1_10, "old", "core"), None);
}

#[test]
fn the_window_api_picks_the_core_variant() {
    let glsl = to_glsl(OpenGl::V3_2);
    assert_eq!(select_shader(glsl, "#version 120", "#version 150 core"), Some("#version 150 core"));
}

#[test]
fn selection_hands_back_the_registered_text_unchanged() {
    let old = "void main() { gl_FragColor = vec4(1.0); }";
    let core = "out vec4 o_Color; void main() { o_Color = vec4(1.0); }";
    assert_eq!(select_shader(Glsl::V4_50, old, core), Some(core));
    assert_eq!(select_shader(Glsl::V1_20, old, core), Some(old));
    assert_eq!(select_shader(Glsl::V3_30, "", core), Some(core));
    assert_eq!(select_shader(Glsl::V1_40, "", core), Some(""));
}
