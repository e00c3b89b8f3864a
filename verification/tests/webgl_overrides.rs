use fingerprint_shim::webgl::{
    get_context_attributes, get_parameter, get_supported_extensions, reference_extensions,
    ContextAttributes, GlValue, GL_RENDERER, GL_SHADING_LANGUAGE_VERSION,
    GL_UNMASKED_RENDERER_WEBGL, GL_UNMASKED_VENDOR_WEBGL, GL_VENDOR, GL_VERSION,
};

const GL_MAX_TEXTURE_SIZE: u32 = 0x0D33;

const REFERENCE_EXTENSIONS: [&str; 39] = [
    "ANGLE_instanced_arrays",
    "EXT_blend_minmax",
    "EXT_clip_control",
    "EXT_color_buffer_half_float",
    "EXT_depth_clamp",
    "EXT_float_blend",
    "EXT_frag_depth",
    "EXT_polygon_offset_clamp",
    "EXT_shader_texture_lod",
    "EXT_texture_compression_bptc",
    "EXT_texture_compression_rgtc",
    "EXT_texture_filter_anisotropic",
    "EXT_texture_mirror_clamp_to_edge",
    "EXT_sRGB",
    "KHR_parallel_shader_compile",
    "OES_element_index_uint",
    "OES_fbo_render_mipmap",
    "OES_standard_derivatives",
    "OES_texture_float",
    "OES_texture_float_linear",
    "OES_texture_half_float",
    "OES_texture_half_float_linear",
    "OES_vertex_array_object",
    "WEBGL_blend_func_extended",
    "WEBGL_color_buffer_float",
    "WEBGL_compressed_texture_astc",
    "WEBGL_compressed_texture_etc",
    "WEBGL_compressed_texture_etc1",
    "WEBGL_compressed_texture_pvrtc",
    "WEBKIT_WEBGL_compressed_texture_pvrtc",
    "WEBGL_compressed_texture_s3tc",
    "WEBGL_compressed_texture_s3tc_srgb",
    "WEBGL_debug_renderer_info",
    "WEBGL_debug_shaders",
    "WEBGL_depth_texture",
    "WEBGL_draw_buffers",
    "WEBGL_lose_context",
    "WEBGL_multi_draw",
    "WEBGL_polygon_mode",
];

#[test]
fn parameter_spoofs_all_six_identity_codes() {
    let cases: [(u32, &str); 6] = [
        (GL_UNMASKED_VENDOR_WEBGL, "Apple Inc."),
        (GL_UNMASKED_RENDERER_WEBGL, "Apple GPU"),
        (GL_RENDERER, "WebKit WebGL"),
        (GL_VENDOR, "WebKit"),
        (GL_VERSION, "WebGL 1.0"),
        (GL_SHADING_LANGUAGE_VERSION, "WebGL GLSL ES 1.0 (1.0)"),
    ];
    for (code, expected) in cases {
        let r = get_parameter(true, code, GlValue::Text(String::from("NVIDIA Corporation")));
        assert_eq!(r, GlValue::Text(String::from(expected)));
    }
}

#[test]
fn parameter_delegates_unrecognized_codes() {
    let r = get_parameter(true, GL_MAX_TEXTURE_SIZE, GlValue::Num(16384));
    assert_eq!(r, GlValue::Num(16384));
    let r = get_parameter(true, 0x0B21, GlValue::Num(1));
    assert_eq!(r, GlValue::Num(1));
}

#[test]
fn parameter_inactive_is_transparent() {
    let r = get_parameter(false, GL_VENDOR, GlValue::Text(String::from("Mesa")));
    assert_eq!(r, GlValue::Text(String::from("Mesa")));
}

#[test]
fn antialias_forced_true_on_every_call() {
    let genuine = ContextAttributes {
        alpha: true,
        antialias: false,
        depth: true,
        premultiplied_alpha: true,
        stencil: false,
    };
    let r = get_context_attributes(true, Some(genuine)).unwrap();
    assert!(r.antialias);
    // the remaining attributes pass through from the engine
    assert!(r.alpha);
    assert!(r.depth);
    assert!(r.premultiplied_alpha);
    assert!(!r.stencil);
    // a missing attributes object is replaced by an empty one, antialias set
    let r = get_context_attributes(true, None).unwrap();
    assert!(r.antialias);
    assert!(!r.alpha);
}

#[test]
fn attributes_inactive_are_transparent() {
    assert_eq!(get_context_attributes(false, None), None);
    let genuine = ContextAttributes {
        alpha: false,
        antialias: false,
        depth: false,
        premultiplied_alpha: false,
        stencil: false,
    };
    assert_eq!(get_context_attributes(false, Some(genuine)), Some(genuine));
}

#[test]
fn extensions_fixed_list_regardless_of_engine() {
    let engine_a: Vec<String> = vec![String::from("EXT_my_gpu_quirk")];
    let engine_b: Vec<String> = Vec::new();
    let a = get_supported_extensions(true, engine_a);
    let b = get_supported_extensions(true, engine_b);
    assert_eq!(a, b);
    assert_eq!(a.len(), 39);
    for (i, name) in REFERENCE_EXTENSIONS.iter().enumerate() {
        assert_eq!(a[i], *name);
    }
    assert_eq!(reference_extensions(), a);
}

#[test]
fn extensions_inactive_are_transparent() {
    let engine: Vec<String> = vec![String::from("EXT_one"), String::from("EXT_two")];
    let r = get_supported_extensions(false, engine.clone());
    assert_eq!(r, engine);
}
