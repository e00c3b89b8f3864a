//! The WebGL introspection overrides.
//!
//! A fingerprinting page identifies the GPU through three calls on a WebGL
//! rendering context: `getParameter` for a handful of identity codes,
//! `getContextAttributes` for the context configuration, and
//! `getSupportedExtensions` for the extension list. The wrapped methods lie
//! about exactly those surfaces — six parameter codes, the `antialias` flag,
//! and the whole extension list — and delegate everything else to the
//! engine's genuine implementation unchanged.

use vstd::prelude::*;

verus! {

/// `UNMASKED_VENDOR_WEBGL`
pub const GL_UNMASKED_VENDOR_WEBGL: u32 = 0x9245;

/// `UNMASKED_RENDERER_WEBGL`
pub const GL_UNMASKED_RENDERER_WEBGL: u32 = 0x9246;

/// `RENDERER`
pub const GL_RENDERER: u32 = 0x1F01;

/// `VENDOR`
pub const GL_VENDOR: u32 = 0x1F00;

/// `VERSION`
pub const GL_VERSION: u32 = 0x1F02;

/// `SHADING_LANGUAGE_VERSION`
pub const GL_SHADING_LANGUAGE_VERSION: u32 = 0x8B8C;

/// A value a WebGL context call can yield: a string, a number, a flag, or
/// nothing. Engine results flow through untouched, so one carrier type is
/// enough.
#[derive(Debug, PartialEq, Eq)]
pub enum GlValue {
    Text(String),
    Num(i64),
    Flag(bool),
    Absent,
}

/// The mathematical value of a `GlValue`.
#[verifier::ext_equal]
pub enum GlAbstract {
    Text(Seq<char>),
    Num(i64),
    Flag(bool),
    Absent,
}

impl View for GlValue {
    type V = GlAbstract;

    open spec fn view(&self) -> GlAbstract {
        match self {
            GlValue::Text(s) => GlAbstract::Text(s@),
            GlValue::Num(n) => GlAbstract::Num(*n),
            GlValue::Flag(b) => GlAbstract::Flag(*b),
            GlValue::Absent => GlAbstract::Absent,
        }
    }
}

/// The fixed reference string for a recognized identity code, and `None` for
/// every other parameter code.
pub open spec fn spoofed_parameter(pname: u32) -> Option<Seq<char>> {
    if pname == GL_UNMASKED_VENDOR_WEBGL {
        Some("Apple Inc."@)
    } else if pname == GL_UNMASKED_RENDERER_WEBGL {
        Some("Apple GPU"@)
    } else if pname == GL_RENDERER {
        Some("WebKit WebGL"@)
    } else if pname == GL_VENDOR {
        Some("WebKit"@)
    } else if pname == GL_VERSION {
        Some("WebGL 1.0"@)
    } else if pname == GL_SHADING_LANGUAGE_VERSION {
        Some("WebGL GLSL ES 1.0 (1.0)"@)
    } else {
        None
    }
}

/// What the wrapped `getParameter` reports: the reference string for a
/// recognized identity code while the overrides are active, and the engine's
/// own result for every other code.
pub open spec fn parameter_model(active: bool, pname: u32, engine: GlAbstract) -> GlAbstract {
    if active && spoofed_parameter(pname) is Some {
        GlAbstract::Text(spoofed_parameter(pname)->0)
    } else {
        engine
    }
}

/// The wrapped `getParameter`. `engine` is what the genuine implementation
/// returns for `pname` on this context; it is handed back unchanged whenever
/// the code is not one of the six identity codes.
pub fn get_parameter(active: bool, pname: u32, engine: GlValue) -> (r: GlValue)
    ensures
        r@ == parameter_model(active, pname, engine@),
{
    if active {
        if pname == GL_UNMASKED_VENDOR_WEBGL {
            GlValue::Text(String::from_str("Apple Inc."))
        } else if pname == GL_UNMASKED_RENDERER_WEBGL {
            GlValue::Text(String::from_str("Apple GPU"))
        } else if pname == GL_RENDERER {
            GlValue::Text(String::from_str("WebKit WebGL"))
        } else if pname == GL_VENDOR {
            GlValue::Text(String::from_str("WebKit"))
        } else if pname == GL_VERSION {
            GlValue::Text(String::from_str("WebGL 1.0"))
        } else if pname == GL_SHADING_LANGUAGE_VERSION {
            GlValue::Text(String::from_str("WebGL GLSL ES 1.0 (1.0)"))
        } else {
            engine
        }
    } else {
        engine
    }
}

/// While active, each recognized identity code yields its fixed reference
/// string, whatever the engine would have said.
pub proof fn lemma_parameter_spoofed(pname: u32, engine: GlAbstract)
    requires
        spoofed_parameter(pname) is Some,
    ensures
        parameter_model(true, pname, engine) == GlAbstract::Text(spoofed_parameter(pname)->0),
{
}

/// Every unrecognized code — and every code while inactive — delegates to
/// the engine unchanged.
pub proof fn lemma_parameter_delegates(active: bool, pname: u32, engine: GlAbstract)
    requires
        !active || spoofed_parameter(pname) is None,
    ensures
        parameter_model(active, pname, engine) == engine,
{
}

/// The attributes a WebGL context reports through `getContextAttributes`.
#[derive(Clone, Copy, PartialEq, Eq, Structural, Debug)]
pub struct ContextAttributes {
    pub alpha: bool,
    pub antialias: bool,
    pub depth: bool,
    pub premultiplied_alpha: bool,
    pub stencil: bool,
}

/// The attribute structure substituted when the engine reports none.
pub open spec fn spec_empty_attributes() -> ContextAttributes {
    ContextAttributes {
        alpha: false,
        antialias: false,
        depth: false,
        premultiplied_alpha: false,
        stencil: false,
    }
}

/// What the wrapped `getContextAttributes` reports: the engine's attributes
/// (or an empty structure when the engine reports none) with `antialias`
/// forced to `true`, while active; the engine's own answer otherwise.
pub open spec fn attributes_model(
    active: bool,
    engine: Option<ContextAttributes>,
) -> Option<ContextAttributes> {
    if active {
        let base = match engine {
            Some(a) => a,
            None => spec_empty_attributes(),
        };
        Some(ContextAttributes { antialias: true, ..base })
    } else {
        engine
    }
}

/// The wrapped `getContextAttributes`. `engine` is what the genuine
/// implementation returns on this context, `None` standing for a missing
/// attributes object.
pub fn get_context_attributes(active: bool, engine: Option<ContextAttributes>) -> (r: Option<
    ContextAttributes,
>)
    ensures
        r == attributes_model(active, engine),
{
    if active {
        let base = match engine {
            Some(a) => a,
            None => ContextAttributes {
                alpha: false,
                antialias: false,
                depth: false,
                premultiplied_alpha: false,
                stencil: false,
            },
        };
        Some(ContextAttributes { antialias: true, ..base })
    } else {
        engine
    }
}

/// While active, `antialias` reads `true` on every call, even when the
/// engine's genuine attributes report `false` or are absent altogether.
pub proof fn lemma_antialias_forced(engine: Option<ContextAttributes>)
    ensures
        attributes_model(true, engine) matches Some(a) && a.antialias == true,
{
}

/// The extension list the reference device reports, in the reference order.
pub open spec fn spec_reference_extensions() -> Seq<Seq<char>> {
    seq![
        "ANGLE_instanced_arrays"@,
        "EXT_blend_minmax"@,
        "EXT_clip_control"@,
        "EXT_color_buffer_half_float"@,
        "EXT_depth_clamp"@,
        "EXT_float_blend"@,
        "EXT_frag_depth"@,
        "EXT_polygon_offset_clamp"@,
        "EXT_shader_texture_lod"@,
        "EXT_texture_compression_bptc"@,
        "EXT_texture_compression_rgtc"@,
        "EXT_texture_filter_anisotropic"@,
        "EXT_texture_mirror_clamp_to_edge"@,
        "EXT_sRGB"@,
        "KHR_parallel_shader_compile"@,
        "OES_element_index_uint"@,
        "OES_fbo_render_mipmap"@,
        "OES_standard_derivatives"@,
        "OES_texture_float"@,
        "OES_texture_float_linear"@,
        "OES_texture_half_float"@,
        "OES_texture_half_float_linear"@,
        "OES_vertex_array_object"@,
        "WEBGL_blend_func_extended"@,
        "WEBGL_color_buffer_float"@,
        "WEBGL_compressed_texture_astc"@,
        "WEBGL_compressed_texture_etc"@,
        "WEBGL_compressed_texture_etc1"@,
        "WEBGL_compressed_texture_pvrtc"@,
        "WEBKIT_WEBGL_compressed_texture_pvrtc"@,
        "WEBGL_compressed_texture_s3tc"@,
        "WEBGL_compressed_texture_s3tc_srgb"@,
        "WEBGL_debug_renderer_info"@,
        "WEBGL_debug_shaders"@,
        "WEBGL_depth_texture"@,
        "WEBGL_draw_buffers"@,
        "WEBGL_lose_context"@,
        "WEBGL_multi_draw"@,
        "WEBGL_polygon_mode"@,
    ]
}

/// What the wrapped `getSupportedExtensions` reports: the fixed reference
/// list while active, and the engine's genuine list otherwise.
pub open spec fn extensions_model(active: bool, engine: Seq<Seq<char>>) -> Seq<Seq<char>> {
    if active {
        spec_reference_extensions()
    } else {
        engine
    }
}

/// Build the reference extension list, in the reference order.
pub fn reference_extensions() -> (r: Vec<String>)
    ensures
        r.deep_view() == spec_reference_extensions(),
{
    let mut r: Vec<String> = Vec::new();
    r.push(String::from_str("ANGLE_instanced_arrays"));
    r.push(String::from_str("EXT_blend_minmax"));
    r.push(String::from_str("EXT_clip_control"));
    r.push(String::from_str("EXT_color_buffer_half_float"));
    r.push(String::from_str("EXT_depth_clamp"));
    r.push(String::from_str("EXT_float_blend"));
    r.push(String::from_str("EXT_frag_depth"));
    r.push(String::from_str("EXT_polygon_offset_clamp"));
    r.push(String::from_str("EXT_shader_texture_lod"));
    r.push(String::from_str("EXT_texture_compression_bptc"));
    r.push(String::from_str("EXT_texture_compression_rgtc"));
    r.push(String::from_str("EXT_texture_filter_anisotropic"));
    r.push(String::from_str("EXT_texture_mirror_clamp_to_edge"));
    r.push(String::from_str("EXT_sRGB"));
    r.push(String::from_str("KHR_parallel_shader_compile"));
    r.push(String::from_str("OES_element_index_uint"));
    r.push(String::from_str("OES_fbo_render_mipmap"));
    r.push(String::from_str("OES_standard_derivatives"));
    r.push(String::from_str("OES_texture_float"));
    r.push(String::from_str("OES_texture_float_linear"));
    r.push(String::from_str("OES_texture_half_float"));
    r.push(String::from_str("OES_texture_half_float_linear"));
    r.push(String::from_str("OES_vertex_array_object"));
    r.push(String::from_str("WEBGL_blend_func_extended"));
    r.push(String::from_str("WEBGL_color_buffer_float"));
    r.push(String::from_str("WEBGL_compressed_texture_astc"));
    r.push(String::from_str("WEBGL_compressed_texture_etc"));
    r.push(String::from_str("WEBGL_compressed_texture_etc1"));
    r.push(String::from_str("WEBGL_compressed_texture_pvrtc"));
    r.push(String::from_str("WEBKIT_WEBGL_compressed_texture_pvrtc"));
    r.push(String::from_str("WEBGL_compressed_texture_s3tc"));
    r.push(String::from_str("WEBGL_compressed_texture_s3tc_srgb"));
    r.push(String::from_str("WEBGL_debug_renderer_info"));
    r.push(String::from_str("WEBGL_debug_shaders"));
    r.push(String::from_str("WEBGL_depth_texture"));
    r.push(String::from_str("WEBGL_draw_buffers"));
    r.push(String::from_str("WEBGL_lose_context"));
    r.push(String::from_str("WEBGL_multi_draw"));
    r.push(String::from_str("WEBGL_polygon_mode"));
    proof {
        assert(r.deep_view() =~= spec_reference_extensions());
    }
    r
}

/// The wrapped `getSupportedExtensions`. `engine` is the genuine list; it is
/// ignored entirely while the overrides are active.
pub fn get_supported_extensions(active: bool, engine: Vec<String>) -> (r: Vec<String>)
    ensures
        r.deep_view() == extensions_model(active, engine.deep_view()),
{
    if active {
        reference_extensions()
    } else {
        engine
    }
}

/// While active, every call reports the same ordered list — whatever the
/// engine's genuine capability set is, on this call or any other.
pub proof fn lemma_extensions_stable(engine_a: Seq<Seq<char>>, engine_b: Seq<Seq<char>>)
    ensures
        extensions_model(true, engine_a) == extensions_model(true, engine_b),
        extensions_model(true, engine_a) == spec_reference_extensions(),
{
}

} // verus!
