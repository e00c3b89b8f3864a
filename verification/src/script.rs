//! Emission of the injected script.
//!
//! The deliverable handed to the host shell is one script body, character
//! data evaluated in every frame of every document. It is assembled here from
//! the structured data of the profile — the override table, the identity
//! parameter codes and the extension list — plus small fixed templates, so a
//! catalog change never touches the emission logic.

use vstd::prelude::*;
use crate::catalog::{
    catalog_for, catalog_spec, entries_of, spec_webgl_in_generation, webgl_in_generation,
    OverrideEntry, ProfileGeneration,
};
use crate::environment::{AbstractValue, PropertyKey, PropValue};
use crate::vendor_origin;
use crate::vendor_origin_str;
use crate::webgl::{
    reference_extensions, spec_reference_extensions, GL_RENDERER, GL_SHADING_LANGUAGE_VERSION,
    GL_UNMASKED_RENDERER_WEBGL, GL_UNMASKED_VENDOR_WEBGL, GL_VENDOR, GL_VERSION,
};

verus! {

/// The decimal digit character for `d % 10`.
pub open spec fn spec_digit(d: u64) -> char {
    (((d % 10) + 48) as u8) as char
}

/// The decimal rendering of `n`, most significant digit first, no sign and
/// no leading zero.
pub open spec fn spec_decimal(n: u64) -> Seq<char>
    decreases n,
{
    if n < 10 {
        seq![spec_digit(n)]
    } else {
        spec_decimal(n / 10) + seq![spec_digit(n % 10)]
    }
}

/// One decimal digit as a string slice.
fn digit_str(d: u64) -> (r: &'static str)
    requires
        d < 10,
    ensures
        r@ == seq![spec_digit(d)],
{
    proof {
        reveal_strlit("0");
        reveal_strlit("1");
        reveal_strlit("2");
        reveal_strlit("3");
        reveal_strlit("4");
        reveal_strlit("5");
        reveal_strlit("6");
        reveal_strlit("7");
        reveal_strlit("8");
        reveal_strlit("9");
    }
    let r = if d == 0 {
        "0"
    } else if d == 1 {
        "1"
    } else if d == 2 {
        "2"
    } else if d == 3 {
        "3"
    } else if d == 4 {
        "4"
    } else if d == 5 {
        "5"
    } else if d == 6 {
        "6"
    } else if d == 7 {
        "7"
    } else if d == 8 {
        "8"
    } else {
        "9"
    };
    proof {
        assert(r@ =~= seq![spec_digit(d)]);
    }
    r
}

/// Render `n` in decimal.
pub fn u64_to_dec(n: u64) -> (r: String)
    ensures
        r@ == spec_decimal(n),
    decreases n,
{
    if n < 10 {
        String::from_str(digit_str(n))
    } else {
        let mut s = u64_to_dec(n / 10);
        s.append(digit_str(n % 10));
        s
    }
}

/// How one override value reads in the emitted script: numbers in decimal,
/// strings quoted, `null` as the keyword.
pub open spec fn spec_render_value(v: AbstractValue) -> Seq<char> {
    match v {
        AbstractValue::Num(n) => spec_decimal(n),
        AbstractValue::Text(s) => "\""@ + s + "\""@,
        AbstractValue::Null => "null"@,
    }
}

/// Render one override value as script text.
pub fn render_value(v: &PropValue) -> (r: String)
    ensures
        r@ == spec_render_value(v@),
{
    match v {
        PropValue::Num(n) => u64_to_dec(*n),
        PropValue::Text(s) => {
            let mut out = String::from_str("\"");
            out.append(s.as_str());
            out.append("\"");
            out
        },
        PropValue::Null => String::from_str("null"),
    }
}

/// The script expression for the object that owns a property.
pub open spec fn spec_target_object(key: PropertyKey) -> Seq<char> {
    match key {
        PropertyKey::HardwareConcurrency => "navigator"@,
        PropertyKey::UserAgentData => "navigator"@,
        PropertyKey::Platform => "navigator"@,
        PropertyKey::Connection => "navigator"@,
        PropertyKey::ScreenHeight => "window.screen"@,
        PropertyKey::ScreenWidth => "window.screen"@,
        PropertyKey::ScreenAvailHeight => "window.screen"@,
        PropertyKey::ScreenAvailWidth => "window.screen"@,
        PropertyKey::ScreenPixelDepth => "window.screen"@,
        PropertyKey::ScreenColorDepth => "window.screen"@,
        PropertyKey::OrientationType => "window.screen.orientation"@,
        PropertyKey::DevicePixelRatio => "window"@,
        PropertyKey::OuterHeight => "window"@,
        PropertyKey::OuterWidth => "window"@,
    }
}

/// The script expression for the object that owns a property.
pub fn target_object(key: PropertyKey) -> (r: &'static str)
    ensures
        r@ == spec_target_object(key),
{
    match key {
        PropertyKey::HardwareConcurrency => "navigator",
        PropertyKey::UserAgentData => "navigator",
        PropertyKey::Platform => "navigator",
        PropertyKey::Connection => "navigator",
        PropertyKey::ScreenHeight => "window.screen",
        PropertyKey::ScreenWidth => "window.screen",
        PropertyKey::ScreenAvailHeight => "window.screen",
        PropertyKey::ScreenAvailWidth => "window.screen",
        PropertyKey::ScreenPixelDepth => "window.screen",
        PropertyKey::ScreenColorDepth => "window.screen",
        PropertyKey::OrientationType => "window.screen.orientation",
        PropertyKey::DevicePixelRatio => "window",
        PropertyKey::OuterHeight => "window",
        PropertyKey::OuterWidth => "window",
    }
}

/// The property name a key shadows on its owner object.
pub open spec fn spec_property_name(key: PropertyKey) -> Seq<char> {
    match key {
        PropertyKey::HardwareConcurrency => "hardwareConcurrency"@,
        PropertyKey::UserAgentData => "userAgentData"@,
        PropertyKey::Platform => "platform"@,
        PropertyKey::Connection => "connection"@,
        PropertyKey::ScreenHeight => "height"@,
        PropertyKey::ScreenWidth => "width"@,
        PropertyKey::ScreenAvailHeight => "availHeight"@,
        PropertyKey::ScreenAvailWidth => "availWidth"@,
        PropertyKey::ScreenPixelDepth => "pixelDepth"@,
        PropertyKey::ScreenColorDepth => "colorDepth"@,
        PropertyKey::OrientationType => "type"@,
        PropertyKey::DevicePixelRatio => "devicePixelRatio"@,
        PropertyKey::OuterHeight => "outerHeight"@,
        PropertyKey::OuterWidth => "outerWidth"@,
    }
}

/// The property name a key shadows on its owner object.
pub fn property_name(key: PropertyKey) -> (r: &'static str)
    ensures
        r@ == spec_property_name(key),
{
    match key {
        PropertyKey::HardwareConcurrency => "hardwareConcurrency",
        PropertyKey::UserAgentData => "userAgentData",
        PropertyKey::Platform => "platform",
        PropertyKey::Connection => "connection",
        PropertyKey::ScreenHeight => "height",
        PropertyKey::ScreenWidth => "width",
        PropertyKey::ScreenAvailHeight => "availHeight",
        PropertyKey::ScreenAvailWidth => "availWidth",
        PropertyKey::ScreenPixelDepth => "pixelDepth",
        PropertyKey::ScreenColorDepth => "colorDepth",
        PropertyKey::OrientationType => "type",
        PropertyKey::DevicePixelRatio => "devicePixelRatio",
        PropertyKey::OuterHeight => "outerHeight",
        PropertyKey::OuterWidth => "outerWidth",
    }
}

/// One line of the emitted script: a call of the getter-installing helper for
/// one row of the override table.
pub open spec fn spec_render_entry(key: PropertyKey, v: AbstractValue) -> Seq<char> {
    "  tweak("@ + spec_target_object(key) + ", \""@ + spec_property_name(key) + "\", "@
        + spec_render_value(v) + ")\n"@
}

/// Render one row of the override table as one script line.
pub fn render_entry(e: &OverrideEntry) -> (r: String)
    ensures
        r@ == spec_render_entry(e.key, e.value@),
{
    let mut out = String::from_str("  tweak(");
    out.append(target_object(e.key));
    out.append(", \"");
    out.append(property_name(e.key));
    out.append("\", ");
    let v = render_value(&e.value);
    out.append(v.as_str());
    out.append(")\n");
    out
}

/// The script lines of a whole override table, one per row, in table order.
pub open spec fn spec_render_table(entries: Seq<(PropertyKey, AbstractValue)>) -> Seq<char>
    decreases entries.len(),
{
    if entries.len() == 0 {
        Seq::<char>::empty()
    } else {
        spec_render_table(entries.drop_last()) + spec_render_entry(
            entries.last().0,
            entries.last().1,
        )
    }
}

/// Render a whole override table, row for row.
pub fn render_table(table: &Vec<OverrideEntry>) -> (r: String)
    ensures
        r@ == spec_render_table(entries_of(table@)),
{
    let ghost all = entries_of(table@);
    let mut out = String::new();
    let mut i: usize = 0;
    while i < table.len()
        invariant
            i <= table.len(),
            all == entries_of(table@),
            out@ == spec_render_table(all.take(i as int)),
        decreases table.len() - i,
    {
        let line = render_entry(&table[i]);
        out.append(line.as_str());
        proof {
            assert(all.take(i + 1).drop_last() =~= all.take(i as int));
            assert(all.take(i + 1).last() == all[i as int]);
        }
        i = i + 1;
    }
    proof {
        assert(all.take(table@.len() as int) =~= all);
    }
    out
}

/// The identity parameter codes the emitted `getParameter` wrapper answers
/// for, each with its reference string, in emission order.
pub open spec fn spec_identity_codes() -> Seq<(u32, Seq<char>)> {
    seq![
        (GL_UNMASKED_VENDOR_WEBGL, "Apple Inc."@),
        (GL_UNMASKED_RENDERER_WEBGL, "Apple GPU"@),
        (GL_RENDERER, "WebKit WebGL"@),
        (GL_VENDOR, "WebKit"@),
        (GL_VERSION, "WebGL 1.0"@),
        (GL_SHADING_LANGUAGE_VERSION, "WebGL GLSL ES 1.0 (1.0)"@),
    ]
}

/// The identity codes with their reference strings, in emission order.
pub fn identity_codes() -> (r: Vec<(u32, String)>)
    ensures
        r.deep_view() == spec_identity_codes(),
{
    let mut r: Vec<(u32, String)> = Vec::new();
    r.push((GL_UNMASKED_VENDOR_WEBGL, String::from_str("Apple Inc.")));
    r.push((GL_UNMASKED_RENDERER_WEBGL, String::from_str("Apple GPU")));
    r.push((GL_RENDERER, String::from_str("WebKit WebGL")));
    r.push((GL_VENDOR, String::from_str("WebKit")));
    r.push((GL_VERSION, String::from_str("WebGL 1.0")));
    r.push((GL_SHADING_LANGUAGE_VERSION, String::from_str("WebGL GLSL ES 1.0 (1.0)")));
    proof {
        assert(r.deep_view() =~= spec_identity_codes());
    }
    r
}

/// The `case` arms of the emitted `getParameter` wrapper, one per identity
/// code, in order.
pub open spec fn spec_render_cases(cases: Seq<(u32, Seq<char>)>) -> Seq<char>
    decreases cases.len(),
{
    if cases.len() == 0 {
        Seq::<char>::empty()
    } else {
        spec_render_cases(cases.drop_last()) + "      case "@ + spec_decimal(
            cases.last().0 as u64,
        ) + ":\n        return \""@ + cases.last().1 + "\";\n"@
    }
}

/// Render the `case` arms of the `getParameter` wrapper.
pub fn render_cases(cases: &Vec<(u32, String)>) -> (r: String)
    ensures
        r@ == spec_render_cases(cases.deep_view()),
{
    let ghost all = cases.deep_view();
    let mut out = String::new();
    let mut i: usize = 0;
    while i < cases.len()
        invariant
            i <= cases.len(),
            all == cases.deep_view(),
            out@ == spec_render_cases(all.take(i as int)),
        decreases cases.len() - i,
    {
        out.append("      case ");
        let code = u64_to_dec(cases[i].0 as u64);
        out.append(code.as_str());
        out.append(":\n        return \"");
        out.append(cases[i].1.as_str());
        out.append("\";\n");
        proof {
            assert(all.take(i + 1).drop_last() =~= all.take(i as int));
            assert(all.take(i + 1).last() == all[i as int]);
        }
        i = i + 1;
    }
    proof {
        assert(all.take(cases@.len() as int) =~= all);
    }
    out
}

/// The emitted extension array body: each name quoted, separated by commas,
/// in list order.
pub open spec fn spec_render_extension_list(exts: Seq<Seq<char>>) -> Seq<char>
    decreases exts.len(),
{
    if exts.len() == 0 {
        Seq::<char>::empty()
    } else if exts.len() == 1 {
        "\""@ + exts[0] + "\""@
    } else {
        spec_render_extension_list(exts.drop_last()) + ", \""@ + exts.last() + "\""@
    }
}

/// Render an extension list as the body of a script array literal.
pub fn render_extension_list(exts: &Vec<String>) -> (r: String)
    ensures
        r@ == spec_render_extension_list(exts.deep_view()),
{
    let ghost all = exts.deep_view();
    let mut out = String::new();
    let mut i: usize = 0;
    while i < exts.len()
        invariant
            i <= exts.len(),
            all == exts.deep_view(),
            out@ == spec_render_extension_list(all.take(i as int)),
        decreases exts.len() - i,
    {
        if i == 0 {
            out.append("\"");
        } else {
            out.append(", \"");
        }
        out.append(exts[i].as_str());
        out.append("\"");
        proof {
            assert(all.take(i + 1).drop_last() =~= all.take(i as int));
            assert(all.take(i + 1).last() == all[i as int]);
        }
        i = i + 1;
    }
    proof {
        assert(all.take(exts@.len() as int) =~= all);
    }
    out
}

/// The emitted WebGL wrapper block: the `getParameter` switch over the
/// identity codes, the `getContextAttributes` antialias forcing, and the
/// fixed extension list.
pub open spec fn spec_render_webgl_block() -> Seq<char> {
    "  const originalWebGLParameter = WebGLRenderingContext.prototype.getParameter;\n"@
        + "  WebGLRenderingContext.prototype.getParameter = function (pname) {\n"@
        + "    switch (pname) {\n"@ + spec_render_cases(spec_identity_codes()) + "    }\n"@
        + "    return originalWebGLParameter.call(this, pname);\n"@ + "  }\n"@
        + "  const originalWebGLAttributes = WebGLRenderingContext.prototype.getContextAttributes;\n"@
        + "  WebGLRenderingContext.prototype.getContextAttributes = function () {\n"@
        + "    const attributes = originalWebGLAttributes.call(this) ?? {};\n"@
        + "    attributes.antialias = true;\n"@ + "    return attributes;\n"@ + "  }\n"@
        + "  WebGLRenderingContext.prototype.getSupportedExtensions = function () {\n"@
        + "    return ["@ + spec_render_extension_list(spec_reference_extensions()) + "];\n"@
        + "  }\n"@
}

/// Render the WebGL wrapper block.
pub fn render_webgl_block() -> (r: String)
    ensures
        r@ == spec_render_webgl_block(),
{
    let mut out = String::from_str(
        "  const originalWebGLParameter = WebGLRenderingContext.prototype.getParameter;\n",
    );
    out.append("  WebGLRenderingContext.prototype.getParameter = function (pname) {\n");
    out.append("    switch (pname) {\n");
    let cases = identity_codes();
    let rendered_cases = render_cases(&cases);
    out.append(rendered_cases.as_str());
    out.append("    }\n");
    out.append("    return originalWebGLParameter.call(this, pname);\n");
    out.append("  }\n");
    out.append(
        "  const originalWebGLAttributes = WebGLRenderingContext.prototype.getContextAttributes;\n",
    );
    out.append("  WebGLRenderingContext.prototype.getContextAttributes = function () {\n");
    out.append("    const attributes = originalWebGLAttributes.call(this) ?? {};\n");
    out.append("    attributes.antialias = true;\n");
    out.append("    return attributes;\n");
    out.append("  }\n");
    out.append("  WebGLRenderingContext.prototype.getSupportedExtensions = function () {\n");
    out.append("    return [");
    let exts = reference_extensions();
    let rendered_exts = render_extension_list(&exts);
    out.append(rendered_exts.as_str());
    out.append("];\n");
    out.append("  }\n");
    out
}

/// The whole injected script of one catalog generation: the activation guard
/// on the vendor origin, the getter-installing helper, one line per table
/// row, and — where the generation calls for it — the WebGL wrapper block.
pub open spec fn spec_init_script(gen: ProfileGeneration) -> Seq<char> {
    "if (window.location.origin === \""@ + vendor_origin() + "\") {\n"@
        + "  const tweak = (obj, prop, val) => obj.__defineGetter__(prop, () => val)\n"@
        + spec_render_table(catalog_spec(gen)) + (if spec_webgl_in_generation(gen) {
        spec_render_webgl_block()
    } else {
        Seq::<char>::empty()
    }) + "}\n"@
}

/// Assemble the injected script of one catalog generation.
pub fn render_init_script(gen: ProfileGeneration) -> (r: String)
    ensures
        r@ == spec_init_script(gen),
{
    let mut out = String::from_str("if (window.location.origin === \"");
    out.append(vendor_origin_str());
    out.append("\") {\n");
    out.append("  const tweak = (obj, prop, val) => obj.__defineGetter__(prop, () => val)\n");
    let table = catalog_for(gen);
    let rendered_table = render_table(&table);
    out.append(rendered_table.as_str());
    if webgl_in_generation(gen) {
        let block = render_webgl_block();
        out.append(block.as_str());
    }
    out.append("}\n");
    out
}

} // verus!
