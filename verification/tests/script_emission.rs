use fingerprint_shim::catalog::{reference_user_agent, ProfileGeneration};
use fingerprint_shim::script::{render_init_script, u64_to_dec};

#[test]
fn decimal_rendering_exact() {
    assert_eq!(u64_to_dec(0), "0");
    assert_eq!(u64_to_dec(7), "7");
    assert_eq!(u64_to_dec(10), "10");
    assert_eq!(u64_to_dec(393), "393");
    assert_eq!(u64_to_dec(37445), "37445");
    assert_eq!(u64_to_dec(u64::MAX), "18446744073709551615");
}

#[test]
fn early_script_exact_text() {
    let expected = "if (window.location.origin === \"https://client-api.arkoselabs.com\") {
  const tweak = (obj, prop, val) => obj.__defineGetter__(prop, () => val)
  tweak(navigator, \"hardwareConcurrency\", 4)
  tweak(navigator, \"userAgentData\", null)
  tweak(navigator, \"platform\", \"iPhone\")
  tweak(navigator, \"connection\", null)
  tweak(window.screen, \"height\", 852)
  tweak(window.screen, \"width\", 393)
  tweak(window.screen, \"availHeight\", 852)
  tweak(window.screen, \"availWidth\", 393)
  tweak(window.screen, \"pixelDepth\", 24)
  tweak(window.screen, \"colorDepth\", 24)
  tweak(window.screen.orientation, \"type\", \"portrait-primary\")
  tweak(window, \"devicePixelRatio\", 3)
}
";
    assert_eq!(render_init_script(ProfileGeneration::Early), expected);
}

#[test]
fn full_script_adds_outer_metrics_and_webgl() {
    let script = render_init_script(ProfileGeneration::Full);
    assert!(script.contains("  tweak(window, \"outerHeight\", 0)\n"));
    assert!(script.contains("  tweak(window, \"outerWidth\", 0)\n"));
    // the six identity codes, in decimal
    assert!(script.contains("      case 37445:\n        return \"Apple Inc.\";\n"));
    assert!(script.contains("      case 37446:\n        return \"Apple GPU\";\n"));
    assert!(script.contains("      case 7937:\n        return \"WebKit WebGL\";\n"));
    assert!(script.contains("      case 7936:\n        return \"WebKit\";\n"));
    assert!(script.contains("      case 7938:\n        return \"WebGL 1.0\";\n"));
    assert!(script.contains("      case 35724:\n        return \"WebGL GLSL ES 1.0 (1.0)\";\n"));
    // delegation and the antialias forcing survive in the template
    assert!(script.contains("return originalWebGLParameter.call(this, pname);"));
    assert!(script.contains("attributes.antialias = true;"));
    // the extension array keeps the reference order
    assert!(script.contains("return [\"ANGLE_instanced_arrays\", \"EXT_blend_minmax\""));
    assert!(script.contains("\"WEBGL_multi_draw\", \"WEBGL_polygon_mode\"];"));
}

#[test]
fn current_script_drops_outer_metrics_keeps_webgl() {
    let script = render_init_script(ProfileGeneration::Current);
    assert!(!script.contains("outerHeight"));
    assert!(!script.contains("outerWidth"));
    assert!(script.contains("getSupportedExtensions"));
}

#[test]
fn user_agent_names_the_reference_device() {
    assert_eq!(
        reference_user_agent(),
        "Mozilla/5.0 (iPhone; CPU iPhone OS 19_0 like Mac OS X) AppleWebKit/605.1.15 (KHTML, like Gecko) Mobile/15E148"
    );
}
