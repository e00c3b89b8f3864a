use fingerprint_shim::catalog::{catalog_for, webgl_in_generation, ProfileGeneration};
use fingerprint_shim::environment::{Environment, PropValue, PropertyKey};
use fingerprint_shim::installer::{run_script, FrameState};
use fingerprint_shim::vendor_origin_str;

const VENDOR: &str = "https://client-api.arkoselabs.com";
const OTHER: &str = "https://example.com";

fn desktop_env() -> Environment {
    Environment {
        hardware_concurrency: Some(PropValue::Num(16)),
        user_agent_data: Some(PropValue::Null),
        platform: Some(PropValue::Text(String::from("Linux x86_64"))),
        connection: Some(PropValue::Null),
        screen_height: Some(PropValue::Num(1080)),
        screen_width: Some(PropValue::Num(1920)),
        screen_avail_height: Some(PropValue::Num(1040)),
        screen_avail_width: Some(PropValue::Num(1920)),
        screen_pixel_depth: Some(PropValue::Num(24)),
        screen_color_depth: Some(PropValue::Num(24)),
        orientation_type: Some(PropValue::Text(String::from("landscape-primary"))),
        device_pixel_ratio: Some(PropValue::Num(1)),
        outer_height: Some(PropValue::Num(1080)),
        outer_width: Some(PropValue::Num(1920)),
    }
}

const ALL_KEYS: [PropertyKey; 14] = [
    PropertyKey::HardwareConcurrency,
    PropertyKey::UserAgentData,
    PropertyKey::Platform,
    PropertyKey::Connection,
    PropertyKey::ScreenHeight,
    PropertyKey::ScreenWidth,
    PropertyKey::ScreenAvailHeight,
    PropertyKey::ScreenAvailWidth,
    PropertyKey::ScreenPixelDepth,
    PropertyKey::ScreenColorDepth,
    PropertyKey::OrientationType,
    PropertyKey::DevicePixelRatio,
    PropertyKey::OuterHeight,
    PropertyKey::OuterWidth,
];

fn snapshot(env: &Environment) -> Vec<Option<PropValue>> {
    ALL_KEYS
        .iter()
        .map(|k| env.read(*k).cloned())
        .collect()
}

#[test]
fn vendor_origin_matches_reference() {
    assert_eq!(vendor_origin_str(), VENDOR);
}

#[test]
fn other_origin_leaves_environment_untouched() {
    let genuine = snapshot(&desktop_env());
    let mut frame = FrameState { env: desktop_env(), webgl_spoofed: false };
    run_script(ProfileGeneration::Full, OTHER, &mut frame);
    assert_eq!(snapshot(&frame.env), genuine);
    assert!(!frame.webgl_spoofed);
}

#[test]
fn own_bundled_origin_leaves_environment_untouched() {
    let genuine = snapshot(&desktop_env());
    let mut frame = FrameState { env: desktop_env(), webgl_spoofed: false };
    run_script(ProfileGeneration::Current, "tauri://localhost", &mut frame);
    assert_eq!(snapshot(&frame.env), genuine);
    assert!(!frame.webgl_spoofed);
}

#[test]
fn vendor_origin_reports_reference_profile() {
    let mut frame = FrameState { env: desktop_env(), webgl_spoofed: false };
    run_script(ProfileGeneration::Full, VENDOR, &mut frame);
    assert_eq!(
        frame.env.read(PropertyKey::Platform),
        Some(&PropValue::Text(String::from("iPhone")))
    );
    assert_eq!(frame.env.read(PropertyKey::ScreenWidth), Some(&PropValue::Num(393)));
    assert_eq!(frame.env.read(PropertyKey::ScreenHeight), Some(&PropValue::Num(852)));
    assert_eq!(frame.env.read(PropertyKey::ScreenAvailWidth), Some(&PropValue::Num(393)));
    assert_eq!(frame.env.read(PropertyKey::ScreenAvailHeight), Some(&PropValue::Num(852)));
    assert_eq!(frame.env.read(PropertyKey::ScreenPixelDepth), Some(&PropValue::Num(24)));
    assert_eq!(frame.env.read(PropertyKey::ScreenColorDepth), Some(&PropValue::Num(24)));
    assert_eq!(frame.env.read(PropertyKey::HardwareConcurrency), Some(&PropValue::Num(4)));
    assert_eq!(frame.env.read(PropertyKey::UserAgentData), Some(&PropValue::Null));
    assert_eq!(frame.env.read(PropertyKey::Connection), Some(&PropValue::Null));
    assert_eq!(
        frame.env.read(PropertyKey::OrientationType),
        Some(&PropValue::Text(String::from("portrait-primary")))
    );
    assert_eq!(frame.env.read(PropertyKey::DevicePixelRatio), Some(&PropValue::Num(3)));
    assert_eq!(frame.env.read(PropertyKey::OuterHeight), Some(&PropValue::Num(0)));
    assert_eq!(frame.env.read(PropertyKey::OuterWidth), Some(&PropValue::Num(0)));
    assert!(frame.webgl_spoofed);
}

#[test]
fn current_generation_keeps_outer_metrics() {
    let mut frame = FrameState { env: desktop_env(), webgl_spoofed: false };
    run_script(ProfileGeneration::Current, VENDOR, &mut frame);
    assert_eq!(frame.env.read(PropertyKey::OuterHeight), Some(&PropValue::Num(1080)));
    assert_eq!(frame.env.read(PropertyKey::OuterWidth), Some(&PropValue::Num(1920)));
    assert_eq!(
        frame.env.read(PropertyKey::Platform),
        Some(&PropValue::Text(String::from("iPhone")))
    );
    assert!(frame.webgl_spoofed);
}

#[test]
fn early_generation_skips_webgl() {
    let mut frame = FrameState { env: desktop_env(), webgl_spoofed: false };
    run_script(ProfileGeneration::Early, VENDOR, &mut frame);
    assert!(!frame.webgl_spoofed);
    assert_eq!(frame.env.read(PropertyKey::ScreenWidth), Some(&PropValue::Num(393)));
}

#[test]
fn rerunning_installer_changes_nothing_more() {
    let mut frame = FrameState { env: desktop_env(), webgl_spoofed: false };
    run_script(ProfileGeneration::Full, VENDOR, &mut frame);
    let after_once = snapshot(&frame.env);
    let webgl_once = frame.webgl_spoofed;
    run_script(ProfileGeneration::Full, VENDOR, &mut frame);
    assert_eq!(snapshot(&frame.env), after_once);
    assert_eq!(frame.webgl_spoofed, webgl_once);
}

#[test]
fn missing_property_is_skipped_silently() {
    let mut env = desktop_env();
    env.connection = None;
    env.orientation_type = None;
    let mut frame = FrameState { env, webgl_spoofed: false };
    run_script(ProfileGeneration::Full, VENDOR, &mut frame);
    // the absent entries stay absent ...
    assert_eq!(frame.env.read(PropertyKey::Connection), None);
    assert_eq!(frame.env.read(PropertyKey::OrientationType), None);
    // ... and their siblings are still installed
    assert_eq!(
        frame.env.read(PropertyKey::Platform),
        Some(&PropValue::Text(String::from("iPhone")))
    );
    assert_eq!(frame.env.read(PropertyKey::DevicePixelRatio), Some(&PropValue::Num(3)));
}

#[test]
fn install_replaces_only_present_properties() {
    let mut env = desktop_env();
    env.install(PropertyKey::ScreenWidth, PropValue::Num(393));
    assert_eq!(env.read(PropertyKey::ScreenWidth), Some(&PropValue::Num(393)));
    let mut sparse = desktop_env();
    sparse.user_agent_data = None;
    sparse.install(PropertyKey::UserAgentData, PropValue::Null);
    assert_eq!(sparse.read(PropertyKey::UserAgentData), None);
}

#[test]
fn catalog_generations_differ_as_specified() {
    let early = catalog_for(ProfileGeneration::Early);
    let full = catalog_for(ProfileGeneration::Full);
    let current = catalog_for(ProfileGeneration::Current);
    assert_eq!(early.len(), 12);
    assert_eq!(full.len(), 14);
    assert_eq!(current.len(), 12);
    assert_eq!(full[12].key, PropertyKey::OuterHeight);
    assert_eq!(full[12].value, PropValue::Num(0));
    assert_eq!(full[13].key, PropertyKey::OuterWidth);
    assert_eq!(full[13].value, PropValue::Num(0));
    assert!(!webgl_in_generation(ProfileGeneration::Early));
    assert!(webgl_in_generation(ProfileGeneration::Full));
    assert!(webgl_in_generation(ProfileGeneration::Current));
}

// A synthetic page at the vendor origin that runs
// `document.title = navigator.platform` sees the spoofed platform; the same
// markup anywhere else sees the genuine one.
#[test]
fn end_to_end_title_reflects_origin() {
    let title_of = |origin: &str| -> String {
        let mut frame = FrameState { env: desktop_env(), webgl_spoofed: false };
        run_script(ProfileGeneration::Full, origin, &mut frame);
        match frame.env.read(PropertyKey::Platform) {
            Some(PropValue::Text(s)) => s.clone(),
            _ => panic!("platform property missing"),
        }
    };
    assert_eq!(title_of(VENDOR), "iPhone");
    assert_eq!(title_of(OTHER), "Linux x86_64");
}
