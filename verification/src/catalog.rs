//! The reference device profile: a versioned table of property overrides.
//!
//! The catalog is configuration data, not code. Each generation of the
//! injected script shipped a different table: the first covered only
//! navigator and screen properties, a later one added the WebGL overrides and
//! zeroed the outer window metrics, and the current one keeps WebGL but drops
//! the outer metrics again. The installer is the same for all of them.

use vstd::prelude::*;
use crate::environment::{AbstractValue, PropertyKey, PropValue};

verus! {

/// One row of the override table: which property to shadow and the fixed
/// value its replacement getter returns.
#[derive(Debug)]
pub struct OverrideEntry {
    pub key: PropertyKey,
    pub value: PropValue,
}

/// The generations of the override catalog.
#[derive(Clone, Copy, PartialEq, Eq, Structural, Debug)]
pub enum ProfileGeneration {
    /// Navigator and screen properties only; no WebGL overrides.
    Early,
    /// Adds the WebGL overrides and zeroes `outerHeight`/`outerWidth`.
    Full,
    /// Keeps the WebGL overrides, drops the outer window metrics.
    Current,
}

/// The abstract content of a sequence of override entries.
pub open spec fn entries_of(s: Seq<OverrideEntry>) -> Seq<(PropertyKey, AbstractValue)> {
    s.map_values(|e: OverrideEntry| (e.key, e.value@))
}

/// The navigator/screen rows shared by every catalog generation: the values a
/// reference iPhone reports.
pub open spec fn base_catalog_spec() -> Seq<(PropertyKey, AbstractValue)> {
    seq![
        (PropertyKey::HardwareConcurrency, AbstractValue::Num(4)),
        (PropertyKey::UserAgentData, AbstractValue::Null),
        (PropertyKey::Platform, AbstractValue::Text("iPhone"@)),
        (PropertyKey::Connection, AbstractValue::Null),
        (PropertyKey::ScreenHeight, AbstractValue::Num(852)),
        (PropertyKey::ScreenWidth, AbstractValue::Num(393)),
        (PropertyKey::ScreenAvailHeight, AbstractValue::Num(852)),
        (PropertyKey::ScreenAvailWidth, AbstractValue::Num(393)),
        (PropertyKey::ScreenPixelDepth, AbstractValue::Num(24)),
        (PropertyKey::ScreenColorDepth, AbstractValue::Num(24)),
        (PropertyKey::OrientationType, AbstractValue::Text("portrait-primary"@)),
        (PropertyKey::DevicePixelRatio, AbstractValue::Num(3)),
    ]
}

/// The override table of one catalog generation.
pub open spec fn catalog_spec(gen: ProfileGeneration) -> Seq<(PropertyKey, AbstractValue)> {
    match gen {
        ProfileGeneration::Early => base_catalog_spec(),
        ProfileGeneration::Full => base_catalog_spec() + seq![
            (PropertyKey::OuterHeight, AbstractValue::Num(0)),
            (PropertyKey::OuterWidth, AbstractValue::Num(0)),
        ],
        ProfileGeneration::Current => base_catalog_spec(),
    }
}

/// Whether a generation also wraps the WebGL introspection methods.
pub open spec fn spec_webgl_in_generation(gen: ProfileGeneration) -> bool {
    match gen {
        ProfileGeneration::Early => false,
        ProfileGeneration::Full => true,
        ProfileGeneration::Current => true,
    }
}

/// Whether a generation also wraps the WebGL introspection methods.
pub fn webgl_in_generation(gen: ProfileGeneration) -> (r: bool)
    ensures
        r == spec_webgl_in_generation(gen),
{
    match gen {
        ProfileGeneration::Early => false,
        ProfileGeneration::Full => true,
        ProfileGeneration::Current => true,
    }
}

/// Build the override table of one generation, row for row.
pub fn catalog_for(gen: ProfileGeneration) -> (r: Vec<OverrideEntry>)
    ensures
        entries_of(r@) == catalog_spec(gen),
{
    let mut r: Vec<OverrideEntry> = Vec::new();
    r.push(OverrideEntry {
        key: PropertyKey::HardwareConcurrency,
        value: PropValue::Num(4),
    });
    r.push(OverrideEntry { key: PropertyKey::UserAgentData, value: PropValue::Null });
    r.push(OverrideEntry {
        key: PropertyKey::Platform,
        value: PropValue::Text(String::from_str("iPhone")),
    });
    r.push(OverrideEntry { key: PropertyKey::Connection, value: PropValue::Null });
    r.push(OverrideEntry { key: PropertyKey::ScreenHeight, value: PropValue::Num(852) });
    r.push(OverrideEntry { key: PropertyKey::ScreenWidth, value: PropValue::Num(393) });
    r.push(OverrideEntry { key: PropertyKey::ScreenAvailHeight, value: PropValue::Num(852) });
    r.push(OverrideEntry { key: PropertyKey::ScreenAvailWidth, value: PropValue::Num(393) });
    r.push(OverrideEntry { key: PropertyKey::ScreenPixelDepth, value: PropValue::Num(24) });
    r.push(OverrideEntry { key: PropertyKey::ScreenColorDepth, value: PropValue::Num(24) });
    r.push(OverrideEntry {
        key: PropertyKey::OrientationType,
        value: PropValue::Text(String::from_str("portrait-primary")),
    });
    r.push(OverrideEntry { key: PropertyKey::DevicePixelRatio, value: PropValue::Num(3) });
    if matches!(gen, ProfileGeneration::Full) {
        r.push(OverrideEntry { key: PropertyKey::OuterHeight, value: PropValue::Num(0) });
        r.push(OverrideEntry { key: PropertyKey::OuterWidth, value: PropValue::Num(0) });
        proof {
            assert(entries_of(r@) =~= catalog_spec(gen));
        }
    } else {
        proof {
            assert(entries_of(r@) =~= catalog_spec(gen));
        }
    }
    r
}

/// The user-agent string the host shell must send alongside the catalog, so
/// that the outbound header and the spoofed properties describe one device.
pub open spec fn spec_reference_user_agent() -> Seq<char> {
    "Mozilla/5.0 (iPhone; CPU iPhone OS 19_0 like Mac OS X) AppleWebKit/605.1.15 (KHTML, like Gecko) Mobile/15E148"@
}

/// The user-agent string the host shell must send alongside the catalog.
pub fn reference_user_agent() -> (r: &'static str)
    ensures
        r@ == spec_reference_user_agent(),
{
    "Mozilla/5.0 (iPhone; CPU iPhone OS 19_0 like Mac OS X) AppleWebKit/605.1.15 (KHTML, like Gecko) Mobile/15E148"
}

} // verus!
