//! The override installer and its activation guard.
//!
//! The injected script runs once per loaded document. It activates only when
//! the document origin equals the anti-bot vendor's origin; it then walks the
//! override table, shadowing each property the engine exposes, and wraps the
//! WebGL introspection methods if the catalog generation calls for that. A
//! document at any other origin is left untouched, so the host application's
//! own pages observe the genuine device.

use vstd::prelude::*;
use crate::catalog::{
    catalog_for, catalog_spec, entries_of, spec_webgl_in_generation, webgl_in_generation,
    OverrideEntry, ProfileGeneration,
};
use crate::environment::{apply_entry, AbstractValue, Environment, PropertyKey};
use crate::vendor_origin;
use crate::vendor_origin_str;

verus! {

/// Installing a whole table is folding `apply_entry` over its rows, first row
/// first.
pub open spec fn apply_catalog(
    m: Map<PropertyKey, AbstractValue>,
    entries: Seq<(PropertyKey, AbstractValue)>,
) -> Map<PropertyKey, AbstractValue>
    decreases entries.len(),
{
    if entries.len() == 0 {
        m
    } else {
        apply_entry(apply_catalog(m, entries.drop_last()), entries.last().0, entries.last().1)
    }
}

/// The last value a table writes to `key`, if any row targets it.
pub open spec fn last_written(
    entries: Seq<(PropertyKey, AbstractValue)>,
    key: PropertyKey,
) -> Option<AbstractValue>
    decreases entries.len(),
{
    if entries.len() == 0 {
        None
    } else if entries.last().0 == key {
        Some(entries.last().1)
    } else {
        last_written(entries.drop_last(), key)
    }
}

/// Installing a table never adds or removes properties, and leaves a property
/// at the last value the table writes to it — or untouched when no row
/// targets it.
pub proof fn lemma_apply_catalog_pointwise(
    m: Map<PropertyKey, AbstractValue>,
    entries: Seq<(PropertyKey, AbstractValue)>,
)
    ensures
        forall|key: PropertyKey|
            apply_catalog(m, entries).contains_key(key) == m.contains_key(key),
        forall|key: PropertyKey|
            m.contains_key(key) ==> #[trigger] apply_catalog(m, entries)[key] == (match last_written(
                entries,
                key,
            ) {
                Some(v) => v,
                None => m[key],
            }),
    decreases entries.len(),
{
    if entries.len() > 0 {
        lemma_apply_catalog_pointwise(m, entries.drop_last());
    }
}

/// The document state a fingerprinting page can observe: its property surface
/// and whether the WebGL introspection methods have been wrapped.
#[derive(Debug)]
pub struct FrameState {
    pub env: Environment,
    pub webgl_spoofed: bool,
}

/// What one run of the script does to the property surface: the whole catalog
/// is applied at the vendor origin, nothing anywhere else.
pub open spec fn install_model(
    gen: ProfileGeneration,
    origin: Seq<char>,
    m: Map<PropertyKey, AbstractValue>,
) -> Map<PropertyKey, AbstractValue> {
    if origin == vendor_origin() {
        apply_catalog(m, catalog_spec(gen))
    } else {
        m
    }
}

/// What one run of the script does to the WebGL wrap flag.
pub open spec fn webgl_model(gen: ProfileGeneration, origin: Seq<char>, prev: bool) -> bool {
    if origin == vendor_origin() && spec_webgl_in_generation(gen) {
        true
    } else {
        prev
    }
}

/// The activation guard: the overrides go in only when the document origin
/// is exactly the vendor's.
pub fn origin_is_vendor(origin: &str) -> (r: bool)
    ensures
        r == (origin@ == vendor_origin()),
{
    let o = String::from_str(origin);
    let v = String::from_str(vendor_origin_str());
    o == v
}

/// Walk an override table and install every row, each row independently of
/// its siblings.
pub fn install_catalog(env: &mut Environment, table: &Vec<OverrideEntry>)
    ensures
        final(env)@ == apply_catalog(old(env)@, entries_of(table@)),
{
    let ghost all = entries_of(table@);
    let mut i: usize = 0;
    while i < table.len()
        invariant
            i <= table.len(),
            all == entries_of(table@),
            env@ == apply_catalog(old(env)@, all.take(i as int)),
        decreases table.len() - i,
    {
        let entry = &table[i];
        env.install(entry.key, entry.value.clone());
        proof {
            assert(all.take(i + 1).drop_last() =~= all.take(i as int));
            assert(all.take(i + 1).last() == all[i as int]);
        }
        i = i + 1;
    }
    proof {
        assert(all.take(table@.len() as int) =~= all);
    }
}

/// One run of the injected script over one document: check the origin, and
/// if it is the vendor's, install the generation's catalog and wrap WebGL
/// where the generation says so.
pub fn run_script(gen: ProfileGeneration, origin: &str, frame: &mut FrameState)
    ensures
        final(frame).env@ == install_model(gen, origin@, old(frame).env@),
        final(frame).webgl_spoofed == webgl_model(gen, origin@, old(frame).webgl_spoofed),
{
    if origin_is_vendor(origin) {
        let table = catalog_for(gen);
        install_catalog(&mut frame.env, &table);
        if webgl_in_generation(gen) {
            frame.webgl_spoofed = true;
        }
    }
}

/// At any origin other than the vendor's, a run of the script changes
/// nothing: every property keeps the engine's genuine value.
pub proof fn lemma_inactive_run_is_identity(
    gen: ProfileGeneration,
    origin: Seq<char>,
    m: Map<PropertyKey, AbstractValue>,
    webgl: bool,
)
    requires
        origin != vendor_origin(),
    ensures
        install_model(gen, origin, m) == m,
        webgl_model(gen, origin, webgl) == webgl,
{
}

/// A run of the script never adds a property the engine does not expose and
/// never removes one it does: only values change.
pub proof fn lemma_run_preserves_properties(
    gen: ProfileGeneration,
    origin: Seq<char>,
    m: Map<PropertyKey, AbstractValue>,
)
    ensures
        forall|key: PropertyKey|
            install_model(gen, origin, m).contains_key(key) == m.contains_key(key),
{
    if origin == vendor_origin() {
        lemma_apply_catalog_pointwise(m, catalog_spec(gen));
    }
}

/// At the vendor origin, a document whose engine exposes the platform and
/// screen metrics reports the reference profile afterwards — whatever the
/// genuine values were.
pub proof fn lemma_active_run_reports_reference_profile(
    gen: ProfileGeneration,
    m: Map<PropertyKey, AbstractValue>,
)
    requires
        m.contains_key(PropertyKey::Platform),
        m.contains_key(PropertyKey::ScreenWidth),
        m.contains_key(PropertyKey::ScreenHeight),
    ensures
        install_model(gen, vendor_origin(), m)[PropertyKey::Platform] == AbstractValue::Text(
            "iPhone"@,
        ),
        install_model(gen, vendor_origin(), m)[PropertyKey::ScreenWidth] == AbstractValue::Num(
            393,
        ),
        install_model(gen, vendor_origin(), m)[PropertyKey::ScreenHeight] == AbstractValue::Num(
            852,
        ),
{
    lemma_apply_catalog_pointwise(m, catalog_spec(gen));
    reveal_with_fuel(last_written, 16);
    assert(last_written(catalog_spec(gen), PropertyKey::Platform) == Some(
        AbstractValue::Text("iPhone"@),
    ));
    assert(last_written(catalog_spec(gen), PropertyKey::ScreenWidth) == Some(
        AbstractValue::Num(393u64),
    ));
    assert(last_written(catalog_spec(gen), PropertyKey::ScreenHeight) == Some(
        AbstractValue::Num(852u64),
    ));
}

/// At the vendor origin, every row of the generation's catalog is installed:
/// each property the engine exposes reports its reference value afterwards.
/// The outer window metrics are zeroed by the one generation whose catalog
/// has rows for them and are left genuine by the others.
pub proof fn lemma_active_run_installs_whole_catalog(
    gen: ProfileGeneration,
    m: Map<PropertyKey, AbstractValue>,
)
    ensures
        ({
            let out = install_model(gen, vendor_origin(), m);
            &&& m.contains_key(PropertyKey::HardwareConcurrency) ==> out[
                PropertyKey::HardwareConcurrency] == AbstractValue::Num(4)
            &&& m.contains_key(PropertyKey::UserAgentData) ==> out[PropertyKey::UserAgentData]
                == AbstractValue::Null
            &&& m.contains_key(PropertyKey::Platform) ==> out[PropertyKey::Platform]
                == AbstractValue::Text("iPhone"@)
            &&& m.contains_key(PropertyKey::Connection) ==> out[PropertyKey::Connection]
                == AbstractValue::Null
            &&& m.contains_key(PropertyKey::ScreenHeight) ==> out[PropertyKey::ScreenHeight]
                == AbstractValue::Num(852)
            &&& m.contains_key(PropertyKey::ScreenWidth) ==> out[PropertyKey::ScreenWidth]
                == AbstractValue::Num(393)
            &&& m.contains_key(PropertyKey::ScreenAvailHeight) ==> out[
                PropertyKey::ScreenAvailHeight] == AbstractValue::Num(852)
            &&& m.contains_key(PropertyKey::ScreenAvailWidth) ==> out[
                PropertyKey::ScreenAvailWidth] == AbstractValue::Num(393)
            &&& m.contains_key(PropertyKey::ScreenPixelDepth) ==> out[
                PropertyKey::ScreenPixelDepth] == AbstractValue::Num(24)
            &&& m.contains_key(PropertyKey::ScreenColorDepth) ==> out[
                PropertyKey::ScreenColorDepth] == AbstractValue::Num(24)
            &&& m.contains_key(PropertyKey::OrientationType) ==> out[PropertyKey::OrientationType]
                == AbstractValue::Text("portrait-primary"@)
            &&& m.contains_key(PropertyKey::DevicePixelRatio) ==> out[
                PropertyKey::DevicePixelRatio] == AbstractValue::Num(3)
            &&& m.contains_key(PropertyKey::OuterHeight) ==> out[PropertyKey::OuterHeight] == (
            if gen is Full {
                AbstractValue::Num(0)
            } else {
                m[PropertyKey::OuterHeight]
            })
            &&& m.contains_key(PropertyKey::OuterWidth) ==> out[PropertyKey::OuterWidth] == (
            if gen is Full {
                AbstractValue::Num(0)
            } else {
                m[PropertyKey::OuterWidth]
            })
        }),
{
    lemma_apply_catalog_pointwise(m, catalog_spec(gen));
    reveal_with_fuel(last_written, 16);
}

/// Running the script a second time in the same document changes nothing
/// more: the observable values after two runs equal those after one.
pub proof fn lemma_run_idempotent(
    gen: ProfileGeneration,
    origin: Seq<char>,
    m: Map<PropertyKey, AbstractValue>,
    webgl: bool,
)
    ensures
        install_model(gen, origin, install_model(gen, origin, m)) == install_model(
            gen,
            origin,
            m,
        ),
        webgl_model(gen, origin, webgl_model(gen, origin, webgl)) == webgl_model(
            gen,
            origin,
            webgl,
        ),
{
    if origin == vendor_origin() {
        let entries = catalog_spec(gen);
        let once = apply_catalog(m, entries);
        let twice = apply_catalog(once, entries);
        lemma_apply_catalog_pointwise(m, entries);
        lemma_apply_catalog_pointwise(once, entries);
        assert(twice =~= once);
    }
}

} // verus!
