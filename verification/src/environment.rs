//! The observable property surface of one loaded document.
//!
//! A document's environment is the set of read-only browser properties that a
//! fingerprinting page can inspect: navigator, screen, orientation and window
//! metrics. Each property either exists in the hosting engine (with a current
//! value) or is absent. Installing an override replaces the value of a
//! property that exists and silently does nothing for one that does not, so
//! that each catalog entry is independent of its siblings.

use vstd::prelude::*;

verus! {

/// Identifies one overridable property of the document environment.
#[derive(Clone, Copy, PartialEq, Eq, Structural, Debug)]
pub enum PropertyKey {
    /// `navigator.hardwareConcurrency`
    HardwareConcurrency,
    /// `navigator.userAgentData`
    UserAgentData,
    /// `navigator.platform`
    Platform,
    /// `navigator.connection`
    Connection,
    /// `screen.height`
    ScreenHeight,
    /// `screen.width`
    ScreenWidth,
    /// `screen.availHeight`
    ScreenAvailHeight,
    /// `screen.availWidth`
    ScreenAvailWidth,
    /// `screen.pixelDepth`
    ScreenPixelDepth,
    /// `screen.colorDepth`
    ScreenColorDepth,
    /// `screen.orientation.type`
    OrientationType,
    /// `window.devicePixelRatio`
    DevicePixelRatio,
    /// `window.outerHeight`
    OuterHeight,
    /// `window.outerWidth`
    OuterWidth,
}

/// The value a property currently reports: a number, a string, or `null`.
#[derive(Debug, PartialEq, Eq)]
pub enum PropValue {
    Num(u64),
    Text(String),
    Null,
}

impl Clone for PropValue {
    fn clone(&self) -> (r: Self)
        ensures
            r == *self,
    {
        match self {
            PropValue::Num(n) => PropValue::Num(*n),
            PropValue::Text(s) => PropValue::Text(s.clone()),
            PropValue::Null => PropValue::Null,
        }
    }
}

/// The mathematical value of a property: numbers stay numbers, strings are
/// their character sequences, and `null` is its own value.
#[verifier::ext_equal]
pub enum AbstractValue {
    Num(u64),
    Text(Seq<char>),
    Null,
}

impl View for PropValue {
    type V = AbstractValue;

    open spec fn view(&self) -> AbstractValue {
        match self {
            PropValue::Num(n) => AbstractValue::Num(*n),
            PropValue::Text(s) => AbstractValue::Text(s@),
            PropValue::Null => AbstractValue::Null,
        }
    }
}

/// One document's observable properties. A field holding `None` models a
/// property that the hosting engine does not expose at all.
#[derive(Debug)]
pub struct Environment {
    pub hardware_concurrency: Option<PropValue>,
    pub user_agent_data: Option<PropValue>,
    pub platform: Option<PropValue>,
    pub connection: Option<PropValue>,
    pub screen_height: Option<PropValue>,
    pub screen_width: Option<PropValue>,
    pub screen_avail_height: Option<PropValue>,
    pub screen_avail_width: Option<PropValue>,
    pub screen_pixel_depth: Option<PropValue>,
    pub screen_color_depth: Option<PropValue>,
    pub orientation_type: Option<PropValue>,
    pub device_pixel_ratio: Option<PropValue>,
    pub outer_height: Option<PropValue>,
    pub outer_width: Option<PropValue>,
}

/// The field of `e` that `key` names.
pub open spec fn spec_prop(e: Environment, key: PropertyKey) -> Option<PropValue> {
    match key {
        PropertyKey::HardwareConcurrency => e.hardware_concurrency,
        PropertyKey::UserAgentData => e.user_agent_data,
        PropertyKey::Platform => e.platform,
        PropertyKey::Connection => e.connection,
        PropertyKey::ScreenHeight => e.screen_height,
        PropertyKey::ScreenWidth => e.screen_width,
        PropertyKey::ScreenAvailHeight => e.screen_avail_height,
        PropertyKey::ScreenAvailWidth => e.screen_avail_width,
        PropertyKey::ScreenPixelDepth => e.screen_pixel_depth,
        PropertyKey::ScreenColorDepth => e.screen_color_depth,
        PropertyKey::OrientationType => e.orientation_type,
        PropertyKey::DevicePixelRatio => e.device_pixel_ratio,
        PropertyKey::OuterHeight => e.outer_height,
        PropertyKey::OuterWidth => e.outer_width,
    }
}

impl View for Environment {
    type V = Map<PropertyKey, AbstractValue>;

    /// A document environment is, mathematically, the partial map from the
    /// properties the engine exposes to their current abstract values.
    open spec fn view(&self) -> Map<PropertyKey, AbstractValue> {
        Map::new(
            |key: PropertyKey| spec_prop(*self, key) is Some,
            |key: PropertyKey| spec_prop(*self, key)->0@,
        )
    }
}

/// What installing one override does to an environment: replace the value of
/// a property the engine exposes, and change nothing for one it does not.
pub open spec fn apply_entry(
    m: Map<PropertyKey, AbstractValue>,
    key: PropertyKey,
    value: AbstractValue,
) -> Map<PropertyKey, AbstractValue> {
    if m.contains_key(key) {
        m.insert(key, value)
    } else {
        m
    }
}

impl Environment {
    /// Read a property as a page script would; `None` means the engine does
    /// not expose it.
    pub fn read(&self, key: PropertyKey) -> (r: Option<&PropValue>)
        ensures
            match r {
                Some(v) => self@.contains_key(key) && v@ == self@[key],
                None => !self@.contains_key(key),
            },
    {
        let r = match key {
            PropertyKey::HardwareConcurrency => self.hardware_concurrency.as_ref(),
            PropertyKey::UserAgentData => self.user_agent_data.as_ref(),
            PropertyKey::Platform => self.platform.as_ref(),
            PropertyKey::Connection => self.connection.as_ref(),
            PropertyKey::ScreenHeight => self.screen_height.as_ref(),
            PropertyKey::ScreenWidth => self.screen_width.as_ref(),
            PropertyKey::ScreenAvailHeight => self.screen_avail_height.as_ref(),
            PropertyKey::ScreenAvailWidth => self.screen_avail_width.as_ref(),
            PropertyKey::ScreenPixelDepth => self.screen_pixel_depth.as_ref(),
            PropertyKey::ScreenColorDepth => self.screen_color_depth.as_ref(),
            PropertyKey::OrientationType => self.orientation_type.as_ref(),
            PropertyKey::DevicePixelRatio => self.device_pixel_ratio.as_ref(),
            PropertyKey::OuterHeight => self.outer_height.as_ref(),
            PropertyKey::OuterWidth => self.outer_width.as_ref(),
        };
        r
    }

    /// Install one override: shadow the property with a getter that returns
    /// `value`, if the engine exposes the property; otherwise fail silently.
    pub fn install(&mut self, key: PropertyKey, value: PropValue)
        ensures
            final(self)@ == apply_entry(old(self)@, key, value@),
    {
        match key {
            PropertyKey::HardwareConcurrency => {
                if self.hardware_concurrency.is_some() {
                    self.hardware_concurrency = Some(value);
                }
            },
            PropertyKey::UserAgentData => {
                if self.user_agent_data.is_some() {
                    self.user_agent_data = Some(value);
                }
            },
            PropertyKey::Platform => {
                if self.platform.is_some() {
                    self.platform = Some(value);
                }
            },
            PropertyKey::Connection => {
                if self.connection.is_some() {
                    self.connection = Some(value);
                }
            },
            PropertyKey::ScreenHeight => {
                if self.screen_height.is_some() {
                    self.screen_height = Some(value);
                }
            },
            PropertyKey::ScreenWidth => {
                if self.screen_width.is_some() {
                    self.screen_width = Some(value);
                }
            },
            PropertyKey::ScreenAvailHeight => {
                if self.screen_avail_height.is_some() {
                    self.screen_avail_height = Some(value);
                }
            },
            PropertyKey::ScreenAvailWidth => {
                if self.screen_avail_width.is_some() {
                    self.screen_avail_width = Some(value);
                }
            },
            PropertyKey::ScreenPixelDepth => {
                if self.screen_pixel_depth.is_some() {
                    self.screen_pixel_depth = Some(value);
                }
            },
            PropertyKey::ScreenColorDepth => {
                if self.screen_color_depth.is_some() {
                    self.screen_color_depth = Some(value);
                }
            },
            PropertyKey::OrientationType => {
                if self.orientation_type.is_some() {
                    self.orientation_type = Some(value);
                }
            },
            PropertyKey::DevicePixelRatio => {
                if self.device_pixel_ratio.is_some() {
                    self.device_pixel_ratio = Some(value);
                }
            },
            PropertyKey::OuterHeight => {
                if self.outer_height.is_some() {
                    self.outer_height = Some(value);
                }
            },
            PropertyKey::OuterWidth => {
                if self.outer_width.is_some() {
                    self.outer_width = Some(value);
                }
            },
        }
        proof {
            assert(self@ =~= apply_entry(old(self)@, key, value@));
        }
    }
}

} // verus!
