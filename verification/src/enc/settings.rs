//! The properties of the encoder.

use vstd::prelude::*;

verus! {

pub const DEFAULT_BPS: u32 = 4_000_000;

pub const MIN_BPS: u32 = 0;

pub const MAX_BPS: u32 = 100_000_000;

pub const DEFAULT_GOP: i32 = 60;

pub const MIN_GOP: i32 = -1;

pub const MAX_GOP: i32 = 1000;

/// The encoder's settings.
#[derive(Clone, Copy, PartialEq, Eq, Debug)]
pub struct Settings {
    /// Target bitrate in bits per second; 0 chooses it from size and frame rate.
    pub bps: u32,
    /// Frames in a group of pictures; a negative number makes it one second.
    pub gop: i32,
}

/// The value of a property.
#[derive(Clone, Copy, PartialEq, Eq, Debug)]
pub enum PropertyValue {
    UInt(u32),
    Int(i32),
}

impl Default for Settings {
    fn default() -> (settings: Settings)
        ensures
            settings == (Settings { bps: DEFAULT_BPS, gop: DEFAULT_GOP }),
    {
        Settings { bps: DEFAULT_BPS, gop: DEFAULT_GOP }
    }
}

/// Whether the two strings hold the same characters.
fn same(a: &str, b: &str) -> (r: bool)
    ensures
        r == (a@ == b@),
{
    a.to_owned() == b.to_owned()
}

/// The two properties have different names.
proof fn lemma_names_differ()
    ensures
        "bps"@ != "gop"@,
{
    reveal_strlit("bps");
    reveal_strlit("gop");
    assert("bps"@[0] != "gop"@[0]);
}

impl Settings {
    /// Whether the settings are in the range that the properties declare.
    pub open spec fn in_range(self) -> bool {
        MIN_BPS <= self.bps <= MAX_BPS && MIN_GOP <= self.gop <= MAX_GOP
    }

    /// Whether there is a property of this name that takes this value.
    pub open spec fn takes(name: Seq<char>, value: PropertyValue) -> bool {
        ||| name == "bps"@ && value is UInt
        ||| name == "gop"@ && value is Int
    }

    /// The settings after a property was set.
    pub open spec fn with(self, name: Seq<char>, value: PropertyValue) -> Settings {
        if name == "bps"@ {
            Settings { bps: value->UInt_0, ..self }
        } else {
            Settings { gop: value->Int_0, ..self }
        }
    }

    /// The value of a property.
    pub open spec fn value_of(self, name: Seq<char>) -> PropertyValue {
        if name == "bps"@ {
            PropertyValue::UInt(self.bps)
        } else {
            PropertyValue::Int(self.gop)
        }
    }

    pub fn set_property(&mut self, name: &str, value: PropertyValue)
        requires
            Settings::takes(name@, value),
        ensures
            *final(self) == old(self).with(name@, value),
    {
        proof {
            lemma_names_differ();
        }
        match value {
            PropertyValue::UInt(bps) => {
                self.bps = bps;
            },
            PropertyValue::Int(gop) => {
                self.gop = gop;
            },
        }
    }

    pub fn property(&self, name: &str) -> (value: PropertyValue)
        requires
            name@ == "bps"@ || name@ == "gop"@,
        ensures
            value == self.value_of(name@),
    {
        if same(name, "bps") {
            PropertyValue::UInt(self.bps)
        } else {
            PropertyValue::Int(self.gop)
        }
    }
}

/// The default settings are in the declared range.
pub proof fn law_defaults_in_range()
    ensures
        (Settings { bps: DEFAULT_BPS, gop: DEFAULT_GOP }).in_range(),
{
}

/// A property that was set reads as what it was set to, and the other one as before.
pub proof fn law_property_reads_back(settings: Settings, name: Seq<char>, value: PropertyValue, other: Seq<char>)
    requires
        Settings::takes(name, value),
        other == "bps"@ || other == "gop"@,
    ensures
        settings.with(name, value).value_of(name) == value,
        other != name ==> settings.with(name, value).value_of(other) == settings.value_of(other),
{
    lemma_names_differ();
}

/// Each property is the setting of its name: setting it changes that one and no other, to any value, and
/// reading it gives that one.
pub proof fn law_properties_are_the_settings(settings: Settings, bps: u32, gop: i32)
    ensures
        settings.with("bps"@, PropertyValue::UInt(bps)) == (Settings { bps, gop: settings.gop }),
        settings.with("gop"@, PropertyValue::Int(gop)) == (Settings { bps: settings.bps, gop }),
        settings.value_of("bps"@) == PropertyValue::UInt(settings.bps),
        settings.value_of("gop"@) == PropertyValue::Int(settings.gop),
        Settings::takes("bps"@, PropertyValue::UInt(bps)),
        Settings::takes("gop"@, PropertyValue::Int(gop)),
        settings.in_range() <==> settings.bps <= 100_000_000 && -1 <= settings.gop <= 1000,
{
    lemma_names_differ();
}

} // verus!
