//! Skin defaults: which game-mode/mod combination a saved skin is used for.

use vstd::prelude::*;

verus! {

/// The mod combination a skin is the default for; `NODEFAULT` marks a skin
/// that is the default for nothing.
#[allow(non_camel_case_types)]
#[derive(Debug, Clone, Copy, PartialEq, Eq, Structural)]
pub enum DEFAULTS {
    DEFAULT,
    NM,
    HD,
    DT,
    HR,
    EZ,
    HDDT,
    HDHR,
    NODEFAULT,
}

/// The name users see for each choice.
pub open spec fn spec_default_name(d: DEFAULTS) -> Seq<char> {
    match d {
        DEFAULTS::DEFAULT => "Default"@,
        DEFAULTS::NM => "NM"@,
        DEFAULTS::HD => "HD"@,
        DEFAULTS::DT => "DT"@,
        DEFAULTS::HR => "HR"@,
        DEFAULTS::EZ => "EZ"@,
        DEFAULTS::HDDT => "HDDT"@,
        DEFAULTS::HDHR => "HDHR"@,
        DEFAULTS::NODEFAULT => "No default"@,
    }
}

impl DEFAULTS {
    /// The name users see for this choice.
    pub fn name(&self) -> (n: &'static str)
        ensures
            n@ == spec_default_name(*self),
    {
        match self {
            DEFAULTS::DEFAULT => "Default",
            DEFAULTS::NM => "NM",
            DEFAULTS::HD => "HD",
            DEFAULTS::DT => "DT",
            DEFAULTS::HR => "HR",
            DEFAULTS::EZ => "EZ",
            DEFAULTS::HDDT => "HDDT",
            DEFAULTS::HDHR => "HDHR",
            DEFAULTS::NODEFAULT => "No default",
        }
    }
}

} // verus!
