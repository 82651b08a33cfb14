//! The closed set of stage kinds.

use vstd::prelude::*;

verus! {

/// The kind of a stage. Each kind has a four-character signature.
#[derive(Debug, Clone, Copy, PartialEq, Eq, Hash, Structural)]
pub enum StageType {
    /// `cvst`
    CurveSet,
    /// `matf`
    Matrix,
    /// `clut`
    CLut,
    /// `bACS`
    BAcs,
    /// `eACS`
    EAcs,
    /// `l2x `
    XYZ2Lab,
    /// `x2l `
    Lab2XYZ,
    /// `ncl `
    NamedColor,
    /// `2 4 `
    LabV2toV4,
    /// `4 2 `
    LabV4toV2,
    /// `idn `
    Identity,
    /// `d2l `
    Lab2FloatPCS,
    /// `l2d `
    FloatPCS2Lab,
    /// `d2x `
    XYZ2FloatPCS,
    /// `x2d `
    FloatPCS2XYZ,
    /// `clp `
    ClipNegatives,
}

impl StageType {
    /// The signature of a kind: its four ASCII characters, big-endian.
    pub open spec fn signature_spec(self) -> u32 {
        match self {
            StageType::CurveSet => 0x63767374,
            StageType::Matrix => 0x6D617466,
            StageType::CLut => 0x636C7574,
            StageType::BAcs => 0x62414353,
            StageType::EAcs => 0x65414353,
            StageType::XYZ2Lab => 0x6C327820,
            StageType::Lab2XYZ => 0x78326C20,
            StageType::NamedColor => 0x6E636C20,
            StageType::LabV2toV4 => 0x32203420,
            StageType::LabV4toV2 => 0x34203220,
            StageType::Identity => 0x69646E20,
            StageType::Lab2FloatPCS => 0x64326C20,
            StageType::FloatPCS2Lab => 0x6C326420,
            StageType::XYZ2FloatPCS => 0x64327820,
            StageType::FloatPCS2XYZ => 0x78326420,
            StageType::ClipNegatives => 0x636c7020,
        }
    }

    /// Returns the signature of this kind.
    pub fn signature(self) -> (sig: u32)
        ensures
            sig == self.signature_spec(),
    {
        match self {
            StageType::CurveSet => 0x63767374,
            StageType::Matrix => 0x6D617466,
            StageType::CLut => 0x636C7574,
            StageType::BAcs => 0x62414353,
            StageType::EAcs => 0x65414353,
            StageType::XYZ2Lab => 0x6C327820,
            StageType::Lab2XYZ => 0x78326C20,
            StageType::NamedColor => 0x6E636C20,
            StageType::LabV2toV4 => 0x32203420,
            StageType::LabV4toV2 => 0x34203220,
            StageType::Identity => 0x69646E20,
            StageType::Lab2FloatPCS => 0x64326C20,
            StageType::FloatPCS2Lab => 0x6C326420,
            StageType::XYZ2FloatPCS => 0x64327820,
            StageType::FloatPCS2XYZ => 0x78326420,
            StageType::ClipNegatives => 0x636c7020,
        }
    }
}

} // verus!
