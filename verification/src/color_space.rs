use vstd::prelude::*;

verus! {

#[allow(clippy::upper_case_acronyms)]
/// An RGB working space: the primaries, white point and companding that give RGB values their meaning.
#[derive(Debug, Clone, Copy, PartialEq, Eq, Structural)]
pub enum RgbWorkingSpace {
    Adobe,
    Apple,
    CIE,
    ECI,
    NTSC,
    PAL,
    ProPhoto,
    SRGB,
    WideGamut,
}

impl Default for RgbWorkingSpace {
    fn default() -> (r: Self)
        ensures
            r == RgbWorkingSpace::SRGB,
    {
        RgbWorkingSpace::SRGB
    }
}

impl RgbWorkingSpace {
    pub open spec fn spec_reference_illuminant(&self) -> Illuminant {
        match self {
            RgbWorkingSpace::Adobe => Illuminant::D65,
            RgbWorkingSpace::Apple => Illuminant::D65,
            RgbWorkingSpace::CIE => Illuminant::E,
            RgbWorkingSpace::ECI => Illuminant::D50,
            RgbWorkingSpace::NTSC => Illuminant::C,
            RgbWorkingSpace::PAL => Illuminant::D65,
            RgbWorkingSpace::ProPhoto => Illuminant::D50,
            RgbWorkingSpace::SRGB => Illuminant::D65,
            RgbWorkingSpace::WideGamut => Illuminant::D50,
        }
    }

    /// The white point of this working space.
    pub fn reference_illuminant(&self) -> (r: Illuminant)
        ensures
            r == self.spec_reference_illuminant(),
    {
        match self {
            RgbWorkingSpace::Adobe => Illuminant::D65,
            RgbWorkingSpace::Apple => Illuminant::D65,
            RgbWorkingSpace::CIE => Illuminant::E,
            RgbWorkingSpace::ECI => Illuminant::D50,
            RgbWorkingSpace::NTSC => Illuminant::C,
            RgbWorkingSpace::PAL => Illuminant::D65,
            RgbWorkingSpace::ProPhoto => Illuminant::D50,
            RgbWorkingSpace::SRGB => Illuminant::D65,
            RgbWorkingSpace::WideGamut => Illuminant::D50,
        }
    }

    pub open spec fn spec_name(&self) -> &'static str {
        match self {
            RgbWorkingSpace::Adobe => "Adobe RGB",
            RgbWorkingSpace::Apple => "Apple RGB",
            RgbWorkingSpace::CIE => "CIE RGB",
            RgbWorkingSpace::ECI => "ECI RGB",
            RgbWorkingSpace::NTSC => "NTSC RGB",
            RgbWorkingSpace::PAL => "PAL RGB",
            RgbWorkingSpace::ProPhoto => "Pro Photo RGB",
            RgbWorkingSpace::SRGB => "SRGB",
            RgbWorkingSpace::WideGamut => "Adobe Wide Gamut RGB",
        }
    }

    /// The name under which the working space is shown.
    pub fn as_ref(&self) -> (r: &'static str)
        ensures
            r@ == self.spec_name()@,
    {
        match self {
            RgbWorkingSpace::Adobe => "Adobe RGB",
            RgbWorkingSpace::Apple => "Apple RGB",
            RgbWorkingSpace::CIE => "CIE RGB",
            RgbWorkingSpace::ECI => "ECI RGB",
            RgbWorkingSpace::NTSC => "NTSC RGB",
            RgbWorkingSpace::PAL => "PAL RGB",
            RgbWorkingSpace::ProPhoto => "Pro Photo RGB",
            RgbWorkingSpace::SRGB => "SRGB",
            RgbWorkingSpace::WideGamut => "Adobe Wide Gamut RGB",
        }
    }

}

/// A standard illuminant: a reference white.
#[derive(Debug, Clone, Copy, PartialEq, Eq, Structural)]
pub enum Illuminant {
    A,
    B,
    C,
    D50,
    D55,
    D65,
    D75,
    E,
    F2,
    F7,
    F11,
}

impl Default for Illuminant {
    fn default() -> (r: Self)
        ensures
            r == Illuminant::D65,
    {
        Illuminant::D65
    }
}

impl Illuminant {
    pub open spec fn spec_name(&self) -> &'static str {
        match self {
            Illuminant::A => "A",
            Illuminant::B => "B",
            Illuminant::C => "C",
            Illuminant::D50 => "D50",
            Illuminant::D55 => "D55",
            Illuminant::D65 => "D65",
            Illuminant::D75 => "D75",
            Illuminant::E => "E",
            Illuminant::F2 => "F2",
            Illuminant::F7 => "F7",
            Illuminant::F11 => "F11",
        }
    }

    /// The name under which the illuminant is shown.
    pub fn as_ref(&self) -> (r: &'static str)
        ensures
            r@ == self.spec_name()@,
    {
        match self {
            Illuminant::A => "A",
            Illuminant::B => "B",
            Illuminant::C => "C",
            Illuminant::D50 => "D50",
            Illuminant::D55 => "D55",
            Illuminant::D65 => "D65",
            Illuminant::D75 => "D75",
            Illuminant::E => "E",
            Illuminant::F2 => "F2",
            Illuminant::F7 => "F7",
            Illuminant::F11 => "F11",
        }
    }

}

/// A method to carry colors from one reference white to another.
#[derive(Debug, Clone, Copy, PartialEq, Eq, Structural)]
pub enum ChromaticAdaptationMethod {
    Bradford,
    VonKries,
    XYZScaling,
}

impl Default for ChromaticAdaptationMethod {
    fn default() -> (r: Self)
        ensures
            r == ChromaticAdaptationMethod::Bradford,
    {
        ChromaticAdaptationMethod::Bradford
    }
}

impl ChromaticAdaptationMethod {
    pub open spec fn spec_name(&self) -> &'static str {
        match self {
            ChromaticAdaptationMethod::Bradford => "Bradford",
            ChromaticAdaptationMethod::VonKries => "Von Kries",
            ChromaticAdaptationMethod::XYZScaling => "XYZ Scaling",
        }
    }

    /// The name under which the method is shown.
    pub fn as_ref(&self) -> (r: &'static str)
        ensures
            r@ == self.spec_name()@,
    {
        match self {
            ChromaticAdaptationMethod::Bradford => "Bradford",
            ChromaticAdaptationMethod::VonKries => "Von Kries",
            ChromaticAdaptationMethod::XYZScaling => "XYZ Scaling",
        }
    }

}

} // verus!
