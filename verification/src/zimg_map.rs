//! The values of the reserved frame properties that describe how a frame's
//! samples are to be read, each with the number that stands for it in a frame.
#![allow(non_camel_case_types)]

use vstd::prelude::*;
use vstd::std_specs::convert::FromSpecImpl;

verus! {

/// The range of the sample values.
#[derive(Debug, Clone, Copy, PartialEq, Eq, Structural)]
pub enum VSColorRange {
    Full,
    Limited,
    Unspecfied,
}

impl VSColorRange {
    /// The number that stands for this value in a frame's properties.
    pub open spec fn number(self) -> u8 {
        match self {
            VSColorRange::Full => 0u8,
            VSColorRange::Limited => 1u8,
            VSColorRange::Unspecfied => 2u8,
        }
    }

    /// The value that `v` stands for; `Unspecfied` where it stands for none.
    pub open spec fn of_number(v: u8) -> Self {
        if v == 0 {
            VSColorRange::Full
        } else if v == 1 {
            VSColorRange::Limited
        } else {
            VSColorRange::Unspecfied
        }
    }

    /// The name shown for this value.
    pub open spec fn name_of(self) -> Seq<char> {
        match self {
            VSColorRange::Full => "Full"@,
            VSColorRange::Limited => "Limited"@,
            VSColorRange::Unspecfied => "Unspecified"@,
        }
    }

    /// The name shown for this value.
    pub fn name(&self) -> (r: &'static str)
        ensures
            r@ == self.name_of(),
    {
        match self {
            VSColorRange::Full => "Full",
            VSColorRange::Limited => "Limited",
            VSColorRange::Unspecfied => "Unspecified",
        }
    }
}

impl From<u8> for VSColorRange {
    fn from(v: u8) -> (r: Self) {
        match v {
            0 => VSColorRange::Full,
            1 => VSColorRange::Limited,
            _ => VSColorRange::Unspecfied,
        }
    }
}

impl FromSpecImpl<u8> for VSColorRange {
    open spec fn obeys_from_spec() -> bool {
        true
    }

    open spec fn from_spec(v: u8) -> Self {
        VSColorRange::of_number(v)
    }
}

impl Default for VSColorRange {
    fn default() -> (r: Self)
        ensures
            r == VSColorRange::Unspecfied,
    {
        VSColorRange::Unspecfied
    }
}

/// Every value is the one that its own number stands for.
pub proof fn lemma_vscolorrange_number_round_trip(v: VSColorRange)
    ensures
        VSColorRange::of_number(v.number()) == v,
{
}

/// The matrix coefficients.
#[derive(Debug, Clone, Copy, PartialEq, Eq, Structural)]
pub enum VSMatrix {
    Rgb,
    BT709,
    Unspecified,
    Reserved3,
    Fcc,
    BT470bg,
    ST170M,
    ST240M,
    YCgCo,
    BT2020Ncl,
    BT2020cl,
    ST2085,
    ChromaNcl,
    Chromacl,
    ICtCp,
}

impl VSMatrix {
    /// The number that stands for this value in a frame's properties.
    pub open spec fn number(self) -> u8 {
        match self {
            VSMatrix::Rgb => 0u8,
            VSMatrix::BT709 => 1u8,
            VSMatrix::Unspecified => 2u8,
            VSMatrix::Reserved3 => 3u8,
            VSMatrix::Fcc => 4u8,
            VSMatrix::BT470bg => 5u8,
            VSMatrix::ST170M => 6u8,
            VSMatrix::ST240M => 7u8,
            VSMatrix::YCgCo => 8u8,
            VSMatrix::BT2020Ncl => 9u8,
            VSMatrix::BT2020cl => 10u8,
            VSMatrix::ST2085 => 11u8,
            VSMatrix::ChromaNcl => 12u8,
            VSMatrix::Chromacl => 13u8,
            VSMatrix::ICtCp => 14u8,
        }
    }

    /// The value that `v` stands for; `Unspecified` where it stands for none.
    pub open spec fn of_number(v: u8) -> Self {
        if v == 0 {
            VSMatrix::Rgb
        } else if v == 1 {
            VSMatrix::BT709
        } else if v == 3 {
            VSMatrix::Reserved3
        } else if v == 4 {
            VSMatrix::Fcc
        } else if v == 5 {
            VSMatrix::BT470bg
        } else if v == 6 {
            VSMatrix::ST170M
        } else if v == 7 {
            VSMatrix::ST240M
        } else if v == 8 {
            VSMatrix::YCgCo
        } else if v == 9 {
            VSMatrix::BT2020Ncl
        } else if v == 10 {
            VSMatrix::BT2020cl
        } else if v == 11 {
            VSMatrix::ST2085
        } else if v == 12 {
            VSMatrix::ChromaNcl
        } else if v == 13 {
            VSMatrix::Chromacl
        } else if v == 14 {
            VSMatrix::ICtCp
        } else {
            VSMatrix::Unspecified
        }
    }

    /// The name shown for this value.
    pub open spec fn name_of(self) -> Seq<char> {
        match self {
            VSMatrix::Rgb => "RGB"@,
            VSMatrix::BT709 => "BT.709"@,
            VSMatrix::Unspecified => "Unspecified"@,
            VSMatrix::Reserved3 => "Reserved"@,
            VSMatrix::Fcc => "FCC"@,
            VSMatrix::BT470bg => "BT.470bg"@,
            VSMatrix::ST170M => "ST 170M"@,
            VSMatrix::ST240M => "ST 240M"@,
            VSMatrix::YCgCo => "YCgCo"@,
            VSMatrix::BT2020Ncl => "BT.2020 non-constant luminance"@,
            VSMatrix::BT2020cl => "BT.2020 constant luminance"@,
            VSMatrix::ST2085 => "ST2085"@,
            VSMatrix::ChromaNcl => "Chromaticity derived non-constant luminance"@,
            VSMatrix::Chromacl => "Chromaticity derived constant luminance"@,
            VSMatrix::ICtCp => "ICtCp"@,
        }
    }

    /// The name shown for this value.
    pub fn name(&self) -> (r: &'static str)
        ensures
            r@ == self.name_of(),
    {
        match self {
            VSMatrix::Rgb => "RGB",
            VSMatrix::BT709 => "BT.709",
            VSMatrix::Unspecified => "Unspecified",
            VSMatrix::Reserved3 => "Reserved",
            VSMatrix::Fcc => "FCC",
            VSMatrix::BT470bg => "BT.470bg",
            VSMatrix::ST170M => "ST 170M",
            VSMatrix::ST240M => "ST 240M",
            VSMatrix::YCgCo => "YCgCo",
            VSMatrix::BT2020Ncl => "BT.2020 non-constant luminance",
            VSMatrix::BT2020cl => "BT.2020 constant luminance",
            VSMatrix::ST2085 => "ST2085",
            VSMatrix::ChromaNcl => "Chromaticity derived non-constant luminance",
            VSMatrix::Chromacl => "Chromaticity derived constant luminance",
            VSMatrix::ICtCp => "ICtCp",
        }
    }
}

impl From<u8> for VSMatrix {
    fn from(v: u8) -> (r: Self) {
        match v {
            0 => VSMatrix::Rgb,
            1 => VSMatrix::BT709,
            3 => VSMatrix::Reserved3,
            4 => VSMatrix::Fcc,
            5 => VSMatrix::BT470bg,
            6 => VSMatrix::ST170M,
            7 => VSMatrix::ST240M,
            8 => VSMatrix::YCgCo,
            9 => VSMatrix::BT2020Ncl,
            10 => VSMatrix::BT2020cl,
            11 => VSMatrix::ST2085,
            12 => VSMatrix::ChromaNcl,
            13 => VSMatrix::Chromacl,
            14 => VSMatrix::ICtCp,
            _ => VSMatrix::Unspecified,
        }
    }
}

impl FromSpecImpl<u8> for VSMatrix {
    open spec fn obeys_from_spec() -> bool {
        true
    }

    open spec fn from_spec(v: u8) -> Self {
        VSMatrix::of_number(v)
    }
}

impl Default for VSMatrix {
    fn default() -> (r: Self)
        ensures
            r == VSMatrix::Unspecified,
    {
        VSMatrix::Unspecified
    }
}

/// Every value is the one that its own number stands for.
pub proof fn lemma_vsmatrix_number_round_trip(v: VSMatrix)
    ensures
        VSMatrix::of_number(v.number()) == v,
{
}

/// The transfer characteristics.
#[derive(Debug, Clone, Copy, PartialEq, Eq, Structural)]
pub enum VSTransferCharacteristics {
    Reserved0,
    BT709,
    Unspecified,
    Reserved3,
    BT470m,
    BT470bg,
    BT601,
    ST240M,
    Linear,
    Log100,
    Log316,
    xvYCC,
    BT1361,
    sRgb,
    BT2020_10,
    BT2020_12,
    ST2084,
    ST428,
    STD_B67,
}

impl VSTransferCharacteristics {
    /// The number that stands for this value in a frame's properties.
    pub open spec fn number(self) -> u8 {
        match self {
            VSTransferCharacteristics::Reserved0 => 0u8,
            VSTransferCharacteristics::BT709 => 1u8,
            VSTransferCharacteristics::Unspecified => 2u8,
            VSTransferCharacteristics::Reserved3 => 3u8,
            VSTransferCharacteristics::BT470m => 4u8,
            VSTransferCharacteristics::BT470bg => 5u8,
            VSTransferCharacteristics::BT601 => 6u8,
            VSTransferCharacteristics::ST240M => 7u8,
            VSTransferCharacteristics::Linear => 8u8,
            VSTransferCharacteristics::Log100 => 9u8,
            VSTransferCharacteristics::Log316 => 10u8,
            VSTransferCharacteristics::xvYCC => 11u8,
            VSTransferCharacteristics::BT1361 => 12u8,
            VSTransferCharacteristics::sRgb => 13u8,
            VSTransferCharacteristics::BT2020_10 => 14u8,
            VSTransferCharacteristics::BT2020_12 => 15u8,
            VSTransferCharacteristics::ST2084 => 16u8,
            VSTransferCharacteristics::ST428 => 17u8,
            VSTransferCharacteristics::STD_B67 => 18u8,
        }
    }

    /// The value that `v` stands for; `Unspecified` where it stands for none.
    pub open spec fn of_number(v: u8) -> Self {
        if v == 0 {
            VSTransferCharacteristics::Reserved0
        } else if v == 1 {
            VSTransferCharacteristics::BT709
        } else if v == 3 {
            VSTransferCharacteristics::Reserved3
        } else if v == 4 {
            VSTransferCharacteristics::BT470m
        } else if v == 5 {
            VSTransferCharacteristics::BT470bg
        } else if v == 6 {
            VSTransferCharacteristics::BT601
        } else if v == 7 {
            VSTransferCharacteristics::ST240M
        } else if v == 8 {
            VSTransferCharacteristics::Linear
        } else if v == 9 {
            VSTransferCharacteristics::Log100
        } else if v == 10 {
            VSTransferCharacteristics::Log316
        } else if v == 11 {
            VSTransferCharacteristics::xvYCC
        } else if v == 12 {
            VSTransferCharacteristics::BT1361
        } else if v == 13 {
            VSTransferCharacteristics::sRgb
        } else if v == 14 {
            VSTransferCharacteristics::BT2020_10
        } else if v == 15 {
            VSTransferCharacteristics::BT2020_12
        } else if v == 16 {
            VSTransferCharacteristics::ST2084
        } else if v == 17 {
            VSTransferCharacteristics::ST428
        } else if v == 18 {
            VSTransferCharacteristics::STD_B67
        } else {
            VSTransferCharacteristics::Unspecified
        }
    }

    /// The name shown for this value.
    pub open spec fn name_of(self) -> Seq<char> {
        match self {
            VSTransferCharacteristics::Reserved0 => "Reserved"@,
            VSTransferCharacteristics::BT709 => "BT.709"@,
            VSTransferCharacteristics::Unspecified => "Unspecified"@,
            VSTransferCharacteristics::Reserved3 => "Reserved"@,
            VSTransferCharacteristics::BT470m => "BT.470m"@,
            VSTransferCharacteristics::BT470bg => "BT.470bg"@,
            VSTransferCharacteristics::BT601 => "BT.601"@,
            VSTransferCharacteristics::ST240M => "ST 240M"@,
            VSTransferCharacteristics::Linear => "Linear"@,
            VSTransferCharacteristics::Log100 => "Log 1:100 contrast"@,
            VSTransferCharacteristics::Log316 => "Log 1:316 contrast"@,
            VSTransferCharacteristics::xvYCC => "xvYCC"@,
            VSTransferCharacteristics::BT1361 => "BT.1361"@,
            VSTransferCharacteristics::sRgb => "sRGB"@,
            VSTransferCharacteristics::BT2020_10 => "BT.2020_10"@,
            VSTransferCharacteristics::BT2020_12 => "BT.2020_12"@,
            VSTransferCharacteristics::ST2084 => "ST 2084 (PQ)"@,
            VSTransferCharacteristics::ST428 => "ST 428"@,
            VSTransferCharacteristics::STD_B67 => "ARIB std-b67 (HLG)"@,
        }
    }

    /// The name shown for this value.
    pub fn name(&self) -> (r: &'static str)
        ensures
            r@ == self.name_of(),
    {
        match self {
            VSTransferCharacteristics::Reserved0 => "Reserved",
            VSTransferCharacteristics::BT709 => "BT.709",
            VSTransferCharacteristics::Unspecified => "Unspecified",
            VSTransferCharacteristics::Reserved3 => "Reserved",
            VSTransferCharacteristics::BT470m => "BT.470m",
            VSTransferCharacteristics::BT470bg => "BT.470bg",
            VSTransferCharacteristics::BT601 => "BT.601",
            VSTransferCharacteristics::ST240M => "ST 240M",
            VSTransferCharacteristics::Linear => "Linear",
            VSTransferCharacteristics::Log100 => "Log 1:100 contrast",
            VSTransferCharacteristics::Log316 => "Log 1:316 contrast",
            VSTransferCharacteristics::xvYCC => "xvYCC",
            VSTransferCharacteristics::BT1361 => "BT.1361",
            VSTransferCharacteristics::sRgb => "sRGB",
            VSTransferCharacteristics::BT2020_10 => "BT.2020_10",
            VSTransferCharacteristics::BT2020_12 => "BT.2020_12",
            VSTransferCharacteristics::ST2084 => "ST 2084 (PQ)",
            VSTransferCharacteristics::ST428 => "ST 428",
            VSTransferCharacteristics::STD_B67 => "ARIB std-b67 (HLG)",
        }
    }
}

impl From<u8> for VSTransferCharacteristics {
    fn from(v: u8) -> (r: Self) {
        match v {
            0 => VSTransferCharacteristics::Reserved0,
            1 => VSTransferCharacteristics::BT709,
            3 => VSTransferCharacteristics::Reserved3,
            4 => VSTransferCharacteristics::BT470m,
            5 => VSTransferCharacteristics::BT470bg,
            6 => VSTransferCharacteristics::BT601,
            7 => VSTransferCharacteristics::ST240M,
            8 => VSTransferCharacteristics::Linear,
            9 => VSTransferCharacteristics::Log100,
            10 => VSTransferCharacteristics::Log316,
            11 => VSTransferCharacteristics::xvYCC,
            12 => VSTransferCharacteristics::BT1361,
            13 => VSTransferCharacteristics::sRgb,
            14 => VSTransferCharacteristics::BT2020_10,
            15 => VSTransferCharacteristics::BT2020_12,
            16 => VSTransferCharacteristics::ST2084,
            17 => VSTransferCharacteristics::ST428,
            18 => VSTransferCharacteristics::STD_B67,
            _ => VSTransferCharacteristics::Unspecified,
        }
    }
}

impl FromSpecImpl<u8> for VSTransferCharacteristics {
    open spec fn obeys_from_spec() -> bool {
        true
    }

    open spec fn from_spec(v: u8) -> Self {
        VSTransferCharacteristics::of_number(v)
    }
}

impl Default for VSTransferCharacteristics {
    fn default() -> (r: Self)
        ensures
            r == VSTransferCharacteristics::Unspecified,
    {
        VSTransferCharacteristics::Unspecified
    }
}

/// Every value is the one that its own number stands for.
pub proof fn lemma_vstransfercharacteristics_number_round_trip(v: VSTransferCharacteristics)
    ensures
        VSTransferCharacteristics::of_number(v.number()) == v,
{
}

/// The colour primaries.
#[derive(Debug, Clone, Copy, PartialEq, Eq, Structural)]
pub enum VSPrimaries {
    Reserved0,
    BT709,
    Unspecified,
    Reserved3,
    BT470m,
    BT470bg,
    ST170M,
    ST240M,
    Film,
    BT2020,
    Xyz,
    DCIP3,
    DCIP3_D65,
    Reserved13,
    Reserved14,
    Reserved15,
    Reserved16,
    Reserved17,
    Reserved18,
    Reserved19,
    Reserved20,
    Reserved21,
    JEDEC_P22,
}

impl VSPrimaries {
    /// The number that stands for this value in a frame's properties.
    pub open spec fn number(self) -> u8 {
        match self {
            VSPrimaries::Reserved0 => 0u8,
            VSPrimaries::BT709 => 1u8,
            VSPrimaries::Unspecified => 2u8,
            VSPrimaries::Reserved3 => 3u8,
            VSPrimaries::BT470m => 4u8,
            VSPrimaries::BT470bg => 5u8,
            VSPrimaries::ST170M => 6u8,
            VSPrimaries::ST240M => 7u8,
            VSPrimaries::Film => 8u8,
            VSPrimaries::BT2020 => 9u8,
            VSPrimaries::Xyz => 10u8,
            VSPrimaries::DCIP3 => 11u8,
            VSPrimaries::DCIP3_D65 => 12u8,
            VSPrimaries::Reserved13 => 13u8,
            VSPrimaries::Reserved14 => 14u8,
            VSPrimaries::Reserved15 => 15u8,
            VSPrimaries::Reserved16 => 16u8,
            VSPrimaries::Reserved17 => 17u8,
            VSPrimaries::Reserved18 => 18u8,
            VSPrimaries::Reserved19 => 19u8,
            VSPrimaries::Reserved20 => 20u8,
            VSPrimaries::Reserved21 => 21u8,
            VSPrimaries::JEDEC_P22 => 22u8,
        }
    }

    /// The value that `v` stands for; `Unspecified` where it stands for none.
    pub open spec fn of_number(v: u8) -> Self {
        if v == 0 {
            VSPrimaries::Reserved0
        } else if v == 1 {
            VSPrimaries::BT709
        } else if v == 3 {
            VSPrimaries::Reserved3
        } else if v == 4 {
            VSPrimaries::BT470m
        } else if v == 5 {
            VSPrimaries::BT470bg
        } else if v == 6 {
            VSPrimaries::ST170M
        } else if v == 7 {
            VSPrimaries::ST240M
        } else if v == 8 {
            VSPrimaries::Film
        } else if v == 9 {
            VSPrimaries::BT2020
        } else if v == 10 {
            VSPrimaries::Xyz
        } else if v == 11 {
            VSPrimaries::DCIP3
        } else if v == 12 {
            VSPrimaries::DCIP3_D65
        } else if v == 13 {
            VSPrimaries::Reserved13
        } else if v == 14 {
            VSPrimaries::Reserved14
        } else if v == 15 {
            VSPrimaries::Reserved15
        } else if v == 16 {
            VSPrimaries::Reserved16
        } else if v == 17 {
            VSPrimaries::Reserved17
        } else if v == 18 {
            VSPrimaries::Reserved18
        } else if v == 19 {
            VSPrimaries::Reserved19
        } else if v == 20 {
            VSPrimaries::Reserved20
        } else if v == 21 {
            VSPrimaries::Reserved21
        } else if v == 22 {
            VSPrimaries::JEDEC_P22
        } else {
            VSPrimaries::Unspecified
        }
    }

    /// The name shown for this value.
    pub open spec fn name_of(self) -> Seq<char> {
        match self {
            VSPrimaries::Reserved0 => "Reserved"@,
            VSPrimaries::BT709 => "BT.709"@,
            VSPrimaries::Unspecified => "Unspecified"@,
            VSPrimaries::Reserved3 => "Reserved"@,
            VSPrimaries::BT470m => "BT.470m"@,
            VSPrimaries::BT470bg => "BT.470bg"@,
            VSPrimaries::ST170M => "ST 170M"@,
            VSPrimaries::ST240M => "ST 240M"@,
            VSPrimaries::Film => "Film"@,
            VSPrimaries::BT2020 => "BT.2020"@,
            VSPrimaries::Xyz => "XYZ"@,
            VSPrimaries::DCIP3 => "DCI-P3, DCI white point"@,
            VSPrimaries::DCIP3_D65 => "DCI-P3 D65 white point"@,
            VSPrimaries::Reserved13 => "Reserved"@,
            VSPrimaries::Reserved14 => "Reserved"@,
            VSPrimaries::Reserved15 => "Reserved"@,
            VSPrimaries::Reserved16 => "Reserved"@,
            VSPrimaries::Reserved17 => "Reserved"@,
            VSPrimaries::Reserved18 => "Reserved"@,
            VSPrimaries::Reserved19 => "Reserved"@,
            VSPrimaries::Reserved20 => "Reserved"@,
            VSPrimaries::Reserved21 => "Reserved"@,
            VSPrimaries::JEDEC_P22 => "JEDEC P22"@,
        }
    }

    /// The name shown for this value.
    pub fn name(&self) -> (r: &'static str)
        ensures
            r@ == self.name_of(),
    {
        match self {
            VSPrimaries::Reserved0 => "Reserved",
            VSPrimaries::BT709 => "BT.709",
            VSPrimaries::Unspecified => "Unspecified",
            VSPrimaries::Reserved3 => "Reserved",
            VSPrimaries::BT470m => "BT.470m",
            VSPrimaries::BT470bg => "BT.470bg",
            VSPrimaries::ST170M => "ST 170M",
            VSPrimaries::ST240M => "ST 240M",
            VSPrimaries::Film => "Film",
            VSPrimaries::BT2020 => "BT.2020",
            VSPrimaries::Xyz => "XYZ",
            VSPrimaries::DCIP3 => "DCI-P3, DCI white point",
            VSPrimaries::DCIP3_D65 => "DCI-P3 D65 white point",
            VSPrimaries::Reserved13 => "Reserved",
            VSPrimaries::Reserved14 => "Reserved",
            VSPrimaries::Reserved15 => "Reserved",
            VSPrimaries::Reserved16 => "Reserved",
            VSPrimaries::Reserved17 => "Reserved",
            VSPrimaries::Reserved18 => "Reserved",
            VSPrimaries::Reserved19 => "Reserved",
            VSPrimaries::Reserved20 => "Reserved",
            VSPrimaries::Reserved21 => "Reserved",
            VSPrimaries::JEDEC_P22 => "JEDEC P22",
        }
    }
}

impl From<u8> for VSPrimaries {
    fn from(v: u8) -> (r: Self) {
        match v {
            0 => VSPrimaries::Reserved0,
            1 => VSPrimaries::BT709,
            3 => VSPrimaries::Reserved3,
            4 => VSPrimaries::BT470m,
            5 => VSPrimaries::BT470bg,
            6 => VSPrimaries::ST170M,
            7 => VSPrimaries::ST240M,
            8 => VSPrimaries::Film,
            9 => VSPrimaries::BT2020,
            10 => VSPrimaries::Xyz,
            11 => VSPrimaries::DCIP3,
            12 => VSPrimaries::DCIP3_D65,
            13 => VSPrimaries::Reserved13,
            14 => VSPrimaries::Reserved14,
            15 => VSPrimaries::Reserved15,
            16 => VSPrimaries::Reserved16,
            17 => VSPrimaries::Reserved17,
            18 => VSPrimaries::Reserved18,
            19 => VSPrimaries::Reserved19,
            20 => VSPrimaries::Reserved20,
            21 => VSPrimaries::Reserved21,
            22 => VSPrimaries::JEDEC_P22,
            _ => VSPrimaries::Unspecified,
        }
    }
}

impl FromSpecImpl<u8> for VSPrimaries {
    open spec fn obeys_from_spec() -> bool {
        true
    }

    open spec fn from_spec(v: u8) -> Self {
        VSPrimaries::of_number(v)
    }
}

impl Default for VSPrimaries {
    fn default() -> (r: Self)
        ensures
            r == VSPrimaries::Unspecified,
    {
        VSPrimaries::Unspecified
    }
}

/// Every value is the one that its own number stands for.
pub proof fn lemma_vsprimaries_number_round_trip(v: VSPrimaries)
    ensures
        VSPrimaries::of_number(v.number()) == v,
{
}

/// The position of the chroma samples.
#[derive(Debug, Clone, Copy, PartialEq, Eq, Structural)]
pub enum VSChromaLocation {
    Left,
    Center,
    TopLeft,
    Top,
    BottomLeft,
    Bottom,
    Unspecified,
}

impl VSChromaLocation {
    /// The number that stands for this value in a frame's properties.
    pub open spec fn number(self) -> u8 {
        match self {
            VSChromaLocation::Left => 0u8,
            VSChromaLocation::Center => 1u8,
            VSChromaLocation::TopLeft => 2u8,
            VSChromaLocation::Top => 3u8,
            VSChromaLocation::BottomLeft => 4u8,
            VSChromaLocation::Bottom => 5u8,
            VSChromaLocation::Unspecified => 6u8,
        }
    }

    /// The value that `v` stands for; `Unspecified` where it stands for none.
    pub open spec fn of_number(v: u8) -> Self {
        if v == 0 {
            VSChromaLocation::Left
        } else if v == 1 {
            VSChromaLocation::Center
        } else if v == 2 {
            VSChromaLocation::TopLeft
        } else if v == 3 {
            VSChromaLocation::Top
        } else if v == 4 {
            VSChromaLocation::BottomLeft
        } else if v == 5 {
            VSChromaLocation::Bottom
        } else {
            VSChromaLocation::Unspecified
        }
    }

    /// The name shown for this value.
    pub open spec fn name_of(self) -> Seq<char> {
        match self {
            VSChromaLocation::Left => "Left"@,
            VSChromaLocation::Center => "Center"@,
            VSChromaLocation::TopLeft => "Top left"@,
            VSChromaLocation::Top => "Top"@,
            VSChromaLocation::BottomLeft => "Bottom left"@,
            VSChromaLocation::Bottom => "Bottom"@,
            VSChromaLocation::Unspecified => "Unspecified"@,
        }
    }

    /// The name shown for this value.
    pub fn name(&self) -> (r: &'static str)
        ensures
            r@ == self.name_of(),
    {
        match self {
            VSChromaLocation::Left => "Left",
            VSChromaLocation::Center => "Center",
            VSChromaLocation::TopLeft => "Top left",
            VSChromaLocation::Top => "Top",
            VSChromaLocation::BottomLeft => "Bottom left",
            VSChromaLocation::Bottom => "Bottom",
            VSChromaLocation::Unspecified => "Unspecified",
        }
    }
}

impl From<u8> for VSChromaLocation {
    fn from(v: u8) -> (r: Self) {
        match v {
            0 => VSChromaLocation::Left,
            1 => VSChromaLocation::Center,
            2 => VSChromaLocation::TopLeft,
            3 => VSChromaLocation::Top,
            4 => VSChromaLocation::BottomLeft,
            5 => VSChromaLocation::Bottom,
            _ => VSChromaLocation::Unspecified,
        }
    }
}

impl FromSpecImpl<u8> for VSChromaLocation {
    open spec fn obeys_from_spec() -> bool {
        true
    }

    open spec fn from_spec(v: u8) -> Self {
        VSChromaLocation::of_number(v)
    }
}

impl Default for VSChromaLocation {
    fn default() -> (r: Self)
        ensures
            r == VSChromaLocation::Unspecified,
    {
        VSChromaLocation::Unspecified
    }
}

/// Every value is the one that its own number stands for.
pub proof fn lemma_vschromalocation_number_round_trip(v: VSChromaLocation)
    ensures
        VSChromaLocation::of_number(v.number()) == v,
{
}

} // verus!
