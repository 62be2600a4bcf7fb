//! The categories by which the service groups satellites.

use vstd::prelude::*;

verus! {

/// A category of satellites, as the service defines them.
#[derive(Debug, Clone, Copy, PartialEq, Eq, Structural)]
pub enum SatelliteCategory {
    All,
    AmateurRadio,
    BeidouNavigationSystem,
    Brightest,
    Celestis,
    CubeSats,
    DisasterMonitoring,
    Earth,
    Education,
    Engineering,
    Experimental,
    Flock,
    Galileo,
    Geodetic,
    Geostationary,
    GPSConstellation,
    GPSOperational,
    Globalstar,
    GlonassConstellation,
    GlonassOperational,
    GOES,
    Gonets,
    Gorizont,
    Intelsat,
    Iridium,
    IRNSS,
    ISS,
    Lemur,
    Military,
    Molniya,
    NavyNavigationSatelliteSystem,
    NOAA,
    O3BNetworks,
    Orbcomm,
    Parus,
    QZSS,
    RadarCalibration,
    Raduga,
    RussianLEONavigation,
    SatelliteBasedAugmentationSystem,
    SearchAndRescue,
    SpaceAndEarthScience,
    Strela,
    TrackingAndDataRelaySatelliteSystem,
    Tselina,
    Tsikada,
    Tsiklon,
    TV,
    Weather,
    WestfordNeedles,
    XMAndSirius,
    Yaogan,
}

impl SatelliteCategory {
    /// The number by which the service knows the category.
    pub open spec fn code_of(self) -> u32 {
        match self {
            SatelliteCategory::All => 0,
            SatelliteCategory::AmateurRadio => 18,
            SatelliteCategory::BeidouNavigationSystem => 35,
            SatelliteCategory::Brightest => 1,
            SatelliteCategory::Celestis => 45,
            SatelliteCategory::CubeSats => 32,
            SatelliteCategory::DisasterMonitoring => 8,
            SatelliteCategory::Earth => 6,
            SatelliteCategory::Education => 29,
            SatelliteCategory::Engineering => 28,
            SatelliteCategory::Experimental => 19,
            SatelliteCategory::Flock => 48,
            SatelliteCategory::Galileo => 22,
            SatelliteCategory::Geodetic => 27,
            SatelliteCategory::Geostationary => 10,
            SatelliteCategory::GPSConstellation => 50,
            SatelliteCategory::GPSOperational => 20,
            SatelliteCategory::Globalstar => 17,
            SatelliteCategory::GlonassConstellation => 51,
            SatelliteCategory::GlonassOperational => 21,
            SatelliteCategory::GOES => 5,
            SatelliteCategory::Gonets => 40,
            SatelliteCategory::Gorizont => 12,
            SatelliteCategory::Intelsat => 11,
            SatelliteCategory::Iridium => 15,
            SatelliteCategory::IRNSS => 46,
            SatelliteCategory::ISS => 2,
            SatelliteCategory::Lemur => 49,
            SatelliteCategory::Military => 30,
            SatelliteCategory::Molniya => 14,
            SatelliteCategory::NavyNavigationSatelliteSystem => 24,
            SatelliteCategory::NOAA => 4,
            SatelliteCategory::O3BNetworks => 43,
            SatelliteCategory::Orbcomm => 16,
            SatelliteCategory::Parus => 38,
            SatelliteCategory::QZSS => 47,
            SatelliteCategory::RadarCalibration => 31,
            SatelliteCategory::Raduga => 13,
            SatelliteCategory::RussianLEONavigation => 25,
            SatelliteCategory::SatelliteBasedAugmentationSystem => 23,
            SatelliteCategory::SearchAndRescue => 7,
            SatelliteCategory::SpaceAndEarthScience => 26,
            SatelliteCategory::Strela => 39,
            SatelliteCategory::TrackingAndDataRelaySatelliteSystem => 9,
            SatelliteCategory::Tselina => 44,
            SatelliteCategory::Tsikada => 42,
            SatelliteCategory::Tsiklon => 41,
            SatelliteCategory::TV => 34,
            SatelliteCategory::Weather => 3,
            SatelliteCategory::WestfordNeedles => 37,
            SatelliteCategory::XMAndSirius => 33,
            SatelliteCategory::Yaogan => 36,
        }
    }

    /// The number by which the service knows the category.
    pub fn code(&self) -> (r: u32)
        ensures
            r == self.code_of(),
    {
        match self {
            SatelliteCategory::All => 0,
            SatelliteCategory::AmateurRadio => 18,
            SatelliteCategory::BeidouNavigationSystem => 35,
            SatelliteCategory::Brightest => 1,
            SatelliteCategory::Celestis => 45,
            SatelliteCategory::CubeSats => 32,
            SatelliteCategory::DisasterMonitoring => 8,
            SatelliteCategory::Earth => 6,
            SatelliteCategory::Education => 29,
            SatelliteCategory::Engineering => 28,
            SatelliteCategory::Experimental => 19,
            SatelliteCategory::Flock => 48,
            SatelliteCategory::Galileo => 22,
            SatelliteCategory::Geodetic => 27,
            SatelliteCategory::Geostationary => 10,
            SatelliteCategory::GPSConstellation => 50,
            SatelliteCategory::GPSOperational => 20,
            SatelliteCategory::Globalstar => 17,
            SatelliteCategory::GlonassConstellation => 51,
            SatelliteCategory::GlonassOperational => 21,
            SatelliteCategory::GOES => 5,
            SatelliteCategory::Gonets => 40,
            SatelliteCategory::Gorizont => 12,
            SatelliteCategory::Intelsat => 11,
            SatelliteCategory::Iridium => 15,
            SatelliteCategory::IRNSS => 46,
            SatelliteCategory::ISS => 2,
            SatelliteCategory::Lemur => 49,
            SatelliteCategory::Military => 30,
            SatelliteCategory::Molniya => 14,
            SatelliteCategory::NavyNavigationSatelliteSystem => 24,
            SatelliteCategory::NOAA => 4,
            SatelliteCategory::O3BNetworks => 43,
            SatelliteCategory::Orbcomm => 16,
            SatelliteCategory::Parus => 38,
            SatelliteCategory::QZSS => 47,
            SatelliteCategory::RadarCalibration => 31,
            SatelliteCategory::Raduga => 13,
            SatelliteCategory::RussianLEONavigation => 25,
            SatelliteCategory::SatelliteBasedAugmentationSystem => 23,
            SatelliteCategory::SearchAndRescue => 7,
            SatelliteCategory::SpaceAndEarthScience => 26,
            SatelliteCategory::Strela => 39,
            SatelliteCategory::TrackingAndDataRelaySatelliteSystem => 9,
            SatelliteCategory::Tselina => 44,
            SatelliteCategory::Tsikada => 42,
            SatelliteCategory::Tsiklon => 41,
            SatelliteCategory::TV => 34,
            SatelliteCategory::Weather => 3,
            SatelliteCategory::WestfordNeedles => 37,
            SatelliteCategory::XMAndSirius => 33,
            SatelliteCategory::Yaogan => 36,
        }
    }
}

/// The codes run from 0 to 51.
pub proof fn codes_are_bounded(category: SatelliteCategory)
    ensures
        category.code_of() <= 51,
{
}

/// No two categories share a code.
pub proof fn codes_are_distinct(a: SatelliteCategory, b: SatelliteCategory)
    requires
        a.code_of() == b.code_of(),
    ensures
        a == b,
{
}

} // verus!
