//! Message types exchanged with the printer.
use vstd::prelude::*;

pub mod command;
pub mod mc_print;
pub mod report;

verus! {

/// What the printer is doing, as it reports it.
#[derive(Clone, Copy, PartialEq, Eq, Debug, Structural)]
pub enum Action {
    /// Printing
    Printing,
    /// Auto Bed Leveling
    Abl,
    /// Heatbed Preheating
    HeatbedPreheat,
    /// Sweeping XY Mech Mode
    SweepingXyMechMode,
    /// Changing Filament
    ChangingFilament,
    /// M400 Pause
    M400Pause,
    /// Paused due to filament runout
    FilamentRunoutPause,
    /// Heating Hotend
    HeatingHotend,
    /// Calibrating Extrusion
    CalibratingExtrusion,
    /// Scanning Bed Surface
    ScanningBedSurface,
    /// Inspecting First Layer
    InspectingFirstLayer,
    /// Identifying Build Plate Type
    IdentifyingBuildPlateType,
    /// Calibrating Micro Lidar
    CalibratingMicroLidar,
    /// Homing Toolhead
    HomingToolhead,
    /// Cleaning Nozzle Tip
    CleaningNozzleTip,
    /// Checking Extruder Temperature
    CheckingExtruderTemperature,
    /// Printing was paused by the user
    UserPause,
    /// Pause of front cover falling
    FrontCoverPause,
    /// Calibrating Micro Lidar
    CalibratingMicroLidar2,
    /// Calibrating Extrusion Flow
    CalibratingExtrusionFlow,
    /// Paused due to nozzle temperature malfunction
    NozzleTempMalfunction,
    /// Paused due to heat bed temperature malfunction
    GearBedTempMalfunction,
    /// Idle
    Idle,
}

/// The printer's numeric code for each action: 0 to 21 in order, 255 for idle.
pub open spec fn action_code(a: Action) -> u8 {
    match a {
        Action::Printing => 0,
        Action::Abl => 1,
        Action::HeatbedPreheat => 2,
        Action::SweepingXyMechMode => 3,
        Action::ChangingFilament => 4,
        Action::M400Pause => 5,
        Action::FilamentRunoutPause => 6,
        Action::HeatingHotend => 7,
        Action::CalibratingExtrusion => 8,
        Action::ScanningBedSurface => 9,
        Action::InspectingFirstLayer => 10,
        Action::IdentifyingBuildPlateType => 11,
        Action::CalibratingMicroLidar => 12,
        Action::HomingToolhead => 13,
        Action::CleaningNozzleTip => 14,
        Action::CheckingExtruderTemperature => 15,
        Action::UserPause => 16,
        Action::FrontCoverPause => 17,
        Action::CalibratingMicroLidar2 => 18,
        Action::CalibratingExtrusionFlow => 19,
        Action::NozzleTempMalfunction => 20,
        Action::GearBedTempMalfunction => 21,
        Action::Idle => 255,
    }
}

impl Action {
    pub fn code(&self) -> (r: u8)
        ensures
            r == action_code(*self),
    {
        match self {
            Action::Printing => 0,
            Action::Abl => 1,
            Action::HeatbedPreheat => 2,
            Action::SweepingXyMechMode => 3,
            Action::ChangingFilament => 4,
            Action::M400Pause => 5,
            Action::FilamentRunoutPause => 6,
            Action::HeatingHotend => 7,
            Action::CalibratingExtrusion => 8,
            Action::ScanningBedSurface => 9,
            Action::InspectingFirstLayer => 10,
            Action::IdentifyingBuildPlateType => 11,
            Action::CalibratingMicroLidar => 12,
            Action::HomingToolhead => 13,
            Action::CleaningNozzleTip => 14,
            Action::CheckingExtruderTemperature => 15,
            Action::UserPause => 16,
            Action::FrontCoverPause => 17,
            Action::CalibratingMicroLidar2 => 18,
            Action::CalibratingExtrusionFlow => 19,
            Action::NozzleTempMalfunction => 20,
            Action::GearBedTempMalfunction => 21,
            Action::Idle => 255,
        }
    }

    /// The action with printer code `c`, if any.
    pub fn from_code(c: u8) -> (r: Option<Action>)
        ensures
            r matches Some(a) ==> action_code(a) == c,
            r is None ==> forall|a: Action| action_code(a) != c,
    {
        let r = match c {
            0 => Some(Action::Printing),
            1 => Some(Action::Abl),
            2 => Some(Action::HeatbedPreheat),
            3 => Some(Action::SweepingXyMechMode),
            4 => Some(Action::ChangingFilament),
            5 => Some(Action::M400Pause),
            6 => Some(Action::FilamentRunoutPause),
            7 => Some(Action::HeatingHotend),
            8 => Some(Action::CalibratingExtrusion),
            9 => Some(Action::ScanningBedSurface),
            10 => Some(Action::InspectingFirstLayer),
            11 => Some(Action::IdentifyingBuildPlateType),
            12 => Some(Action::CalibratingMicroLidar),
            13 => Some(Action::HomingToolhead),
            14 => Some(Action::CleaningNozzleTip),
            15 => Some(Action::CheckingExtruderTemperature),
            16 => Some(Action::UserPause),
            17 => Some(Action::FrontCoverPause),
            18 => Some(Action::CalibratingMicroLidar2),
            19 => Some(Action::CalibratingExtrusionFlow),
            20 => Some(Action::NozzleTempMalfunction),
            21 => Some(Action::GearBedTempMalfunction),
            255 => Some(Action::Idle),
            _ => None,
        };
        r
    }
}

} // verus!
