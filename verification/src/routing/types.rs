//! Enumerations, locations and parameters of network analysis.

use vstd::prelude::*;

verus! {

/// Side of the vehicle on which a stop is approached.
#[derive(Debug, Clone, Copy, PartialEq, Eq, Hash, Structural)]
pub enum CurbApproach {
    EitherSide,
    RightSide,
    LeftSide,
    NoUTurn,
}

impl CurbApproach {
    /// The name the REST API uses for this value.
    pub open spec fn wire_name(self) -> Seq<char> {
        match self {
            CurbApproach::EitherSide => "esriNAEitherSideOfVehicle"@,
            CurbApproach::RightSide => "esriNARightSideOfVehicle"@,
            CurbApproach::LeftSide => "esriNALeftSideOfVehicle"@,
            CurbApproach::NoUTurn => "esriNANoUTurn"@,
        }
    }

    /// Each value has its own wire name, as listed; no two values share
    /// one.
    pub proof fn lemma_wire_names(a: Self, b: Self)
        ensures
            a.wire_name() == b.wire_name() ==> a == b,
            a == CurbApproach::EitherSide ==> a.wire_name() == "esriNAEitherSideOfVehicle"@,
            a == CurbApproach::RightSide ==> a.wire_name() == "esriNARightSideOfVehicle"@,
            a == CurbApproach::LeftSide ==> a.wire_name() == "esriNALeftSideOfVehicle"@,
            a == CurbApproach::NoUTurn ==> a.wire_name() == "esriNANoUTurn"@,
    {
        reveal_strlit("esriNAEitherSideOfVehicle");
        reveal_strlit("esriNALeftSideOfVehicle");
        reveal_strlit("esriNANoUTurn");
        reveal_strlit("esriNARightSideOfVehicle");
        assert("esriNAEitherSideOfVehicle"@.len() != "esriNARightSideOfVehicle"@.len());
        assert("esriNAEitherSideOfVehicle"@.len() != "esriNALeftSideOfVehicle"@.len());
        assert("esriNAEitherSideOfVehicle"@.len() != "esriNANoUTurn"@.len());
        assert("esriNARightSideOfVehicle"@.len() != "esriNALeftSideOfVehicle"@.len());
        assert("esriNARightSideOfVehicle"@.len() != "esriNANoUTurn"@.len());
        assert("esriNALeftSideOfVehicle"@.len() != "esriNANoUTurn"@.len());
    }

    /// Returns the name the REST API uses for this value.
    pub fn as_param(&self) -> (r: &'static str)
        ensures
            r@ == self.wire_name(),
    {
        match self {
            CurbApproach::EitherSide => "esriNAEitherSideOfVehicle",
            CurbApproach::RightSide => "esriNARightSideOfVehicle",
            CurbApproach::LeftSide => "esriNALeftSideOfVehicle",
            CurbApproach::NoUTurn => "esriNANoUTurn",
        }
    }
}

/// Predefined travel modes.
#[derive(Debug, Clone, Copy, PartialEq, Eq, Hash, Structural)]
pub enum TravelMode {
    DrivingTime,
    DrivingDistance,
    TruckingTime,
    TruckingDistance,
    WalkingTime,
    WalkingDistance,
    RuralDrivingTime,
    RuralDrivingDistance,
}

impl TravelMode {
    /// The name the REST API uses for this value.
    pub open spec fn wire_name(self) -> Seq<char> {
        match self {
            TravelMode::DrivingTime => "DRIVING_TIME"@,
            TravelMode::DrivingDistance => "DRIVING_DISTANCE"@,
            TravelMode::TruckingTime => "TRUCKING_TIME"@,
            TravelMode::TruckingDistance => "TRUCKING_DISTANCE"@,
            TravelMode::WalkingTime => "WALKING_TIME"@,
            TravelMode::WalkingDistance => "WALKING_DISTANCE"@,
            TravelMode::RuralDrivingTime => "RURAL_DRIVING_TIME"@,
            TravelMode::RuralDrivingDistance => "RURAL_DRIVING_DISTANCE"@,
        }
    }

    /// Each value has its own wire name, as listed; no two values share
    /// one.
    pub proof fn lemma_wire_names(a: Self, b: Self)
        ensures
            a.wire_name() == b.wire_name() ==> a == b,
            a == TravelMode::DrivingTime ==> a.wire_name() == "DRIVING_TIME"@,
            a == TravelMode::DrivingDistance ==> a.wire_name() == "DRIVING_DISTANCE"@,
            a == TravelMode::TruckingTime ==> a.wire_name() == "TRUCKING_TIME"@,
            a == TravelMode::TruckingDistance ==> a.wire_name() == "TRUCKING_DISTANCE"@,
            a == TravelMode::WalkingTime ==> a.wire_name() == "WALKING_TIME"@,
            a == TravelMode::WalkingDistance ==> a.wire_name() == "WALKING_DISTANCE"@,
            a == TravelMode::RuralDrivingTime ==> a.wire_name() == "RURAL_DRIVING_TIME"@,
            a == TravelMode::RuralDrivingDistance ==> a.wire_name() == "RURAL_DRIVING_DISTANCE"@,
    {
        reveal_strlit("DRIVING_DISTANCE");
        reveal_strlit("DRIVING_TIME");
        reveal_strlit("RURAL_DRIVING_DISTANCE");
        reveal_strlit("RURAL_DRIVING_TIME");
        reveal_strlit("TRUCKING_DISTANCE");
        reveal_strlit("TRUCKING_TIME");
        reveal_strlit("WALKING_DISTANCE");
        reveal_strlit("WALKING_TIME");
        assert("DRIVING_TIME"@.len() != "DRIVING_DISTANCE"@.len());
        assert("DRIVING_TIME"@.len() != "TRUCKING_TIME"@.len());
        assert("DRIVING_TIME"@.len() != "TRUCKING_DISTANCE"@.len());
        assert("DRIVING_TIME"@[0] != "WALKING_TIME"@[0]);
        assert("DRIVING_TIME"@.len() != "WALKING_DISTANCE"@.len());
        assert("DRIVING_TIME"@.len() != "RURAL_DRIVING_TIME"@.len());
        assert("DRIVING_TIME"@.len() != "RURAL_DRIVING_DISTANCE"@.len());
        assert("DRIVING_DISTANCE"@.len() != "TRUCKING_TIME"@.len());
        assert("DRIVING_DISTANCE"@.len() != "TRUCKING_DISTANCE"@.len());
        assert("DRIVING_DISTANCE"@.len() != "WALKING_TIME"@.len());
        assert("DRIVING_DISTANCE"@[0] != "WALKING_DISTANCE"@[0]);
        assert("DRIVING_DISTANCE"@.len() != "RURAL_DRIVING_TIME"@.len());
        assert("DRIVING_DISTANCE"@.len() != "RURAL_DRIVING_DISTANCE"@.len());
        assert("TRUCKING_TIME"@.len() != "TRUCKING_DISTANCE"@.len());
        assert("TRUCKING_TIME"@.len() != "WALKING_TIME"@.len());
        assert("TRUCKING_TIME"@.len() != "WALKING_DISTANCE"@.len());
        assert("TRUCKING_TIME"@.len() != "RURAL_DRIVING_TIME"@.len());
        assert("TRUCKING_TIME"@.len() != "RURAL_DRIVING_DISTANCE"@.len());
        assert("TRUCKING_DISTANCE"@.len() != "WALKING_TIME"@.len());
        assert("TRUCKING_DISTANCE"@.len() != "WALKING_DISTANCE"@.len());
        assert("TRUCKING_DISTANCE"@.len() != "RURAL_DRIVING_TIME"@.len());
        assert("TRUCKING_DISTANCE"@.len() != "RURAL_DRIVING_DISTANCE"@.len());
        assert("WALKING_TIME"@.len() != "WALKING_DISTANCE"@.len());
        assert("WALKING_TIME"@.len() != "RURAL_DRIVING_TIME"@.len());
        assert("WALKING_TIME"@.len() != "RURAL_DRIVING_DISTANCE"@.len());
        assert("WALKING_DISTANCE"@.len() != "RURAL_DRIVING_TIME"@.len());
        assert("WALKING_DISTANCE"@.len() != "RURAL_DRIVING_DISTANCE"@.len());
        assert("RURAL_DRIVING_TIME"@.len() != "RURAL_DRIVING_DISTANCE"@.len());
    }

    /// Returns the name the REST API uses for this value.
    pub fn as_param(&self) -> (r: &'static str)
        ensures
            r@ == self.wire_name(),
    {
        match self {
            TravelMode::DrivingTime => "DRIVING_TIME",
            TravelMode::DrivingDistance => "DRIVING_DISTANCE",
            TravelMode::TruckingTime => "TRUCKING_TIME",
            TravelMode::TruckingDistance => "TRUCKING_DISTANCE",
            TravelMode::WalkingTime => "WALKING_TIME",
            TravelMode::WalkingDistance => "WALKING_DISTANCE",
            TravelMode::RuralDrivingTime => "RURAL_DRIVING_TIME",
            TravelMode::RuralDrivingDistance => "RURAL_DRIVING_DISTANCE",
        }
    }
}

/// Cost attribute minimized by a solve.
#[derive(Debug, Clone, Copy, PartialEq, Eq, Hash, Structural)]
pub enum ImpedanceAttribute {
    TravelTime,
    Miles,
    Kilometers,
    TimeAt1KPH,
    WalkTime,
    TruckTravelTime,
}

impl ImpedanceAttribute {
    /// The name the REST API uses for this value.
    pub open spec fn wire_name(self) -> Seq<char> {
        match self {
            ImpedanceAttribute::TravelTime => "TravelTime"@,
            ImpedanceAttribute::Miles => "Miles"@,
            ImpedanceAttribute::Kilometers => "Kilometers"@,
            ImpedanceAttribute::TimeAt1KPH => "TimeAt1KPH"@,
            ImpedanceAttribute::WalkTime => "WalkTime"@,
            ImpedanceAttribute::TruckTravelTime => "TruckTravelTime"@,
        }
    }

    /// Each value has its own wire name, as listed; no two values share
    /// one.
    pub proof fn lemma_wire_names(a: Self, b: Self)
        ensures
            a.wire_name() == b.wire_name() ==> a == b,
            a == ImpedanceAttribute::TravelTime ==> a.wire_name() == "TravelTime"@,
            a == ImpedanceAttribute::Miles ==> a.wire_name() == "Miles"@,
            a == ImpedanceAttribute::Kilometers ==> a.wire_name() == "Kilometers"@,
            a == ImpedanceAttribute::TimeAt1KPH ==> a.wire_name() == "TimeAt1KPH"@,
            a == ImpedanceAttribute::WalkTime ==> a.wire_name() == "WalkTime"@,
            a == ImpedanceAttribute::TruckTravelTime ==> a.wire_name() == "TruckTravelTime"@,
    {
        reveal_strlit("Kilometers");
        reveal_strlit("Miles");
        reveal_strlit("TimeAt1KPH");
        reveal_strlit("TravelTime");
        reveal_strlit("TruckTravelTime");
        reveal_strlit("WalkTime");
        assert("TravelTime"@.len() != "Miles"@.len());
        assert("TravelTime"@[0] != "Kilometers"@[0]);
        assert("TravelTime"@[1] != "TimeAt1KPH"@[1]);
        assert("TravelTime"@.len() != "WalkTime"@.len());
        assert("TravelTime"@.len() != "TruckTravelTime"@.len());
        assert("Miles"@.len() != "Kilometers"@.len());
        assert("Miles"@.len() != "TimeAt1KPH"@.len());
        assert("Miles"@.len() != "WalkTime"@.len());
        assert("Miles"@.len() != "TruckTravelTime"@.len());
        assert("Kilometers"@[0] != "TimeAt1KPH"@[0]);
        assert("Kilometers"@.len() != "WalkTime"@.len());
        assert("Kilometers"@.len() != "TruckTravelTime"@.len());
        assert("TimeAt1KPH"@.len() != "WalkTime"@.len());
        assert("TimeAt1KPH"@.len() != "TruckTravelTime"@.len());
        assert("WalkTime"@.len() != "TruckTravelTime"@.len());
    }

    /// Returns the name the REST API uses for this value.
    pub fn as_param(&self) -> (r: &'static str)
        ensures
            r@ == self.wire_name(),
    {
        match self {
            ImpedanceAttribute::TravelTime => "TravelTime",
            ImpedanceAttribute::Miles => "Miles",
            ImpedanceAttribute::Kilometers => "Kilometers",
            ImpedanceAttribute::TimeAt1KPH => "TimeAt1KPH",
            ImpedanceAttribute::WalkTime => "WalkTime",
            ImpedanceAttribute::TruckTravelTime => "TruckTravelTime",
        }
    }
}

/// Restrictions honoured by a solve.
#[derive(Debug, Clone, PartialEq, Eq, Hash, Structural)]
pub enum RestrictionAttribute {
    AvoidTollRoads,
    AvoidHighways,
    AvoidUnpavedRoads,
    AvoidFerries,
    AvoidGates,
    Oneway,
    HeightRestriction,
    WeightRestriction,
    WeightPerAxleRestriction,
    LengthRestriction,
    WidthRestriction,
}

impl RestrictionAttribute {
    /// The name the REST API uses for this value.
    pub open spec fn wire_name(self) -> Seq<char> {
        match self {
            RestrictionAttribute::AvoidTollRoads => "Avoid Toll Roads"@,
            RestrictionAttribute::AvoidHighways => "Avoid Limited Access Roads"@,
            RestrictionAttribute::AvoidUnpavedRoads => "Avoid Unpaved Roads"@,
            RestrictionAttribute::AvoidFerries => "Avoid Ferries"@,
            RestrictionAttribute::AvoidGates => "Avoid Gates"@,
            RestrictionAttribute::Oneway => "Oneway"@,
            RestrictionAttribute::HeightRestriction => "Height Restriction"@,
            RestrictionAttribute::WeightRestriction => "Weight Restriction"@,
            RestrictionAttribute::WeightPerAxleRestriction => "Weight per Axle Restriction"@,
            RestrictionAttribute::LengthRestriction => "Length Restriction"@,
            RestrictionAttribute::WidthRestriction => "Width Restriction"@,
        }
    }

    /// Each value has its own wire name, as listed; no two values share
    /// one.
    pub proof fn lemma_wire_names(a: Self, b: Self)
        ensures
            a.wire_name() == b.wire_name() ==> a == b,
            a == RestrictionAttribute::AvoidTollRoads ==> a.wire_name() == "Avoid Toll Roads"@,
            a == RestrictionAttribute::AvoidHighways ==> a.wire_name() == "Avoid Limited Access Roads"@,
            a == RestrictionAttribute::AvoidUnpavedRoads ==> a.wire_name() == "Avoid Unpaved Roads"@,
            a == RestrictionAttribute::AvoidFerries ==> a.wire_name() == "Avoid Ferries"@,
            a == RestrictionAttribute::AvoidGates ==> a.wire_name() == "Avoid Gates"@,
            a == RestrictionAttribute::Oneway ==> a.wire_name() == "Oneway"@,
            a == RestrictionAttribute::HeightRestriction ==> a.wire_name() == "Height Restriction"@,
            a == RestrictionAttribute::WeightRestriction ==> a.wire_name() == "Weight Restriction"@,
            a == RestrictionAttribute::WeightPerAxleRestriction ==> a.wire_name() == "Weight per Axle Restriction"@,
            a == RestrictionAttribute::LengthRestriction ==> a.wire_name() == "Length Restriction"@,
            a == RestrictionAttribute::WidthRestriction ==> a.wire_name() == "Width Restriction"@,
    {
        reveal_strlit("Avoid Ferries");
        reveal_strlit("Avoid Gates");
        reveal_strlit("Avoid Limited Access Roads");
        reveal_strlit("Avoid Toll Roads");
        reveal_strlit("Avoid Unpaved Roads");
        reveal_strlit("Height Restriction");
        reveal_strlit("Length Restriction");
        reveal_strlit("Oneway");
        reveal_strlit("Weight Restriction");
        reveal_strlit("Weight per Axle Restriction");
        reveal_strlit("Width Restriction");
        assert("Avoid Toll Roads"@.len() != "Avoid Limited Access Roads"@.len());
        assert("Avoid Toll Roads"@.len() != "Avoid Unpaved Roads"@.len());
        assert("Avoid Toll Roads"@.len() != "Avoid Ferries"@.len());
        assert("Avoid Toll Roads"@.len() != "Avoid Gates"@.len());
        assert("Avoid Toll Roads"@.len() != "Oneway"@.len());
        assert("Avoid Toll Roads"@.len() != "Height Restriction"@.len());
        assert("Avoid Toll Roads"@.len() != "Weight Restriction"@.len());
        assert("Avoid Toll Roads"@.len() != "Weight per Axle Restriction"@.len());
        assert("Avoid Toll Roads"@.len() != "Length Restriction"@.len());
        assert("Avoid Toll Roads"@.len() != "Width Restriction"@.len());
        assert("Avoid Limited Access Roads"@.len() != "Avoid Unpaved Roads"@.len());
        assert("Avoid Limited Access Roads"@.len() != "Avoid Ferries"@.len());
        assert("Avoid Limited Access Roads"@.len() != "Avoid Gates"@.len());
        assert("Avoid Limited Access Roads"@.len() != "Oneway"@.len());
        assert("Avoid Limited Access Roads"@.len() != "Height Restriction"@.len());
        assert("Avoid Limited Access Roads"@.len() != "Weight Restriction"@.len());
        assert("Avoid Limited Access Roads"@.len() != "Weight per Axle Restriction"@.len());
        assert("Avoid Limited Access Roads"@.len() != "Length Restriction"@.len());
        assert("Avoid Limited Access Roads"@.len() != "Width Restriction"@.len());
        assert("Avoid Unpaved Roads"@.len() != "Avoid Ferries"@.len());
        assert("Avoid Unpaved Roads"@.len() != "Avoid Gates"@.len());
        assert("Avoid Unpaved Roads"@.len() != "Oneway"@.len());
        assert("Avoid Unpaved Roads"@.len() != "Height Restriction"@.len());
        assert("Avoid Unpaved Roads"@.len() != "Weight Restriction"@.len());
        assert("Avoid Unpaved Roads"@.len() != "Weight per Axle Restriction"@.len());
        assert("Avoid Unpaved Roads"@.len() != "Length Restriction"@.len());
        assert("Avoid Unpaved Roads"@.len() != "Width Restriction"@.len());
        assert("Avoid Ferries"@.len() != "Avoid Gates"@.len());
        assert("Avoid Ferries"@.len() != "Oneway"@.len());
        assert("Avoid Ferries"@.len() != "Height Restriction"@.len());
        assert("Avoid Ferries"@.len() != "Weight Restriction"@.len());
        assert("Avoid Ferries"@.len() != "Weight per Axle Restriction"@.len());
        assert("Avoid Ferries"@.len() != "Length Restriction"@.len());
        assert("Avoid Ferries"@.len() != "Width Restriction"@.len());
        assert("Avoid Gates"@.len() != "Oneway"@.len());
        assert("Avoid Gates"@.len() != "Height Restriction"@.len());
        assert("Avoid Gates"@.len() != "Weight Restriction"@.len());
        assert("Avoid Gates"@.len() != "Weight per Axle Restriction"@.len());
        assert("Avoid Gates"@.len() != "Length Restriction"@.len());
        assert("Avoid Gates"@.len() != "Width Restriction"@.len());
        assert("Oneway"@.len() != "Height Restriction"@.len());
        assert("Oneway"@.len() != "Weight Restriction"@.len());
        assert("Oneway"@.len() != "Weight per Axle Restriction"@.len());
        assert("Oneway"@.len() != "Length Restriction"@.len());
        assert("Oneway"@.len() != "Width Restriction"@.len());
        assert("Height Restriction"@[0] != "Weight Restriction"@[0]);
        assert("Height Restriction"@.len() != "Weight per Axle Restriction"@.len());
        assert("Height Restriction"@[0] != "Length Restriction"@[0]);
        assert("Height Restriction"@.len() != "Width Restriction"@.len());
        assert("Weight Restriction"@.len() != "Weight per Axle Restriction"@.len());
        assert("Weight Restriction"@[0] != "Length Restriction"@[0]);
        assert("Weight Restriction"@.len() != "Width Restriction"@.len());
        assert("Weight per Axle Restriction"@.len() != "Length Restriction"@.len());
        assert("Weight per Axle Restriction"@.len() != "Width Restriction"@.len());
        assert("Length Restriction"@.len() != "Width Restriction"@.len());
    }

    /// Returns the name the REST API uses for this value.
    pub fn as_param(&self) -> (r: &'static str)
        ensures
            r@ == self.wire_name(),
    {
        match self {
            RestrictionAttribute::AvoidTollRoads => "Avoid Toll Roads",
            RestrictionAttribute::AvoidHighways => "Avoid Limited Access Roads",
            RestrictionAttribute::AvoidUnpavedRoads => "Avoid Unpaved Roads",
            RestrictionAttribute::AvoidFerries => "Avoid Ferries",
            RestrictionAttribute::AvoidGates => "Avoid Gates",
            RestrictionAttribute::Oneway => "Oneway",
            RestrictionAttribute::HeightRestriction => "Height Restriction",
            RestrictionAttribute::WeightRestriction => "Weight Restriction",
            RestrictionAttribute::WeightPerAxleRestriction => "Weight per Axle Restriction",
            RestrictionAttribute::LengthRestriction => "Length Restriction",
            RestrictionAttribute::WidthRestriction => "Width Restriction",
        }
    }
}

/// Where U-turns are allowed.
#[derive(Debug, Clone, Copy, PartialEq, Eq, Hash, Structural)]
pub enum UTurnPolicy {
    AllowBacktrack,
    AtDeadEndsOnly,
    AtDeadEndsAndIntersections,
    NoBacktrack,
}

impl UTurnPolicy {
    /// The name the REST API uses for this value.
    pub open spec fn wire_name(self) -> Seq<char> {
        match self {
            UTurnPolicy::AllowBacktrack => "esriNFSBAllowBacktrack"@,
            UTurnPolicy::AtDeadEndsOnly => "esriNFSBAtDeadEndsOnly"@,
            UTurnPolicy::AtDeadEndsAndIntersections => "esriNFSBAtDeadEndsAndIntersections"@,
            UTurnPolicy::NoBacktrack => "esriNFSBNoBacktrack"@,
        }
    }

    /// Each value has its own wire name, as listed; no two values share
    /// one.
    pub proof fn lemma_wire_names(a: Self, b: Self)
        ensures
            a.wire_name() == b.wire_name() ==> a == b,
            a == UTurnPolicy::AllowBacktrack ==> a.wire_name() == "esriNFSBAllowBacktrack"@,
            a == UTurnPolicy::AtDeadEndsOnly ==> a.wire_name() == "esriNFSBAtDeadEndsOnly"@,
            a == UTurnPolicy::AtDeadEndsAndIntersections ==> a.wire_name() == "esriNFSBAtDeadEndsAndIntersections"@,
            a == UTurnPolicy::NoBacktrack ==> a.wire_name() == "esriNFSBNoBacktrack"@,
    {
        reveal_strlit("esriNFSBAllowBacktrack");
        reveal_strlit("esriNFSBAtDeadEndsAndIntersections");
        reveal_strlit("esriNFSBAtDeadEndsOnly");
        reveal_strlit("esriNFSBNoBacktrack");
        assert("esriNFSBAllowBacktrack"@[9] != "esriNFSBAtDeadEndsOnly"@[9]);
        assert("esriNFSBAllowBacktrack"@.len() != "esriNFSBAtDeadEndsAndIntersections"@.len());
        assert("esriNFSBAllowBacktrack"@.len() != "esriNFSBNoBacktrack"@.len());
        assert("esriNFSBAtDeadEndsOnly"@.len() != "esriNFSBAtDeadEndsAndIntersections"@.len());
        assert("esriNFSBAtDeadEndsOnly"@.len() != "esriNFSBNoBacktrack"@.len());
        assert("esriNFSBAtDeadEndsAndIntersections"@.len() != "esriNFSBNoBacktrack"@.len());
    }

    /// Returns the name the REST API uses for this value.
    pub fn as_param(&self) -> (r: &'static str)
        ensures
            r@ == self.wire_name(),
    {
        match self {
            UTurnPolicy::AllowBacktrack => "esriNFSBAllowBacktrack",
            UTurnPolicy::AtDeadEndsOnly => "esriNFSBAtDeadEndsOnly",
            UTurnPolicy::AtDeadEndsAndIntersections => "esriNFSBAtDeadEndsAndIntersections",
            UTurnPolicy::NoBacktrack => "esriNFSBNoBacktrack",
        }
    }
}

/// Shape of output route lines.
#[derive(Debug, Clone, Copy, PartialEq, Eq, Hash, Structural)]
pub enum OutputLine {
    /// No line (`esriNAOutputLineNone`).
    NoLine,
    Straight,
    TrueShapeWithMeasure,
}

impl OutputLine {
    /// The name the REST API uses for this value.
    pub open spec fn wire_name(self) -> Seq<char> {
        match self {
            OutputLine::NoLine => "esriNAOutputLineNone"@,
            OutputLine::Straight => "esriNAOutputLineStraight"@,
            OutputLine::TrueShapeWithMeasure => "esriNAOutputLineTrueShapeWithMeasure"@,
        }
    }

    /// Each value has its own wire name, as listed; no two values share
    /// one.
    pub proof fn lemma_wire_names(a: Self, b: Self)
        ensures
            a.wire_name() == b.wire_name() ==> a == b,
            a == OutputLine::NoLine ==> a.wire_name() == "esriNAOutputLineNone"@,
            a == OutputLine::Straight ==> a.wire_name() == "esriNAOutputLineStraight"@,
            a == OutputLine::TrueShapeWithMeasure ==> a.wire_name() == "esriNAOutputLineTrueShapeWithMeasure"@,
    {
        reveal_strlit("esriNAOutputLineNone");
        reveal_strlit("esriNAOutputLineStraight");
        reveal_strlit("esriNAOutputLineTrueShapeWithMeasure");
        assert("esriNAOutputLineNone"@.len() != "esriNAOutputLineStraight"@.len());
        assert("esriNAOutputLineNone"@.len() != "esriNAOutputLineTrueShapeWithMeasure"@.len());
        assert("esriNAOutputLineStraight"@.len() != "esriNAOutputLineTrueShapeWithMeasure"@.len());
    }

    /// Returns the name the REST API uses for this value.
    pub fn as_param(&self) -> (r: &'static str)
        ensures
            r@ == self.wire_name(),
    {
        match self {
            OutputLine::NoLine => "esriNAOutputLineNone",
            OutputLine::Straight => "esriNAOutputLineStraight",
            OutputLine::TrueShapeWithMeasure => "esriNAOutputLineTrueShapeWithMeasure",
        }
    }
}

/// Direction of travel relative to facilities.
#[derive(Debug, Clone, Copy, PartialEq, Eq, Hash, Structural)]
pub enum TravelDirection {
    FromFacility,
    ToFacility,
}

impl TravelDirection {
    /// The name the REST API uses for this value.
    pub open spec fn wire_name(self) -> Seq<char> {
        match self {
            TravelDirection::FromFacility => "esriNATravelDirectionFromFacility"@,
            TravelDirection::ToFacility => "esriNATravelDirectionToFacility"@,
        }
    }

    /// Each value has its own wire name, as listed; no two values share
    /// one.
    pub proof fn lemma_wire_names(a: Self, b: Self)
        ensures
            a.wire_name() == b.wire_name() ==> a == b,
            a == TravelDirection::FromFacility ==> a.wire_name() == "esriNATravelDirectionFromFacility"@,
            a == TravelDirection::ToFacility ==> a.wire_name() == "esriNATravelDirectionToFacility"@,
    {
        reveal_strlit("esriNATravelDirectionFromFacility");
        reveal_strlit("esriNATravelDirectionToFacility");
        assert("esriNATravelDirectionFromFacility"@.len() != "esriNATravelDirectionToFacility"@.len());
    }

    /// Returns the name the REST API uses for this value.
    pub fn as_param(&self) -> (r: &'static str)
        ensures
            r@ == self.wire_name(),
    {
        match self {
            TravelDirection::FromFacility => "esriNATravelDirectionFromFacility",
            TravelDirection::ToFacility => "esriNATravelDirectionToFacility",
        }
    }
}

/// Kind of barrier.
#[derive(Debug, Clone, Copy, PartialEq, Eq, Hash, Structural)]
pub enum BarrierType {
    Point,
    Line,
    Polygon,
}

impl BarrierType {
    /// The name the REST API uses for this value.
    pub open spec fn wire_name(self) -> Seq<char> {
        match self {
            BarrierType::Point => "Point"@,
            BarrierType::Line => "Line"@,
            BarrierType::Polygon => "Polygon"@,
        }
    }

    /// Each value has its own wire name, as listed; no two values share
    /// one.
    pub proof fn lemma_wire_names(a: Self, b: Self)
        ensures
            a.wire_name() == b.wire_name() ==> a == b,
            a == BarrierType::Point ==> a.wire_name() == "Point"@,
            a == BarrierType::Line ==> a.wire_name() == "Line"@,
            a == BarrierType::Polygon ==> a.wire_name() == "Polygon"@,
    {
        reveal_strlit("Line");
        reveal_strlit("Point");
        reveal_strlit("Polygon");
        assert("Point"@.len() != "Line"@.len());
        assert("Point"@.len() != "Polygon"@.len());
        assert("Line"@.len() != "Polygon"@.len());
    }

    /// Returns the name the REST API uses for this value.
    pub fn as_param(&self) -> (r: &'static str)
        ensures
            r@ == self.wire_name(),
    {
        match self {
            BarrierType::Point => "Point",
            BarrierType::Line => "Line",
            BarrierType::Polygon => "Polygon",
        }
    }
}

/// Length units of directions.
#[derive(Debug, Clone, Copy, PartialEq, Eq, Hash, Structural)]
pub enum DirectionsLength {
    Miles,
    Kilometers,
    Meters,
    Feet,
    Yards,
    NauticalMiles,
}

impl DirectionsLength {
    /// The name the REST API uses for this value.
    pub open spec fn wire_name(self) -> Seq<char> {
        match self {
            DirectionsLength::Miles => "esriNAMiles"@,
            DirectionsLength::Kilometers => "esriNAKilometers"@,
            DirectionsLength::Meters => "esriNAMeters"@,
            DirectionsLength::Feet => "esriNAFeet"@,
            DirectionsLength::Yards => "esriNAYards"@,
            DirectionsLength::NauticalMiles => "esriNANauticalMiles"@,
        }
    }

    /// Each value has its own wire name, as listed; no two values share
    /// one.
    pub proof fn lemma_wire_names(a: Self, b: Self)
        ensures
            a.wire_name() == b.wire_name() ==> a == b,
            a == DirectionsLength::Miles ==> a.wire_name() == "esriNAMiles"@,
            a == DirectionsLength::Kilometers ==> a.wire_name() == "esriNAKilometers"@,
            a == DirectionsLength::Meters ==> a.wire_name() == "esriNAMeters"@,
            a == DirectionsLength::Feet ==> a.wire_name() == "esriNAFeet"@,
            a == DirectionsLength::Yards ==> a.wire_name() == "esriNAYards"@,
            a == DirectionsLength::NauticalMiles ==> a.wire_name() == "esriNANauticalMiles"@,
    {
        reveal_strlit("esriNAFeet");
        reveal_strlit("esriNAKilometers");
        reveal_strlit("esriNAMeters");
        reveal_strlit("esriNAMiles");
        reveal_strlit("esriNANauticalMiles");
        reveal_strlit("esriNAYards");
        assert("esriNAMiles"@.len() != "esriNAKilometers"@.len());
        assert("esriNAMiles"@.len() != "esriNAMeters"@.len());
        assert("esriNAMiles"@.len() != "esriNAFeet"@.len());
        assert("esriNAMiles"@[6] != "esriNAYards"@[6]);
        assert("esriNAMiles"@.len() != "esriNANauticalMiles"@.len());
        assert("esriNAKilometers"@.len() != "esriNAMeters"@.len());
        assert("esriNAKilometers"@.len() != "esriNAFeet"@.len());
        assert("esriNAKilometers"@.len() != "esriNAYards"@.len());
        assert("esriNAKilometers"@.len() != "esriNANauticalMiles"@.len());
        assert("esriNAMeters"@.len() != "esriNAFeet"@.len());
        assert("esriNAMeters"@.len() != "esriNAYards"@.len());
        assert("esriNAMeters"@.len() != "esriNANauticalMiles"@.len());
        assert("esriNAFeet"@.len() != "esriNAYards"@.len());
        assert("esriNAFeet"@.len() != "esriNANauticalMiles"@.len());
        assert("esriNAYards"@.len() != "esriNANauticalMiles"@.len());
    }

    /// Returns the name the REST API uses for this value.
    pub fn as_param(&self) -> (r: &'static str)
        ensures
            r@ == self.wire_name(),
    {
        match self {
            DirectionsLength::Miles => "esriNAMiles",
            DirectionsLength::Kilometers => "esriNAKilometers",
            DirectionsLength::Meters => "esriNAMeters",
            DirectionsLength::Feet => "esriNAFeet",
            DirectionsLength::Yards => "esriNAYards",
            DirectionsLength::NauticalMiles => "esriNANauticalMiles",
        }
    }
}

/// Time attribute of directions.
#[derive(Debug, Clone, Copy, PartialEq, Eq, Hash, Structural)]
pub enum DirectionsTimeAttribute {
    TravelTime,
    WalkTime,
    TruckTravelTime,
}

impl DirectionsTimeAttribute {
    /// The name the REST API uses for this value.
    pub open spec fn wire_name(self) -> Seq<char> {
        match self {
            DirectionsTimeAttribute::TravelTime => "TravelTime"@,
            DirectionsTimeAttribute::WalkTime => "WalkTime"@,
            DirectionsTimeAttribute::TruckTravelTime => "TruckTravelTime"@,
        }
    }

    /// Each value has its own wire name, as listed; no two values share
    /// one.
    pub proof fn lemma_wire_names(a: Self, b: Self)
        ensures
            a.wire_name() == b.wire_name() ==> a == b,
            a == DirectionsTimeAttribute::TravelTime ==> a.wire_name() == "TravelTime"@,
            a == DirectionsTimeAttribute::WalkTime ==> a.wire_name() == "WalkTime"@,
            a == DirectionsTimeAttribute::TruckTravelTime ==> a.wire_name() == "TruckTravelTime"@,
    {
        reveal_strlit("TravelTime");
        reveal_strlit("TruckTravelTime");
        reveal_strlit("WalkTime");
        assert("TravelTime"@.len() != "WalkTime"@.len());
        assert("TravelTime"@.len() != "TruckTravelTime"@.len());
        assert("WalkTime"@.len() != "TruckTravelTime"@.len());
    }

    /// Returns the name the REST API uses for this value.
    pub fn as_param(&self) -> (r: &'static str)
        ensures
            r@ == self.wire_name(),
    {
        match self {
            DirectionsTimeAttribute::TravelTime => "TravelTime",
            DirectionsTimeAttribute::WalkTime => "WalkTime",
            DirectionsTimeAttribute::TruckTravelTime => "TruckTravelTime",
        }
    }
}

/// Style of directions.
#[derive(Debug, Clone, Copy, PartialEq, Eq, Hash, Structural)]
pub enum DirectionsStyle {
    Standard,
    Print,
    Desktop,
    Navigation,
}

impl DirectionsStyle {
    /// The name the REST API uses for this value.
    pub open spec fn wire_name(self) -> Seq<char> {
        match self {
            DirectionsStyle::Standard => "esriDMTStandard"@,
            DirectionsStyle::Print => "esriDMTPrint"@,
            DirectionsStyle::Desktop => "esriDMTDesktop"@,
            DirectionsStyle::Navigation => "esriDMTNavigation"@,
        }
    }

    /// Each value has its own wire name, as listed; no two values share
    /// one.
    pub proof fn lemma_wire_names(a: Self, b: Self)
        ensures
            a.wire_name() == b.wire_name() ==> a == b,
            a == DirectionsStyle::Standard ==> a.wire_name() == "esriDMTStandard"@,
            a == DirectionsStyle::Print ==> a.wire_name() == "esriDMTPrint"@,
            a == DirectionsStyle::Desktop ==> a.wire_name() == "esriDMTDesktop"@,
            a == DirectionsStyle::Navigation ==> a.wire_name() == "esriDMTNavigation"@,
    {
        reveal_strlit("esriDMTDesktop");
        reveal_strlit("esriDMTNavigation");
        reveal_strlit("esriDMTPrint");
        reveal_strlit("esriDMTStandard");
        assert("esriDMTStandard"@.len() != "esriDMTPrint"@.len());
        assert("esriDMTStandard"@.len() != "esriDMTDesktop"@.len());
        assert("esriDMTStandard"@.len() != "esriDMTNavigation"@.len());
        assert("esriDMTPrint"@.len() != "esriDMTDesktop"@.len());
        assert("esriDMTPrint"@.len() != "esriDMTNavigation"@.len());
        assert("esriDMTDesktop"@.len() != "esriDMTNavigation"@.len());
    }

    /// Returns the name the REST API uses for this value.
    pub fn as_param(&self) -> (r: &'static str)
        ensures
            r@ == self.wire_name(),
    {
        match self {
            DirectionsStyle::Standard => "esriDMTStandard",
            DirectionsStyle::Print => "esriDMTPrint",
            DirectionsStyle::Desktop => "esriDMTDesktop",
            DirectionsStyle::Navigation => "esriDMTNavigation",
        }
    }
}

/// Shape of returned routes.
#[derive(Debug, Clone, Copy, PartialEq, Eq, Hash, Structural)]
pub enum RouteShape {
    /// No shape (`none`).
    NoShape,
    Straight,
    True,
    TrueShapeWithMeasures,
}

impl RouteShape {
    /// The name the REST API uses for this value.
    pub open spec fn wire_name(self) -> Seq<char> {
        match self {
            RouteShape::NoShape => "none"@,
            RouteShape::Straight => "straight"@,
            RouteShape::True => "true"@,
            RouteShape::TrueShapeWithMeasures => "trueShapeWithMeasures"@,
        }
    }

    /// Each value has its own wire name, as listed; no two values share
    /// one.
    pub proof fn lemma_wire_names(a: Self, b: Self)
        ensures
            a.wire_name() == b.wire_name() ==> a == b,
            a == RouteShape::NoShape ==> a.wire_name() == "none"@,
            a == RouteShape::Straight ==> a.wire_name() == "straight"@,
            a == RouteShape::True ==> a.wire_name() == "true"@,
            a == RouteShape::TrueShapeWithMeasures ==> a.wire_name() == "trueShapeWithMeasures"@,
    {
        reveal_strlit("none");
        reveal_strlit("straight");
        reveal_strlit("true");
        reveal_strlit("trueShapeWithMeasures");
        assert("none"@.len() != "straight"@.len());
        assert("none"@[0] != "true"@[0]);
        assert("none"@.len() != "trueShapeWithMeasures"@.len());
        assert("straight"@.len() != "true"@.len());
        assert("straight"@.len() != "trueShapeWithMeasures"@.len());
        assert("true"@.len() != "trueShapeWithMeasures"@.len());
    }

    /// Returns the name the REST API uses for this value.
    pub fn as_param(&self) -> (r: &'static str)
        ensures
            r@ == self.wire_name(),
    {
        match self {
            RouteShape::NoShape => "none",
            RouteShape::Straight => "straight",
            RouteShape::True => "true",
            RouteShape::TrueShapeWithMeasures => "trueShapeWithMeasures",
        }
    }
}

impl CurbApproach {
    /// The integer code of the approach in feature attributes.
    pub open spec fn code_of(self) -> i64 {
        match self {
            CurbApproach::EitherSide => 0,
            CurbApproach::RightSide => 1,
            CurbApproach::LeftSide => 2,
            CurbApproach::NoUTurn => 3,
        }
    }

    /// Returns the integer code of the approach.
    pub fn code(&self) -> (r: i64)
        ensures
            r == self.code_of(),
    {
        match self {
            CurbApproach::EitherSide => 0,
            CurbApproach::RightSide => 1,
            CurbApproach::LeftSide => 2,
            CurbApproach::NoUTurn => 3,
        }
    }

    /// The approach with the given code; codes other than 0 to 3 name none.
    pub fn from_code(code: i64) -> (r: Option<CurbApproach>)
        ensures
            r matches Some(c) ==> c.code_of() == code,
            r is None <==> !(0 <= code <= 3),
    {
        if code == 0 {
            Some(CurbApproach::EitherSide)
        } else if code == 1 {
            Some(CurbApproach::RightSide)
        } else if code == 2 {
            Some(CurbApproach::LeftSide)
        } else if code == 3 {
            Some(CurbApproach::NoUTurn)
        } else {
            None
        }
    }
}

/// Reading back the code of an approach gives the approach.
pub proof fn lemma_curb_code_round_trip(c: CurbApproach)
    ensures
        0 <= c.code_of() <= 3,
        forall|d: CurbApproach| d.code_of() == c.code_of() ==> d == c,
{
}

/// The `Sequence` attribute of a stop as an `i32`: the low 32 bits of the
/// 64-bit attribute, as a truncating cast gives them.
pub fn stop_sequence(raw: i64) -> (r: i32)
    ensures
        r == raw as i32,
{
    raw as i32
}

/// A network location: a geometry (its compact JSON) with an optional
/// name and curb approach.
#[derive(Debug, Clone)]
pub struct NALocation {
    pub geometry: String,
    pub name: Option<String>,
    pub curb_approach: Option<CurbApproach>,
}

impl NALocation {
    /// A location at the given geometry, with no name and no approach.
    pub fn new(geometry: String) -> (r: NALocation)
        ensures
            r.geometry@ == geometry@,
            r.name is None,
            r.curb_approach is None,
    {
        NALocation { geometry, name: None, curb_approach: None }
    }

    /// The same location with a name.
    pub fn with_name(self, name: String) -> (r: NALocation)
        ensures
            r.geometry@ == self.geometry@,
            r.name.deep_view() == Some(name@),
            r.curb_approach == self.curb_approach,
    {
        NALocation { geometry: self.geometry, name: Some(name), curb_approach: self.curb_approach }
    }

    /// The same location with a curb approach.
    pub fn with_curb_approach(self, approach: CurbApproach) -> (r: NALocation)
        ensures
            r.geometry@ == self.geometry@,
            r.name.deep_view() == self.name.deep_view(),
            r.curb_approach == Some(approach),
    {
        NALocation { geometry: self.geometry, name: self.name, curb_approach: Some(approach) }
    }
}

/// A message returned by a solve.
#[derive(Debug, Clone, PartialEq, Eq)]
pub struct NAMessage {
    pub message_type: i32,
    pub description: String,
}

} // verus!
