//! The enumerations that travel as small integers on the wire.
//!
//! Each has a total mapping to its wire code and a partial mapping back: a
//! code outside the enumeration is refused, never coerced.

use vstd::prelude::*;
use vstd::string::*;

verus! {

/// The kind of an aircraft.
#[derive(Debug, Copy, Clone, PartialEq, Eq)]
pub enum AircraftType {
    /// Not declared.
    Undeclared,
    /// Fixed-wing aeroplane.
    Aeroplane,
    /// Helicopter or multirotor.
    Rotorcraft,
    /// Gyroplane.
    Gyroplane,
    /// Hybrid lift: fixed wing that takes off and lands vertically.
    Hybridlift,
    /// Ornithopter.
    Ornithopter,
    /// Glider.
    Glider,
    /// Kite.
    Kite,
    /// Free balloon.
    Freeballoon,
    /// Captive balloon.
    Captiveballoon,
    /// Airship.
    Airship,
    /// Free fall or parachute, unpowered.
    Unpowered,
    /// Rocket.
    Rocket,
    /// Tethered powered aircraft.
    Tethered,
    /// Ground obstacle.
    Groundobstacle,
    /// Anything else.
    Other,
}

/// What an aircraft is doing.
#[derive(Debug, Copy, Clone, PartialEq, Eq)]
pub enum OperationalStatus {
    /// Not declared.
    Undeclared,
    /// On the ground.
    Ground,
    /// In the air.
    Airborne,
    /// In an emergency.
    Emergency,
    /// Its identification system has failed.
    RemoteIdSystemFailure,
}

/// The kind of a node of the routing graph.
#[derive(Debug, Copy, Clone, PartialEq, Eq)]
pub enum NodeType {
    /// A vertiport.
    Vertiport,
    /// A waypoint.
    Waypoint,
    /// An aircraft.
    Aircraft,
}

/// The texts of `labels`.
pub open spec fn label_views(labels: Seq<String>) -> Seq<Seq<char>> {
    Seq::new(labels.len(), |i: int| labels[i]@)
}

impl AircraftType {
    /// The wire code of this kind.
    pub open spec fn code(self) -> int {
        match self {
            AircraftType::Undeclared => 0,
            AircraftType::Aeroplane => 1,
            AircraftType::Rotorcraft => 2,
            AircraftType::Gyroplane => 3,
            AircraftType::Hybridlift => 4,
            AircraftType::Ornithopter => 5,
            AircraftType::Glider => 6,
            AircraftType::Kite => 7,
            AircraftType::Freeballoon => 8,
            AircraftType::Captiveballoon => 9,
            AircraftType::Airship => 10,
            AircraftType::Unpowered => 11,
            AircraftType::Rocket => 12,
            AircraftType::Tethered => 13,
            AircraftType::Groundobstacle => 14,
            AircraftType::Other => 15,
        }
    }

    /// The kind that the wire code `code` stands for, if any.
    pub open spec fn of_code(code: int) -> Option<AircraftType> {
        if code == 0 {
            Some(AircraftType::Undeclared)
        } else if code == 1 {
            Some(AircraftType::Aeroplane)
        } else if code == 2 {
            Some(AircraftType::Rotorcraft)
        } else if code == 3 {
            Some(AircraftType::Gyroplane)
        } else if code == 4 {
            Some(AircraftType::Hybridlift)
        } else if code == 5 {
            Some(AircraftType::Ornithopter)
        } else if code == 6 {
            Some(AircraftType::Glider)
        } else if code == 7 {
            Some(AircraftType::Kite)
        } else if code == 8 {
            Some(AircraftType::Freeballoon)
        } else if code == 9 {
            Some(AircraftType::Captiveballoon)
        } else if code == 10 {
            Some(AircraftType::Airship)
        } else if code == 11 {
            Some(AircraftType::Unpowered)
        } else if code == 12 {
            Some(AircraftType::Rocket)
        } else if code == 13 {
            Some(AircraftType::Tethered)
        } else if code == 14 {
            Some(AircraftType::Groundobstacle)
        } else if code == 15 {
            Some(AircraftType::Other)
        } else {
            None
        }
    }

    /// The label of this kind in the store's enumeration.
    pub open spec fn label(self) -> Seq<char> {
        match self {
            AircraftType::Undeclared => "Undeclared"@,
            AircraftType::Aeroplane => "Aeroplane"@,
            AircraftType::Rotorcraft => "Rotorcraft"@,
            AircraftType::Gyroplane => "Gyroplane"@,
            AircraftType::Hybridlift => "Hybridlift"@,
            AircraftType::Ornithopter => "Ornithopter"@,
            AircraftType::Glider => "Glider"@,
            AircraftType::Kite => "Kite"@,
            AircraftType::Freeballoon => "Freeballoon"@,
            AircraftType::Captiveballoon => "Captiveballoon"@,
            AircraftType::Airship => "Airship"@,
            AircraftType::Unpowered => "Unpowered"@,
            AircraftType::Rocket => "Rocket"@,
            AircraftType::Tethered => "Tethered"@,
            AircraftType::Groundobstacle => "Groundobstacle"@,
            AircraftType::Other => "Other"@,
        }
    }

    /// Decodes a wire code. An unknown code gives `None`.
    pub fn from_i32(code: i32) -> (kind: Option<AircraftType>)
        ensures
            kind == AircraftType::of_code(code as int),
            kind is Some <==> 0 <= code <= 15,
    {
        match code {
            0 => Some(AircraftType::Undeclared),
            1 => Some(AircraftType::Aeroplane),
            2 => Some(AircraftType::Rotorcraft),
            3 => Some(AircraftType::Gyroplane),
            4 => Some(AircraftType::Hybridlift),
            5 => Some(AircraftType::Ornithopter),
            6 => Some(AircraftType::Glider),
            7 => Some(AircraftType::Kite),
            8 => Some(AircraftType::Freeballoon),
            9 => Some(AircraftType::Captiveballoon),
            10 => Some(AircraftType::Airship),
            11 => Some(AircraftType::Unpowered),
            12 => Some(AircraftType::Rocket),
            13 => Some(AircraftType::Tethered),
            14 => Some(AircraftType::Groundobstacle),
            15 => Some(AircraftType::Other),
            _ => None,
        }
    }

    /// Encodes this kind for the wire.
    pub fn to_i32(&self) -> (code: i32)
        ensures
            code == self.code(),
            AircraftType::of_code(code as int) == Some(*self),
    {
        match self {
            AircraftType::Undeclared => 0,
            AircraftType::Aeroplane => 1,
            AircraftType::Rotorcraft => 2,
            AircraftType::Gyroplane => 3,
            AircraftType::Hybridlift => 4,
            AircraftType::Ornithopter => 5,
            AircraftType::Glider => 6,
            AircraftType::Kite => 7,
            AircraftType::Freeballoon => 8,
            AircraftType::Captiveballoon => 9,
            AircraftType::Airship => 10,
            AircraftType::Unpowered => 11,
            AircraftType::Rocket => 12,
            AircraftType::Tethered => 13,
            AircraftType::Groundobstacle => 14,
            AircraftType::Other => 15,
        }
    }

    /// The label of this kind in the store's enumeration.
    pub fn to_string(&self) -> (text: String)
        ensures
            text@ == self.label(),
    {
        match self {
            AircraftType::Undeclared => String::from_str("Undeclared"),
            AircraftType::Aeroplane => String::from_str("Aeroplane"),
            AircraftType::Rotorcraft => String::from_str("Rotorcraft"),
            AircraftType::Gyroplane => String::from_str("Gyroplane"),
            AircraftType::Hybridlift => String::from_str("Hybridlift"),
            AircraftType::Ornithopter => String::from_str("Ornithopter"),
            AircraftType::Glider => String::from_str("Glider"),
            AircraftType::Kite => String::from_str("Kite"),
            AircraftType::Freeballoon => String::from_str("Freeballoon"),
            AircraftType::Captiveballoon => String::from_str("Captiveballoon"),
            AircraftType::Airship => String::from_str("Airship"),
            AircraftType::Unpowered => String::from_str("Unpowered"),
            AircraftType::Rocket => String::from_str("Rocket"),
            AircraftType::Tethered => String::from_str("Tethered"),
            AircraftType::Groundobstacle => String::from_str("Groundobstacle"),
            AircraftType::Other => String::from_str("Other"),
        }
    }

    /// The label of the kind with the wire code `code`.
    pub open spec fn label_of_code(code: int) -> Seq<char> {
        match AircraftType::of_code(code) {
            Some(kind) => kind.label(),
            None => Seq::empty(),
        }
    }

    /// The labels of every kind, in the order of the wire codes.
    pub open spec fn all_labels() -> Seq<Seq<char>> {
        Seq::new(16, |code: int| AircraftType::label_of_code(code))
    }

    /// The labels of every kind, in the order of the wire codes.
    pub fn labels() -> (labels: Vec<String>)
        ensures
            label_views(labels@) == AircraftType::all_labels(),
    {
        let mut labels: Vec<String> = Vec::new();
        let mut code: i32 = 0;
        while code < 16
            invariant
                0 <= code <= 16,
                labels@.len() == code,
                forall|c: int|
                    0 <= c < code ==> (#[trigger] labels@[c])@ == AircraftType::label_of_code(c),
            decreases 16 - code,
        {
            match AircraftType::from_i32(code) {
                Some(kind) => {
                    labels.push(kind.to_string());
                },
                None => {},
            }
            code += 1;
        }
        labels
    }
}

impl OperationalStatus {
    /// The label of this status in the store's enumeration.
    pub open spec fn label(self) -> Seq<char> {
        match self {
            OperationalStatus::Undeclared => "Undeclared"@,
            OperationalStatus::Ground => "Ground"@,
            OperationalStatus::Airborne => "Airborne"@,
            OperationalStatus::Emergency => "Emergency"@,
            OperationalStatus::RemoteIdSystemFailure => "RemoteIdSystemFailure"@,
        }
    }

    /// The label of this status in the store's enumeration.
    pub fn to_string(&self) -> (text: String)
        ensures
            text@ == self.label(),
    {
        match self {
            OperationalStatus::Undeclared => String::from_str("Undeclared"),
            OperationalStatus::Ground => String::from_str("Ground"),
            OperationalStatus::Airborne => String::from_str("Airborne"),
            OperationalStatus::Emergency => String::from_str("Emergency"),
            OperationalStatus::RemoteIdSystemFailure => String::from_str("RemoteIdSystemFailure"),
        }
    }

    /// The label of the status with the wire code `code`.
    pub open spec fn label_of_code(code: int) -> Seq<char> {
        match OperationalStatus::of_code(code) {
            Some(status) => status.label(),
            None => Seq::empty(),
        }
    }

    /// The labels of every status, in the order of the wire codes.
    pub open spec fn all_labels() -> Seq<Seq<char>> {
        Seq::new(5, |code: int| OperationalStatus::label_of_code(code))
    }

    /// The labels of every status, in the order of the wire codes.
    pub fn labels() -> (labels: Vec<String>)
        ensures
            label_views(labels@) == OperationalStatus::all_labels(),
    {
        let mut labels: Vec<String> = Vec::new();
        let mut code: i32 = 0;
        while code < 5
            invariant
                0 <= code <= 5,
                labels@.len() == code,
                forall|c: int|
                    0 <= c < code ==> (#[trigger] labels@[c])@ == OperationalStatus::label_of_code(
                        c,
                    ),
            decreases 5 - code,
        {
            match OperationalStatus::from_i32(code) {
                Some(status) => {
                    labels.push(status.to_string());
                },
                None => {},
            }
            code += 1;
        }
        labels
    }

    /// The wire code of this status.
    pub open spec fn code(self) -> int {
        match self {
            OperationalStatus::Undeclared => 0,
            OperationalStatus::Ground => 1,
            OperationalStatus::Airborne => 2,
            OperationalStatus::Emergency => 3,
            OperationalStatus::RemoteIdSystemFailure => 4,
        }
    }

    /// The status that the wire code `code` stands for, if any.
    pub open spec fn of_code(code: int) -> Option<OperationalStatus> {
        if code == 0 {
            Some(OperationalStatus::Undeclared)
        } else if code == 1 {
            Some(OperationalStatus::Ground)
        } else if code == 2 {
            Some(OperationalStatus::Airborne)
        } else if code == 3 {
            Some(OperationalStatus::Emergency)
        } else if code == 4 {
            Some(OperationalStatus::RemoteIdSystemFailure)
        } else {
            None
        }
    }

    /// Decodes a wire code. An unknown code gives `None`.
    pub fn from_i32(code: i32) -> (status: Option<OperationalStatus>)
        ensures
            status == OperationalStatus::of_code(code as int),
            status is Some <==> 0 <= code <= 4,
    {
        match code {
            0 => Some(OperationalStatus::Undeclared),
            1 => Some(OperationalStatus::Ground),
            2 => Some(OperationalStatus::Airborne),
            3 => Some(OperationalStatus::Emergency),
            4 => Some(OperationalStatus::RemoteIdSystemFailure),
            _ => None,
        }
    }

    /// Encodes this status for the wire.
    pub fn to_i32(&self) -> (code: i32)
        ensures
            code == self.code(),
            OperationalStatus::of_code(code as int) == Some(*self),
    {
        match self {
            OperationalStatus::Undeclared => 0,
            OperationalStatus::Ground => 1,
            OperationalStatus::Airborne => 2,
            OperationalStatus::Emergency => 3,
            OperationalStatus::RemoteIdSystemFailure => 4,
        }
    }
}

impl NodeType {
    /// The wire code of this kind of node.
    pub open spec fn code(self) -> int {
        match self {
            NodeType::Vertiport => 0,
            NodeType::Waypoint => 1,
            NodeType::Aircraft => 2,
        }
    }

    /// The kind of node that the wire code `code` stands for, if any.
    pub open spec fn of_code(code: int) -> Option<NodeType> {
        if code == 0 {
            Some(NodeType::Vertiport)
        } else if code == 1 {
            Some(NodeType::Waypoint)
        } else if code == 2 {
            Some(NodeType::Aircraft)
        } else {
            None
        }
    }

    /// Decodes a wire code. An unknown code gives `None`.
    pub fn from_i32(code: i32) -> (kind: Option<NodeType>)
        ensures
            kind == NodeType::of_code(code as int),
            kind is Some <==> 0 <= code <= 2,
    {
        match code {
            0 => Some(NodeType::Vertiport),
            1 => Some(NodeType::Waypoint),
            2 => Some(NodeType::Aircraft),
            _ => None,
        }
    }

    /// Encodes this kind of node for the wire.
    pub fn to_i32(&self) -> (code: i32)
        ensures
            code == self.code(),
            NodeType::of_code(code as int) == Some(*self),
    {
        match self {
            NodeType::Vertiport => 0,
            NodeType::Waypoint => 1,
            NodeType::Aircraft => 2,
        }
    }
}

} // verus!
