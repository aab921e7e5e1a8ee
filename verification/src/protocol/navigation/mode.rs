//! Navigation run states, waypoint actions and per-waypoint options.

use vstd::prelude::*;


verus! {

#[derive(Clone, Copy, Debug, PartialEq, Eq, Structural)]
pub enum Navigation {
    Nil,
    Ready,
    Start,
    Cruise,
    Pause,
    Finish,
    Error,
}

impl Navigation {
    /// The wire code of the variant.
    pub open spec fn code(self) -> u32 {
        match self {
            Navigation::Nil => 0x00000000,
            Navigation::Ready => 0x00000001,
            Navigation::Start => 0x00000002,
            Navigation::Cruise => 0x00000003,
            Navigation::Pause => 0x00000004,
            Navigation::Finish => 0x00000005,
            Navigation::Error => 0x00000006,
        }
    }

    /// Total decoding: an unknown code falls back to `Navigation::Nil`.
    pub open spec fn spec_from_u32(code: u32) -> Navigation {
        if code == 0x00000000 {
            Navigation::Nil
        } else if code == 0x00000001 {
            Navigation::Ready
        } else if code == 0x00000002 {
            Navigation::Start
        } else if code == 0x00000003 {
            Navigation::Cruise
        } else if code == 0x00000004 {
            Navigation::Pause
        } else if code == 0x00000005 {
            Navigation::Finish
        } else if code == 0x00000006 {
            Navigation::Error
        } else {
            Navigation::Nil
        }
    }

    /// Whether the code denotes a variant of its own.
    pub open spec fn spec_is_defined(code: u32) -> bool {
        Navigation::spec_from_u32(code).code() == code
    }

    pub fn from_u32(data_u32: u32) -> (r: Navigation)
        ensures
            r == Navigation::spec_from_u32(data_u32),
    {
        if data_u32 == 0x00000000 {
            Navigation::Nil
        } else if data_u32 == 0x00000001 {
            Navigation::Ready
        } else if data_u32 == 0x00000002 {
            Navigation::Start
        } else if data_u32 == 0x00000003 {
            Navigation::Cruise
        } else if data_u32 == 0x00000004 {
            Navigation::Pause
        } else if data_u32 == 0x00000005 {
            Navigation::Finish
        } else if data_u32 == 0x00000006 {
            Navigation::Error
        } else {
            Navigation::Nil
        }
    }

    pub fn to_u32(self) -> (r: u32)
        ensures
            r == self.code(),
    {
        match self {
            Navigation::Nil => 0x00000000,
            Navigation::Ready => 0x00000001,
            Navigation::Start => 0x00000002,
            Navigation::Cruise => 0x00000003,
            Navigation::Pause => 0x00000004,
            Navigation::Finish => 0x00000005,
            Navigation::Error => 0x00000006,
        }
    }

    /// Encoding a variant and decoding the code gives the variant back.
    pub proof fn lemma_code_roundtrip(self)
        ensures
            Navigation::spec_from_u32(self.code()) == self,
    {
    }
}

#[derive(Clone, Copy, Debug, PartialEq, Eq, Structural)]
pub enum Action {
    Nil,
    Wait,
    Takeoff,
    Move,
    Landing,
}

impl Action {
    /// The wire code of the variant.
    pub open spec fn code(self) -> u32 {
        match self {
            Action::Nil => 0x00000000,
            Action::Wait => 0x00000001,
            Action::Takeoff => 0x00000002,
            Action::Move => 0x00000003,
            Action::Landing => 0x00000004,
        }
    }

    /// Total decoding: an unknown code falls back to `Action::Nil`.
    pub open spec fn spec_from_u32(code: u32) -> Action {
        if code == 0x00000000 {
            Action::Nil
        } else if code == 0x00000001 {
            Action::Wait
        } else if code == 0x00000002 {
            Action::Takeoff
        } else if code == 0x00000003 {
            Action::Move
        } else if code == 0x00000004 {
            Action::Landing
        } else {
            Action::Nil
        }
    }

    /// Whether the code denotes a variant of its own.
    pub open spec fn spec_is_defined(code: u32) -> bool {
        Action::spec_from_u32(code).code() == code
    }

    pub fn from_u32(data_u32: u32) -> (r: Action)
        ensures
            r == Action::spec_from_u32(data_u32),
    {
        if data_u32 == 0x00000000 {
            Action::Nil
        } else if data_u32 == 0x00000001 {
            Action::Wait
        } else if data_u32 == 0x00000002 {
            Action::Takeoff
        } else if data_u32 == 0x00000003 {
            Action::Move
        } else if data_u32 == 0x00000004 {
            Action::Landing
        } else {
            Action::Nil
        }
    }

    pub fn to_u32(self) -> (r: u32)
        ensures
            r == self.code(),
    {
        match self {
            Action::Nil => 0x00000000,
            Action::Wait => 0x00000001,
            Action::Takeoff => 0x00000002,
            Action::Move => 0x00000003,
            Action::Landing => 0x00000004,
        }
    }

    /// Encoding a variant and decoding the code gives the variant back.
    pub proof fn lemma_code_roundtrip(self)
        ensures
            Action::spec_from_u32(self.code()) == self,
    {
    }
}

#[derive(Clone, Copy, Debug, PartialEq, Eq, Structural)]
pub enum NavOption {
    Nil,
    VideoCapture,
    TakePhoto,
}

impl NavOption {
    /// The wire code of the variant.
    pub open spec fn code(self) -> u32 {
        match self {
            NavOption::Nil => 0x00000000,
            NavOption::VideoCapture => 0x00000001,
            NavOption::TakePhoto => 0x00000002,
        }
    }

    /// Total decoding: an unknown code falls back to `NavOption::Nil`.
    pub open spec fn spec_from_u32(code: u32) -> NavOption {
        if code == 0x00000000 {
            NavOption::Nil
        } else if code == 0x00000001 {
            NavOption::VideoCapture
        } else if code == 0x00000002 {
            NavOption::TakePhoto
        } else {
            NavOption::Nil
        }
    }

    /// Whether the code denotes a variant of its own.
    pub open spec fn spec_is_defined(code: u32) -> bool {
        NavOption::spec_from_u32(code).code() == code
    }

    pub fn from_u32(data_u32: u32) -> (r: NavOption)
        ensures
            r == NavOption::spec_from_u32(data_u32),
    {
        if data_u32 == 0x00000000 {
            NavOption::Nil
        } else if data_u32 == 0x00000001 {
            NavOption::VideoCapture
        } else if data_u32 == 0x00000002 {
            NavOption::TakePhoto
        } else {
            NavOption::Nil
        }
    }

    pub fn to_u32(self) -> (r: u32)
        ensures
            r == self.code(),
    {
        match self {
            NavOption::Nil => 0x00000000,
            NavOption::VideoCapture => 0x00000001,
            NavOption::TakePhoto => 0x00000002,
        }
    }

    /// Encoding a variant and decoding the code gives the variant back.
    pub proof fn lemma_code_roundtrip(self)
        ensures
            NavOption::spec_from_u32(self.code()) == self,
    {
    }
}

} // verus!
