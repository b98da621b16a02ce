use vstd::prelude::*;

verus! {

/// The family of physical controller behind a device handle.
#[derive(Copy, Clone, Debug, PartialEq, Eq, Structural)]
pub enum InputType {
    Unknown,
    SteamController,
    XBox360Controller,
    XBoxOneController,
    GenericGamepad,
    PS4Controller,
    AppleMFiController,
    AndroidController,
    SwitchJoyConPair,
    SwitchJoyConSingle,
    SwitchProController,
    MobileTouch,
    PS3Controller,
    PS5Controller,
    SteamDeckController,
}

/// The largest value of the native `ESteamInputType` enumeration that names
/// a controller family; the values above it (the count marker, the maximum
/// possible value, and anything a newer runtime adds) name none.
pub const LAST_KNOWN_INPUT_TYPE_CODE: u32 = 14;

/// The value that the native `ESteamInputType` enumeration gives each family.
pub open spec fn native_code(t: InputType) -> u32 {
    match t {
        InputType::Unknown => 0,
        InputType::SteamController => 1,
        InputType::XBox360Controller => 2,
        InputType::XBoxOneController => 3,
        InputType::GenericGamepad => 4,
        InputType::PS4Controller => 5,
        InputType::AppleMFiController => 6,
        InputType::AndroidController => 7,
        InputType::SwitchJoyConPair => 8,
        InputType::SwitchJoyConSingle => 9,
        InputType::SwitchProController => 10,
        InputType::MobileTouch => 11,
        InputType::PS3Controller => 12,
        InputType::PS5Controller => 13,
        InputType::SteamDeckController => 14,
    }
}

/// The family that a native `ESteamInputType` value names: the one whose
/// code it is, or `Unknown` for a value outside the known enumeration.
pub open spec fn input_type_of(code: u32) -> InputType {
    if code == 1 {
        InputType::SteamController
    } else if code == 2 {
        InputType::XBox360Controller
    } else if code == 3 {
        InputType::XBoxOneController
    } else if code == 4 {
        InputType::GenericGamepad
    } else if code == 5 {
        InputType::PS4Controller
    } else if code == 6 {
        InputType::AppleMFiController
    } else if code == 7 {
        InputType::AndroidController
    } else if code == 8 {
        InputType::SwitchJoyConPair
    } else if code == 9 {
        InputType::SwitchJoyConSingle
    } else if code == 10 {
        InputType::SwitchProController
    } else if code == 11 {
        InputType::MobileTouch
    } else if code == 12 {
        InputType::PS3Controller
    } else if code == 13 {
        InputType::PS5Controller
    } else if code == 14 {
        InputType::SteamDeckController
    } else {
        InputType::Unknown
    }
}

impl InputType {
    /// Maps a native `ESteamInputType` value (its `u32` representation) to
    /// the controller family; values the enumeration does not know, and its
    /// own unknown value, give `Unknown` rather than an error.
    pub fn from_native(code: u32) -> (r: InputType)
        ensures
            r == input_type_of(code),
            code <= LAST_KNOWN_INPUT_TYPE_CODE ==> native_code(r) == code,
            code > LAST_KNOWN_INPUT_TYPE_CODE ==> r == InputType::Unknown,
    {
        match code {
            1 => InputType::SteamController,
            2 => InputType::XBox360Controller,
            3 => InputType::XBoxOneController,
            4 => InputType::GenericGamepad,
            5 => InputType::PS4Controller,
            6 => InputType::AppleMFiController,
            7 => InputType::AndroidController,
            8 => InputType::SwitchJoyConPair,
            9 => InputType::SwitchJoyConSingle,
            10 => InputType::SwitchProController,
            11 => InputType::MobileTouch,
            12 => InputType::PS3Controller,
            13 => InputType::PS5Controller,
            14 => InputType::SteamDeckController,
            _ => InputType::Unknown,
        }
    }

    /// The native `ESteamInputType` value of this family.
    pub fn to_native(&self) -> (r: u32)
        ensures
            r == native_code(*self),
            r <= LAST_KNOWN_INPUT_TYPE_CODE,
    {
        match self {
            InputType::Unknown => 0,
            InputType::SteamController => 1,
            InputType::XBox360Controller => 2,
            InputType::XBoxOneController => 3,
            InputType::GenericGamepad => 4,
            InputType::PS4Controller => 5,
            InputType::AppleMFiController => 6,
            InputType::AndroidController => 7,
            InputType::SwitchJoyConPair => 8,
            InputType::SwitchJoyConSingle => 9,
            InputType::SwitchProController => 10,
            InputType::MobileTouch => 11,
            InputType::PS3Controller => 12,
            InputType::PS5Controller => 13,
            InputType::SteamDeckController => 14,
        }
    }
}

/// Every value of the known native enumeration maps to the family that has
/// that value, and every other value maps to `Unknown`.
pub proof fn lemma_known_codes_map_to_their_family(code: u32)
    ensures
        code <= LAST_KNOWN_INPUT_TYPE_CODE ==> native_code(input_type_of(code)) == code,
        code > LAST_KNOWN_INPUT_TYPE_CODE ==> input_type_of(code) == InputType::Unknown,
{
}

/// Mapping a family's native value back gives that family again, so no two
/// families share a native value.
pub proof fn lemma_native_code_round_trip(t: InputType)
    ensures
        input_type_of(native_code(t)) == t,
        native_code(t) <= LAST_KNOWN_INPUT_TYPE_CODE,
{
}

} // verus!
