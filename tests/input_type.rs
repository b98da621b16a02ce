use steam_input::input_type::InputType;

#[test]
fn known_codes_map_to_their_family() {
    let expected = [
        (0u32, InputType::Unknown),
        (1, InputType::SteamController),
        (2, InputType::XBox360Controller),
        (3, InputType::XBoxOneController),
        (4, InputType::GenericGamepad),
        (5, InputType::PS4Controller),
        (6, InputType::AppleMFiController),
        (7, InputType::AndroidController),
        (8, InputType::SwitchJoyConPair),
        (9, InputType::SwitchJoyConSingle),
        (10, InputType::SwitchProController),
        (11, InputType::MobileTouch),
        (12, InputType::PS3Controller),
        (13, InputType::PS5Controller),
        (14, InputType::SteamDeckController),
    ];
    for (code, family) in expected {
        assert_eq!(InputType::from_native(code), family);
        assert_eq!(family.to_native(), code);
    }
}

#[test]
fn unknown_codes_map_to_unknown() {
    assert_eq!(InputType::from_native(15), InputType::Unknown);
    assert_eq!(InputType::from_native(255), InputType::Unknown);
    assert_eq!(InputType::from_native(1000), InputType::Unknown);
    assert_eq!(InputType::from_native(u32::MAX), InputType::Unknown);
}

#[test]
fn native_code_round_trips() {
    for code in 0u32..=14 {
        let family = InputType::from_native(code);
        assert_eq!(InputType::from_native(family.to_native()), family);
    }
}
