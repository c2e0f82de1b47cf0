use checkout_eligibility::policy::Policy;

fn location_is_allowed(name: &str) -> bool {
    Policy::default().location_is_allowed(name)
}

const WHITE_SPACE: [char; 25] = [
    '\u{9}', '\u{a}', '\u{b}', '\u{c}', '\u{d}', ' ', '\u{85}', '\u{a0}', '\u{1680}', '\u{2000}',
    '\u{2001}', '\u{2002}', '\u{2003}', '\u{2004}', '\u{2005}', '\u{2006}', '\u{2007}',
    '\u{2008}', '\u{2009}', '\u{200a}', '\u{2028}', '\u{2029}', '\u{202f}', '\u{205f}',
    '\u{3000}',
];

#[test]
fn exact_name_is_allowed() {
    assert!(location_is_allowed("Location Admins"));
}

#[test]
fn white_space_around_the_name_is_ignored() {
    assert!(location_is_allowed("  Location Admins  "));
    assert!(location_is_allowed(" Location Admins"));
    assert!(location_is_allowed("Location Admins "));
    assert!(location_is_allowed("\tLocation Admins\r\n"));
    assert!(location_is_allowed("\u{a0}\u{3000}Location Admins\u{2028}\u{2009}"));
}

#[test]
fn white_space_inside_the_name_counts() {
    assert!(!location_is_allowed("Location  Admins"));
    assert!(!location_is_allowed("LocationAdmins"));
    assert!(!location_is_allowed("Location\tAdmins"));
    assert!(!location_is_allowed("Location\u{a0}Admins"));
    assert!(!location_is_allowed(" Location  Admins "));
}

#[test]
fn other_names_are_not_allowed() {
    assert!(!location_is_allowed(""));
    assert!(!location_is_allowed("   "));
    assert!(!location_is_allowed("location admins"));
    assert!(!location_is_allowed("LOCATION ADMINS"));
    assert!(!location_is_allowed("Location Admin"));
    assert!(!location_is_allowed("Location Admins."));
    assert!(!location_is_allowed("The Location Admins"));
    assert!(!location_is_allowed("Warehouse"));
}

#[test]
fn characters_that_only_look_like_white_space_count() {
    assert!(!location_is_allowed("\u{200b}Location Admins"));
    assert!(!location_is_allowed("Location Admins\u{200b}"));
    assert!(!location_is_allowed("\u{feff}Location Admins"));
    assert!(!location_is_allowed("\u{180e}Location Admins"));
    assert!(!location_is_allowed("Location Admins\u{1c}"));
    assert!(!location_is_allowed("Location Admins\u{0}"));
}

#[test]
fn each_white_space_character_is_trimmed_on_either_side() {
    for c in WHITE_SPACE {
        assert!(location_is_allowed(&format!("{c}Location Admins")), "{c:?} in front");
        assert!(location_is_allowed(&format!("Location Admins{c}")), "{c:?} behind");
        assert!(location_is_allowed(&format!("{c}{c}Location Admins{c}")), "{c:?} around");
        assert!(!location_is_allowed(&format!("Loc{c}ation Admins")), "{c:?} inside");
    }
}

#[test]
fn no_other_character_is_trimmed() {
    let mut code: u32 = 0;
    while code <= 0x10ffff {
        if let Some(c) = char::from_u32(code) {
            let expected = WHITE_SPACE.contains(&c);
            assert_eq!(location_is_allowed(&format!("{c}Location Admins")), expected, "{c:?}");
            assert_eq!(location_is_allowed(&format!("Location Admins{c}")), expected, "{c:?}");
        }
        code += 1;
    }
}

#[test]
fn white_space_around_any_name_changes_nothing() {
    let names = ["Location Admins", "location admins", "", "Warehouse", "Location  Admins", "x"];
    let pads = ["", " ", "\t\n", "\u{a0} \u{2003}", "   \r\n"];
    for name in names {
        for before in pads {
            for after in pads {
                let padded = format!("{before}{name}{after}");
                assert_eq!(
                    location_is_allowed(&padded),
                    location_is_allowed(name),
                    "{padded:?}"
                );
            }
        }
    }
}
