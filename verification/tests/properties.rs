use keybindings_parser::{Keybindings, ModMask, ParseError};
use keysymdefs::keys;

#[test]
fn duplicate_rejected_whatever_the_action() {
    let mut keyb: Keybindings<u32> = Keybindings::default();
    assert!(keyb.add("super + d", 1).is_ok());
    let second = keyb.add("super + d", 2);
    assert_eq!(second.err().unwrap(), ParseError::DuplicateBinding);
    let third = keyb.add("super + d", 3);
    assert_eq!(third.err().unwrap(), ParseError::DuplicateBinding);
}

#[test]
fn ghost_mask_equivalence_concrete() {
    let mut keyb: Keybindings<u32> = Keybindings::default();
    assert!(keyb.add("ctrl + a", 7).is_ok());

    assert!(keyb.handle(ModMask::control(), keys::XK_a).is_some());
    assert!(keyb
        .handle(ModMask::control() | ModMask::mod2(), keys::XK_a)
        .is_some());
    assert!(keyb
        .handle(
            ModMask::control() | ModMask::caps_lock() | ModMask::mod5(),
            keys::XK_a
        )
        .is_some());
    assert!(keyb
        .handle(ModMask::control() | ModMask::shift(), keys::XK_a)
        .is_none());
    assert!(keyb.handle(ModMask::mod4(), keys::XK_a).is_none());
}

#[test]
fn modifiers_case_insensitive() {
    for origin in ["super + d", "SUPER + d", "sUpEr + d"] {
        let mut keyb: Keybindings<u32> = Keybindings::default();
        assert!(keyb.add(origin, 1).is_ok());
        let handler = keyb.handle(ModMask::mod4(), keys::XK_d).unwrap();
        assert_eq!(handler.modifier(), ModMask::mod4());
        assert_eq!(handler.key(), keys::XK_d);
    }
}

#[test]
fn keys_case_sensitive() {
    let mut keyb: Keybindings<u32> = Keybindings::default();
    assert!(keyb.add("shift + A", 1).is_ok());
    assert!(keyb.add("shift + a", 2).is_ok());

    let upper = keyb.handle(ModMask::shift(), keys::XK_A).unwrap();
    assert_eq!(upper.origin(), "shift + A");
    let lower = keyb.handle(ModMask::shift(), keys::XK_a).unwrap();
    assert_eq!(lower.origin(), "shift + a");
}

#[test]
fn whitespace_tolerance() {
    for origin in [
        " super+ d ",
        "super + d",
        "super                 +           d",
    ] {
        let mut keyb: Keybindings<u32> = Keybindings::default();
        assert!(keyb.add(origin, 1).is_ok());
        let handler = keyb.handle(ModMask::mod4(), keys::XK_d).unwrap();
        assert_eq!(handler.modifier(), ModMask::mod4());
        assert_eq!(handler.key(), keys::XK_d);
        assert_eq!(handler.origin(), origin);
    }
}

#[test]
fn delimiter_isolation() {
    let mut keyb: Keybindings<u32> = Keybindings::new('/', ModMask::none());
    assert!(keyb.add("super + d", 1).is_err());
    assert!(keyb.add("super / d", 2).is_ok());
    assert!(keyb.handle(ModMask::mod4(), keys::XK_d).is_some());
}

#[test]
fn no_modifier_binding() {
    let mut keyb: Keybindings<u32> = Keybindings::default();
    assert!(keyb.add("d", 1).is_ok());

    let handler = keyb.handle(ModMask::none(), keys::XK_d).unwrap();
    assert_eq!(handler.modifier(), ModMask::none());
    assert!(keyb
        .handle(ModMask::mod2() | ModMask::caps_lock(), keys::XK_d)
        .is_some());
    assert!(keyb.handle(ModMask::shift(), keys::XK_d).is_none());
}

#[test]
fn error_variants() {
    let mut keyb: Keybindings<u32> = Keybindings::default();
    let unknown = keyb.add("super + SomeNotExistingKey", 1);
    assert_eq!(unknown.err().unwrap(), ParseError::UnknownKey);
    assert_eq!(
        keyb.add("super + shift", 2).err().unwrap(),
        ParseError::UnknownKey
    );
    assert!(keyb.add("super + super", 3).is_err());
    let invalid = keyb.add("a + b", 4);
    assert_eq!(invalid.err().unwrap(), ParseError::InvalidModifier);

    assert_eq!(
        ParseError::UnknownKey.message(),
        "Key not found".to_string()
    );
    assert_eq!(
        ParseError::InvalidModifier.message(),
        "invalid modifier".to_string()
    );
    assert_eq!(
        ParseError::MissingKey.message(),
        "no key provided".to_string()
    );
}

#[test]
fn empty_and_doubled_delimiters_rejected() {
    let mut keyb: Keybindings<u32> = Keybindings::default();
    assert_eq!(keyb.add("", 1).err().unwrap(), ParseError::UnknownKey);
    assert_eq!(keyb.add("++", 2).err().unwrap(), ParseError::UnknownKey);
    assert_eq!(
        keyb.add("super ++ d", 3).err().unwrap(),
        ParseError::InvalidModifier
    );
}

#[test]
fn mask_operations() {
    assert_eq!(ModMask::none().0, 0);
    assert_eq!(ModMask::shift().0, 1);
    assert_eq!(ModMask::caps_lock().0, 2);
    assert_eq!(ModMask::control().0, 4);
    assert_eq!(ModMask::mod1().0, 8);
    assert_eq!(ModMask::mod2().0, 16);
    assert_eq!(ModMask::mod3().0, 32);
    assert_eq!(ModMask::mod4().0, 64);
    assert_eq!(ModMask::mod5().0, 128);
    assert_eq!(ModMask::any().0, 32768);

    assert_eq!((ModMask::mod4() | ModMask::shift()).0, 65);
    assert_eq!((ModMask::mod4() & ModMask::shift()).0, 0);
    assert_eq!(
        (ModMask::mod4() | ModMask::shift()) & ModMask::shift(),
        ModMask::shift()
    );
    assert_eq!(ModMask::mod4() | ModMask::mod4(), ModMask::mod4());

    let mut m = ModMask::mod4();
    m.or_assign(ModMask::shift());
    assert_eq!(m.0, 65);
}

#[test]
fn mask_conversions() {
    assert_eq!(u16::from(ModMask::mod4()), 64);
    assert_eq!(u32::from(ModMask::any()), 32768);
    assert_eq!(ModMask::from(16u8), ModMask::mod2());
    assert_eq!(ModMask::from(32768u16), ModMask::any());
}
