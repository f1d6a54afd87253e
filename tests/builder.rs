use uwu_rs::{Uwu, UwuBuilder};

#[test]
fn assert_builder() {
    let builder_ver = Uwu::builder()
        .lowercase()
        .expressions()
        .w_replace()
        .stutter(4)
        .emojis(1)
        .build();

    let manual_ver = Uwu {
        lowercase: true,
        expressions: true,
        w_replace: true,
        stutter: true,
        stutter_chance: 4,
        emojis: true,
        emojis_chance: 1,
    };

    assert_eq!(builder_ver, manual_ver);
}

#[test]
fn new_builder_is_all_off() {
    let b = UwuBuilder::new();
    assert!(!b.lowercase && !b.expressions && !b.w_replace && !b.stutter && !b.emojis);
    assert_eq!(b.stutter_chance, 0);
    assert_eq!(b.emojis_chance, 0);
}

#[test]
fn builder_sets_only_what_is_asked() {
    let u = UwuBuilder::new().w_replace().stutter(7).build();
    assert_eq!(
        u,
        Uwu {
            lowercase: false,
            expressions: false,
            w_replace: true,
            stutter: true,
            stutter_chance: 7,
            emojis: false,
            emojis_chance: 0,
        }
    );
    let out = u.uwuify("Lorem").unwrap();
    assert!(out == "Lowem" || out == "L-Lowem");
}

#[test]
fn default_is_new() {
    assert_eq!(Uwu::default(), Uwu::new());
    assert_eq!(Uwu::new().stutter_chance, 4);
    assert_eq!(Uwu::new().emojis_chance, 1);
}
