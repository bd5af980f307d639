use genesis_kit::options::{Exposure, Mode, OptionsError, RepipeOptions};

#[test]
fn default_options_apply_and_inherit() {
    let o = RepipeOptions::default();
    assert_eq!(o.validate, 0);
    assert_eq!(o.dry_run, 0);
    assert!(!o.pause);
    assert_eq!(o.expose, Exposure::Inherit);
    assert_eq!(o.open_browser, 0);
    assert!(!o.yes);
    assert_eq!(o.fly_path, None);
    assert!(!o.debug);
    assert_eq!(o.mode(), Mode::Apply);
    assert_eq!(o.fly_program(), "fly");
}

#[test]
fn flags_are_levels_up_to_two() {
    let o = RepipeOptions::from_flags(1, 0, true, false, false, 5, true, None, false).unwrap();
    assert_eq!(o.validate, 1);
    assert_eq!(o.dry_run, 0);
    assert_eq!(o.open_browser, 2);
    assert!(o.pause);
    assert!(o.yes);
    let o = RepipeOptions::from_flags(2, 3, false, false, false, 0, false, None, true).unwrap();
    assert_eq!(o.validate, 2);
    assert_eq!(o.dry_run, 2);
    assert!(o.debug);
}

#[test]
fn expose_and_hide_exclude_each_other() {
    let r = RepipeOptions::from_flags(0, 0, false, true, true, 0, false, None, false);
    assert_eq!(r, Err(OptionsError::ExposeAndHide));
    let o = RepipeOptions::from_flags(0, 0, false, true, false, 0, false, None, false).unwrap();
    assert_eq!(o.expose, Exposure::ForceTrue);
    let o = RepipeOptions::from_flags(0, 0, false, false, true, 0, false, None, false).unwrap();
    assert_eq!(o.expose, Exposure::ForceFalse);
    let o = RepipeOptions::from_flags(0, 0, false, false, false, 0, false, None, false).unwrap();
    assert_eq!(o.expose, Exposure::Inherit);
}

#[test]
fn validation_comes_before_dry_run_before_apply() {
    let mut o = RepipeOptions::default();
    assert_eq!(o.mode(), Mode::Apply);
    o.dry_run = 1;
    assert_eq!(o.mode(), Mode::DryRun);
    o.validate = 1;
    assert_eq!(o.mode(), Mode::Validate);
    o.dry_run = 0;
    assert_eq!(o.mode(), Mode::Validate);
}

#[test]
fn strictness_is_the_second_level() {
    let mut o = RepipeOptions::default();
    assert!(!o.strict());
    o.validate = 1;
    assert!(!o.strict());
    o.validate = 2;
    assert!(o.strict());
}

#[test]
fn exposure_follows_option_then_metadata_then_hides() {
    let mut o = RepipeOptions::default();
    assert!(!o.exposed(None));
    assert!(!o.exposed(Some(false)));
    assert!(o.exposed(Some(true)));
    o.expose = Exposure::ForceTrue;
    assert!(o.exposed(None));
    assert!(o.exposed(Some(false)));
    o.expose = Exposure::ForceFalse;
    assert!(!o.exposed(None));
    assert!(!o.exposed(Some(true)));
}

#[test]
fn fly_path_replaces_the_program() {
    let o = RepipeOptions::from_flags(
        0,
        0,
        false,
        false,
        false,
        0,
        false,
        Some("/opt/bin/fly7".to_string()),
        false,
    )
    .unwrap();
    assert_eq!(o.fly_program(), "/opt/bin/fly7");
}
