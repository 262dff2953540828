use fuji_ptp_core::bridge::{
    close_session, connect, dr_from, dr_name, film_from, film_name, grain_from, grain_name, open_session,
    read_recipes, settings_from_names, strength_from, strength_name, wb_from, wb_name, write_recipe,
    write_recipe_names, BridgeError,
};
use fuji_ptp_core::ptp::{FujiPtp, FujiPtpError};
use fuji_ptp_core::recipe::{
    DynamicRange, EffectStrength, FilmSimulation, GrainEffect, Recipe, WhiteBalanceMode,
};
use fuji_ptp_core::transport::MockTransport;

#[test]
fn write_recipe_names_validates_arity() {
    let mut controller: Option<FujiPtp<MockTransport>> = None;
    let result = write_recipe_names(&mut controller, vec!["a".into(), "b".into()]);
    assert!(result.is_err());
}

#[test]
fn arity_is_checked_before_the_connection() {
    let mut controller: Option<FujiPtp<MockTransport>> = Some(FujiPtp::new(MockTransport::new()));
    assert!(matches!(
        write_recipe_names(&mut controller, vec!["a".into(); 8]),
        Err(BridgeError::WrongNameCount(8))
    ));
    assert!(controller.as_ref().unwrap().transport().sent_data.is_empty());
    let mut none: Option<FujiPtp<MockTransport>> = None;
    assert!(matches!(
        write_recipe_names(&mut none, vec!["a".into(); 7]),
        Err(BridgeError::NotConnected)
    ));
}

#[test]
fn write_names_on_open_connection() {
    let mut controller = Some(FujiPtp::new(MockTransport::new()));
    let names: Vec<String> = (1..=7).map(|i| format!("N{}", i)).collect();
    write_recipe_names(&mut controller, names).unwrap();
    assert_eq!(controller.unwrap().transport().sent_data.len(), 28);
}

#[test]
fn session_calls_need_a_connection() {
    let mut none: Option<FujiPtp<MockTransport>> = None;
    assert!(matches!(open_session(&mut none, 1), Err(BridgeError::NotConnected)));
    assert!(matches!(close_session(&mut none), Err(BridgeError::NotConnected)));
    let mut t = MockTransport::new();
    t.queue_received(vec![12, 0, 0, 0, 3, 0, 1, 0x20, 1, 0, 0, 0]);
    let mut some = Some(FujiPtp::new(t));
    open_session(&mut some, 1).unwrap();
    assert!(matches!(close_session(&mut some), Err(BridgeError::CloseSessionFailed(_))));
}

#[test]
fn setting_names_roundtrip() {
    for v in 1u16..=20 {
        let f = fuji_ptp_core::ptp::FujiPtp::<MockTransport>::film(v).unwrap();
        assert_eq!(film_from(film_name(&f)), Some(f));
    }
    for d in [DynamicRange::Dr100, DynamicRange::Dr200, DynamicRange::Dr400] {
        assert_eq!(dr_from(dr_name(&d)), Some(d));
    }
    for g in [
        GrainEffect::Off,
        GrainEffect::WeakSmall,
        GrainEffect::StrongSmall,
        GrainEffect::WeakLarge,
        GrainEffect::StrongLarge,
    ] {
        assert_eq!(grain_from(grain_name(&g)), Some(g));
    }
    for s in [EffectStrength::Off, EffectStrength::Weak, EffectStrength::Strong] {
        assert_eq!(strength_from(strength_name(&s)), Some(s));
    }
    for w in [
        WhiteBalanceMode::Auto,
        WhiteBalanceMode::Daylight,
        WhiteBalanceMode::Shade,
        WhiteBalanceMode::Fluorescent1,
        WhiteBalanceMode::Fluorescent2,
        WhiteBalanceMode::Fluorescent3,
        WhiteBalanceMode::Incandescent,
        WhiteBalanceMode::Underwater,
        WhiteBalanceMode::ColorTemperature,
        WhiteBalanceMode::AmbiencePriority,
    ] {
        assert_eq!(wb_from(wb_name(&w)), Some(w));
    }
    assert_eq!(film_name(&FilmSimulation::ClassicNegative), "ClassicNegative");
    assert_eq!(film_from("Portra"), None);
    assert_eq!(wb_from("auto"), None);
    assert_eq!(strength_from(""), None);
}

#[test]
fn read_and_write_need_a_connection() {
    let mut none: Option<FujiPtp<MockTransport>> = None;
    assert!(matches!(read_recipes(&mut none), Err(BridgeError::NotConnected)));
    assert!(matches!(
        write_recipe(&mut none, 1, Err("unknown film simulation 'X'".to_string())),
        Err(BridgeError::NotConnected)
    ));
}

#[test]
fn write_recipe_refuses_a_bad_recipe_before_writing() {
    let mut some = Some(FujiPtp::new(MockTransport::new()));
    match write_recipe(&mut some, 1, Err("unknown grain effect 'Big'".to_string())) {
        Err(BridgeError::InvalidRecipe(m)) => assert_eq!(m, "unknown grain effect 'Big'"),
        other => panic!("unexpected {:?}", other),
    }
    assert!(some.unwrap().transport().sent_data.is_empty());
}

#[test]
fn write_recipe_names_the_slot_on_failure() {
    let mut some = Some(FujiPtp::new(MockTransport::new()));
    assert!(matches!(
        write_recipe(&mut some, 9, Ok(Recipe::new("x".to_string()))),
        Err(BridgeError::WriteRecipeFailed(9, FujiPtpError::InvalidSlot))
    ));
    write_recipe(&mut some, 2, Ok(Recipe::new("x".to_string()))).unwrap();
    assert_eq!(some.unwrap().transport().sent_data.len(), 2 * 18);
}

#[test]
fn read_recipes_reports_a_failed_read() {
    let mut t = MockTransport::new();
    t.fail_receive(fuji_ptp_core::transport::TransportError::ReceiveError);
    let mut some = Some(FujiPtp::new(t));
    assert!(matches!(
        read_recipes(&mut some),
        Err(BridgeError::ReadRecipesFailed(FujiPtpError::TransportError))
    ));
}

#[test]
fn settings_from_names_reports_the_first_unknown_name() {
    let ok = settings_from_names("ClassicNegative", "Dr200", "StrongSmall", "Off", "Weak", "Strong", "ColorTemperature")
        .unwrap();
    assert_eq!(
        ok,
        (
            FilmSimulation::ClassicNegative,
            DynamicRange::Dr200,
            GrainEffect::StrongSmall,
            EffectStrength::Off,
            EffectStrength::Weak,
            EffectStrength::Strong,
            WhiteBalanceMode::ColorTemperature
        )
    );
    assert_eq!(
        settings_from_names("Portra", "Dr9", "Off", "Off", "Off", "Off", "Auto"),
        Err("unknown film simulation 'Portra'".to_string())
    );
    assert_eq!(
        settings_from_names("Velvia", "Dr100", "Off", "Off", "Off", "Medium", "Auto"),
        Err("unknown fx blue 'Medium'".to_string())
    );
    assert_eq!(
        settings_from_names("Velvia", "Dr100", "Off", "Off", "Off", "Off", "Sunny"),
        Err("unknown white balance 'Sunny'".to_string())
    );
}

#[test]
fn connect_only_once() {
    let mut c: Option<FujiPtp<MockTransport>> = None;
    connect(&mut c, MockTransport::new()).unwrap();
    assert!(c.is_some());
    assert!(matches!(connect(&mut c, MockTransport::new()), Err(BridgeError::AlreadyConnected)));
    assert_eq!(c.unwrap().transaction_id(), 0);
}
