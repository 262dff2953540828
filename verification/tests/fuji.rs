use fuji_ptp_core::ptp::{FujiPtp, FujiPtpError, PtpProtocolError, PtpSessionError};
use fuji_ptp_core::recipe::{
    DynamicRange, EffectStrength, FilmSimulation, GrainEffect, Profile, Recipe, WhiteBalance,
    WhiteBalanceMode,
};
use fuji_ptp_core::transport::{MockTransport, TransportError};

type Fuji = FujiPtp<MockTransport>;

fn response_ok(tx: u32) -> Vec<u8> {
    let mut p = vec![12, 0, 0, 0, 3, 0, 0x01, 0x20];
    p.extend_from_slice(&tx.to_le_bytes());
    p
}

fn response_code(tx: u32, code: u16) -> Vec<u8> {
    let mut p = vec![12, 0, 0, 0, 3, 0];
    p.extend_from_slice(&code.to_le_bytes());
    p.extend_from_slice(&tx.to_le_bytes());
    p
}

fn data_container(op: u16, tx: u32, payload: &[u8]) -> Vec<u8> {
    let mut p = vec![0, 0, 0, 0, 2, 0];
    p.extend_from_slice(&op.to_le_bytes());
    p.extend_from_slice(&tx.to_le_bytes());
    p.extend_from_slice(payload);
    let length = p.len() as u32;
    p[0..4].copy_from_slice(&length.to_le_bytes());
    p
}

fn name_payload(name: &str) -> Vec<u8> {
    let units: Vec<u16> = name.encode_utf16().collect();
    let mut b = vec![(units.len() + 1) as u8];
    for u in units {
        b.extend_from_slice(&u.to_le_bytes());
    }
    b.extend_from_slice(&[0, 0]);
    b
}

/// Queues the answers of one slot read starting at transaction `tx` (the select), and
/// returns the next transaction number.
fn queue_slot(t: &mut MockTransport, mut tx: u32, name: &str, props: &[u16]) -> u32 {
    t.queue_received(response_ok(tx));
    tx += 1;
    t.queue_received(data_container(0x1015, tx, &name_payload(name)));
    t.queue_received(response_ok(tx));
    for value in props {
        tx += 1;
        t.queue_received(data_container(0x1015, tx, &value.to_le_bytes()));
        t.queue_received(response_ok(tx));
    }
    tx + 1
}

fn classic_chrome_props() -> Vec<u16> {
    vec![
        100, 0, 11, 0, 0, 1, 1, 1, 1, 2, 0, 0, 0, 10, (-10i16) as u16, 20, 10, 8192, 10,
    ]
}

#[test]
fn grain_read_accepts_x100vi_off_values() {
    // X100VI stores Grain Off as 7; older firmware used 6; wire 1 is
    // what we write. All three must read back as Off.
    for v in [1u16, 6, 7] {
        assert!(
            matches!(Fuji::grain(v), Some(GrainEffect::Off)),
            "grain {v} should be Off"
        );
    }
    assert!(matches!(Fuji::grain(2), Some(GrainEffect::WeakSmall)));
    assert!(matches!(Fuji::grain(5), Some(GrainEffect::StrongLarge)));
    assert!(Fuji::grain(0).is_none());
    assert!(Fuji::grain(99).is_none());
}

#[test]
fn grain_write_roundtrip() {
    // What we write maps back to the same enum on read.
    for g in [
        GrainEffect::Off,
        GrainEffect::WeakSmall,
        GrainEffect::StrongSmall,
        GrainEffect::WeakLarge,
        GrainEffect::StrongLarge,
    ] {
        let wire = Fuji::grain_wire(&g);
        // The camera may normalize Off to 7, so accept the write value
        // or the camera's stored value.
        let read = if matches!(g, GrainEffect::Off) {
            Fuji::grain(wire).or(Fuji::grain(7))
        } else {
            Fuji::grain(wire)
        };
        assert!(read.is_some(), "grain should round-trip");
    }
}

#[test]
fn read_recipes_through_fake_camera_returns_seven_dtos() {
    let mut transport = MockTransport::new();
    let mut tx = 1u32;
    transport.queue_received(response_ok(tx));
    tx += 1;
    for _ in 0..7u8 {
        tx = queue_slot(&mut transport, tx, "CINEMA GOLD", &classic_chrome_props());
    }
    let mut fuji = FujiPtp::new(transport);
    fuji.open_session(1).expect("open session");
    let profile = fuji.read_recipes().expect("read recipes");
    assert_eq!(profile.recipes.len(), 7);
    for recipe in &profile.recipes {
        assert_eq!(recipe.name, "CINEMA GOLD");
        assert_eq!(recipe.highlight, 10);
        assert_eq!(recipe.shadow, -10);
        assert_eq!(recipe.color, 20);
        assert_eq!(recipe.sharpness, 10);
        assert_eq!(recipe.clarity, 10);
    }
    assert_eq!(profile.name, "Fujifilm Custom Recipes");
}

#[test]
fn read_recipes_decodes_every_setting() {
    let mut t = MockTransport::new();
    let props = vec![
        400, 1, 6, (-15i16) as u16, 20, 7, 2, 3, 2, 0x8007, 3, (-2i16) as u16, 5600, 15,
        (-20i16) as u16, 0, 25, 0x8000, (-5i16) as u16,
    ];
    let mut tx = 1u32;
    for slot in 0..7 {
        tx = queue_slot(&mut t, tx, &format!("R{}", slot + 1), &props);
    }
    let mut fuji = FujiPtp::new(t);
    let profile = fuji.read_recipes().unwrap();
    let r = &profile.recipes[3];
    assert_eq!(r.name, "R4");
    assert_eq!(r.dynamic_range, DynamicRange::Dr400);
    assert_eq!(r.dynamic_range_priority, 1);
    assert_eq!(r.film_simulation, FilmSimulation::Monochrome);
    assert_eq!(r.monochrome_wc, -15);
    assert_eq!(r.monochrome_mg, 20);
    assert_eq!(r.grain_effect, GrainEffect::Off);
    assert_eq!(r.color_chrome, EffectStrength::Weak);
    assert_eq!(r.color_chrome_fx_blue, EffectStrength::Strong);
    assert_eq!(r.smooth_skin, EffectStrength::Weak);
    assert_eq!(
        r.white_balance,
        WhiteBalance {
            mode: WhiteBalanceMode::ColorTemperature,
            shift_r: 3,
            shift_b: -2,
            color_temperature: Some(5600),
        }
    );
    assert_eq!((r.highlight, r.shadow, r.color, r.sharpness, r.clarity), (15, -20, 0, 25, -5));
    assert_eq!(r.noise_reduction, -4);
    assert_eq!(r.exposure, 0);
    assert_eq!(fuji.transaction_id(), 147);
}

#[test]
fn empty_slot_reads_as_default_recipe() {
    let mut t = MockTransport::new();
    let mut props = vec![0u16; 19];
    props[0] = 0xFFFF;
    props[2] = 999;
    let mut tx = 1u32;
    for _ in 0..7 {
        tx = queue_slot(&mut t, tx, "", &props);
    }
    let mut fuji = FujiPtp::new(t);
    let profile = fuji.read_recipes().unwrap();
    for r in &profile.recipes {
        assert_eq!(r.name, "");
        assert_eq!(r.film_simulation, FilmSimulation::ClassicChrome);
        assert_eq!(r.dynamic_range, DynamicRange::Dr100);
        assert_eq!(r.white_balance.color_temperature, None);
    }
}

#[test]
fn unknown_film_is_reported_with_slot() {
    let mut t = MockTransport::new();
    let mut props = classic_chrome_props();
    props[2] = 99;
    queue_slot(&mut t, 1, "X", &props);
    let mut fuji = FujiPtp::new(t);
    match fuji.read_recipes() {
        Err(FujiPtpError::InvalidDataAt(m)) => assert_eq!(m, "slot C1 film simulation 99"),
        Err(e) => panic!("unexpected {:?}", e),
        Ok(_) => panic!("unexpected success"),
    }
}

#[test]
fn second_slot_errors_name_the_slot() {
    let mut t = MockTransport::new();
    let mut tx = queue_slot(&mut t, 1, "A", &classic_chrome_props());
    let mut bad = classic_chrome_props();
    bad[9] = 0x1234;
    tx = queue_slot(&mut t, tx, "B", &bad);
    let _ = tx;
    let mut fuji = FujiPtp::new(t);
    match fuji.read_recipes() {
        Err(FujiPtpError::InvalidDataAt(m)) => assert_eq!(m, "slot C2 white balance 0x1234"),
        Err(e) => panic!("unexpected {:?}", e),
        Ok(_) => panic!("unexpected success"),
    }
}

#[test]
fn property_that_is_not_a_word_is_reported() {
    let mut t = MockTransport::new();
    t.queue_received(response_ok(1));
    t.queue_received(data_container(0x1015, 2, &name_payload("N")));
    t.queue_received(response_ok(2));
    t.queue_received(data_container(0x1015, 3, &[1, 2, 3]));
    t.queue_received(response_ok(3));
    let mut fuji = FujiPtp::new(t);
    match fuji.read_recipes() {
        Err(FujiPtpError::InvalidDataAt(m)) => assert_eq!(m, "slot C1 property 0xD190"),
        Err(e) => panic!("unexpected {:?}", e),
        Ok(_) => panic!("unexpected success"),
    }
}

#[test]
fn unreadable_name_is_reported() {
    let mut t = MockTransport::new();
    t.queue_received(response_ok(1));
    t.queue_received(data_container(0x1015, 2, &[2, 0x41, 0, 1, 0]));
    t.queue_received(response_ok(2));
    let mut fuji = FujiPtp::new(t);
    match fuji.read_recipes() {
        Err(FujiPtpError::InvalidDataAt(m)) => assert_eq!(m, "slot C1 name"),
        Err(e) => panic!("unexpected {:?}", e),
        Ok(_) => panic!("unexpected success"),
    }
}

#[test]
fn select_slot_checks_range() {
    let mut fuji = FujiPtp::new(MockTransport::new());
    assert!(matches!(fuji.select_slot(0), Err(FujiPtpError::InvalidSlot)));
    assert!(matches!(fuji.select_slot(8), Err(FujiPtpError::InvalidSlot)));
    assert!(fuji.transport().sent_data.is_empty());
    fuji.select_slot(7).unwrap();
    assert_eq!(fuji.transport().sent_data[1], vec![14, 0, 0, 0, 2, 0, 0x16, 0x10, 1, 0, 0, 0, 7, 0]);
}

#[test]
fn open_session_maps_camera_refusal() {
    let mut t = MockTransport::new();
    t.queue_received(response_code(1, 0x201e));
    let mut fuji = FujiPtp::new(t);
    assert!(matches!(
        fuji.open_session(1),
        Err(FujiPtpError::Protocol(PtpProtocolError::Response(0x201e)))
    ));
}

#[test]
fn close_session_maps_link_failure() {
    let mut t = MockTransport::new();
    t.fail_receive(TransportError::ReceiveError);
    let mut fuji = FujiPtp::new(t);
    assert!(matches!(fuji.close_session(), Err(FujiPtpError::TransportError)));
}

/// The (property, value) pairs of the SET transactions in the sent packets.
fn sets(sent: &[Vec<u8>]) -> Vec<(u16, Vec<u8>)> {
    let mut out = Vec::new();
    let mut i = 0;
    while i + 1 < sent.len() {
        let cmd = &sent[i];
        let data = &sent[i + 1];
        assert_eq!(u16::from_le_bytes([cmd[6], cmd[7]]), 0x1016);
        out.push((u16::from_le_bytes([cmd[12], cmd[13]]), data[12..].to_vec()));
        i += 2;
    }
    out
}

fn color_recipe() -> Recipe {
    let mut r = Recipe::new("Kodak".to_string());
    r.film_simulation = FilmSimulation::ClassicNegative;
    r.dynamic_range = DynamicRange::Dr200;
    r.grain_effect = GrainEffect::WeakLarge;
    r.color_chrome = EffectStrength::Strong;
    r.color_chrome_fx_blue = EffectStrength::Weak;
    r.white_balance = WhiteBalance {
        mode: WhiteBalanceMode::ColorTemperature,
        shift_r: 2,
        shift_b: -3,
        color_temperature: Some(6500),
    };
    r.highlight = -10;
    r.shadow = 15;
    r.color = 30;
    r.sharpness = -20;
    r.clarity = 0;
    r.noise_reduction = 3;
    r
}

#[test]
fn write_recipe_sends_the_settings_in_order() {
    let mut fuji = FujiPtp::new(MockTransport::new());
    fuji.write_recipe(3, &color_recipe()).unwrap();
    let w = sets(&fuji.transport().sent_data);
    let expected: Vec<(u16, Vec<u8>)> = vec![
        (0xD18C, vec![3, 0]),
        (0xD18D, vec![6, b'K', 0, b'o', 0, b'd', 0, b'a', 0, b'k', 0, 0, 0]),
        (0xD192, vec![17, 0]),
        (0xD191, vec![0, 0]),
        (0xD190, vec![200, 0]),
        (0xD195, vec![4, 0]),
        (0xD196, vec![3, 0]),
        (0xD197, vec![2, 0]),
        (0xD198, vec![1, 0]),
        (0xD199, vec![0x07, 0x80]),
        (0xD19A, vec![2, 0]),
        (0xD19B, vec![0xfd, 0xff]),
        (0xD19C, vec![0x64, 0x19]),
        (0xD19D, vec![0xf6, 0xff]),
        (0xD19E, vec![15, 0]),
        (0xD19F, vec![30, 0]),
        (0xD1A0, vec![0xec, 0xff]),
        (0xD1A2, vec![0, 0]),
        (0xD1A1, vec![0x00, 0x60]),
    ];
    assert_eq!(w, expected);
}

#[test]
fn write_recipe_monochrome_skips_color_settings() {
    let mut r = color_recipe();
    r.film_simulation = FilmSimulation::AcrosRed;
    r.monochrome_wc = 20;
    r.monochrome_mg = -10;
    r.dynamic_range_priority = 2;
    let mut fuji = FujiPtp::new(MockTransport::new());
    fuji.write_recipe_settings(1, &r).unwrap();
    let props: Vec<u16> = sets(&fuji.transport().sent_data).iter().map(|w| w.0).collect();
    assert_eq!(
        props,
        vec![
            0xD18C, 0xD192, 0xD191, 0xD193, 0xD194, 0xD195, 0xD198, 0xD199, 0xD19C, 0xD19D,
            0xD19E, 0xD19F, 0xD1A0, 0xD1A2, 0xD1A1
        ]
    );
}

#[test]
fn write_recipe_rejects_bad_shift_after_earlier_writes() {
    let mut r = color_recipe();
    r.white_balance.shift_r = 10;
    let mut fuji = FujiPtp::new(MockTransport::new());
    assert!(matches!(fuji.write_recipe(2, &r), Err(FujiPtpError::InvalidData)));
    let props: Vec<u16> = sets(&fuji.transport().sent_data).iter().map(|w| w.0).collect();
    assert_eq!(
        props,
        vec![0xD18C, 0xD18D, 0xD192, 0xD191, 0xD190, 0xD195, 0xD196, 0xD197, 0xD198, 0xD199]
    );
}

#[test]
fn write_recipe_rejects_bad_priority_and_noise_reduction() {
    let mut r = color_recipe();
    r.dynamic_range_priority = 3;
    let mut fuji = FujiPtp::new(MockTransport::new());
    assert!(matches!(fuji.write_recipe_settings(1, &r), Err(FujiPtpError::InvalidData)));
    assert_eq!(sets(&fuji.transport().sent_data).len(), 2);

    let mut r = color_recipe();
    r.noise_reduction = 5;
    let mut fuji = FujiPtp::new(MockTransport::new());
    assert!(matches!(fuji.write_recipe_settings(1, &r), Err(FujiPtpError::InvalidData)));
    assert_eq!(sets(&fuji.transport().sent_data).len(), 17);

    let mut r = color_recipe();
    r.color = i16::MIN;
    let mut fuji = FujiPtp::new(MockTransport::new());
    assert!(matches!(fuji.write_recipe_settings(1, &r), Err(FujiPtpError::InvalidData)));
    assert_eq!(sets(&fuji.transport().sent_data).len(), 14);
}

#[test]
fn write_recipe_invalid_slot_sends_nothing() {
    let mut fuji = FujiPtp::new(MockTransport::new());
    assert!(matches!(fuji.write_recipe(0, &color_recipe()), Err(FujiPtpError::InvalidSlot)));
    assert!(fuji.transport().sent_data.is_empty());
}

#[test]
fn write_recipe_with_unstorable_name_stops_after_cursor() {
    let mut fuji = FujiPtp::new(MockTransport::new());
    let r = Recipe::new("bad\0name".to_string());
    assert!(matches!(fuji.write_recipe(1, &r), Err(FujiPtpError::InvalidData)));
    assert_eq!(sets(&fuji.transport().sent_data).len(), 1);
}

#[test]
fn camera_refusal_of_a_write_names_the_property() {
    let mut t = MockTransport::new();
    t.queue_received(response_ok(1));
    t.queue_received(response_code(2, 0x2002));
    let mut fuji = FujiPtp::new(t);
    match fuji.write_recipe_settings(1, &color_recipe()) {
        Err(FujiPtpError::InvalidDataAt(m)) => {
            assert_eq!(m, "write property 0xD192: camera response 0x2002")
        }
        other => panic!("unexpected {:?}", other),
    }
}

#[test]
fn write_recipes_writes_settings_then_name_for_each_slot() {
    let recipes: [Recipe; 7] = std::array::from_fn(|i| {
        let mut r = color_recipe();
        r.name = format!("P{}", i + 1);
        r
    });
    let profile = Profile::new("all".to_string(), recipes);
    let mut fuji = FujiPtp::new(MockTransport::new());
    fuji.write_recipes(&profile).unwrap();
    let w = sets(&fuji.transport().sent_data);
    assert_eq!(w.len(), 7 * 19);
    assert_eq!(w[0], (0xD18C, vec![1, 0]));
    assert_eq!(w[18], (0xD18D, vec![3, b'P', 0, b'1', 0, 0, 0]));
    assert_eq!(w[19], (0xD18C, vec![2, 0]));
}

#[test]
fn write_recipe_names_writes_only_names() {
    let recipes: [Recipe; 7] = std::array::from_fn(|i| Recipe::new(format!("{}", i + 1)));
    let profile = Profile::new("names".to_string(), recipes);
    let mut fuji = FujiPtp::new(MockTransport::new());
    fuji.write_recipe_names(&profile).unwrap();
    let w = sets(&fuji.transport().sent_data);
    assert_eq!(w.len(), 14);
    assert_eq!(w[12], (0xD18C, vec![7, 0]));
    assert_eq!(w[13], (0xD18D, vec![2, b'7', 0, 0, 0]));
}

#[test]
fn name_codec_roundtrip_and_limits() {
    let b = Fuji::name_bytes("Portra 400").unwrap();
    assert_eq!(Fuji::ptp_name(&b).unwrap(), "Portra 400");
    assert_eq!(Fuji::name_bytes("").unwrap(), vec![1, 0, 0]);
    assert_eq!(Fuji::ptp_name(&[0]).unwrap(), "");
    assert_eq!(Fuji::ptp_name(&[1, 0, 0]).unwrap(), "");
    assert!(matches!(Fuji::ptp_name(&[]), Err(FujiPtpError::InvalidData)));
    assert!(matches!(Fuji::ptp_name(&[0, 0]), Err(FujiPtpError::InvalidData)));
    assert!(matches!(Fuji::ptp_name(&[2, 0x41, 0, 0, 1]), Err(FujiPtpError::InvalidData)));
    assert!(matches!(Fuji::name_bytes("a\0b"), Err(FujiPtpError::InvalidData)));
    assert!(Fuji::name_bytes(&"x".repeat(254)).is_ok());
    assert!(matches!(Fuji::name_bytes(&"x".repeat(255)), Err(FujiPtpError::InvalidData)));
    // A character beyond the Basic Multilingual Plane is written as a surrogate pair,
    // which the reader refuses.
    let smile = Fuji::name_bytes("\u{1F600}").unwrap();
    assert_eq!(smile, vec![3, 0x3d, 0xd8, 0x00, 0xde, 0, 0]);
    assert!(matches!(Fuji::ptp_name(&smile), Err(FujiPtpError::InvalidData)));
    let accents = Fuji::name_bytes("Señor Ü").unwrap();
    assert_eq!(Fuji::ptp_name(&accents).unwrap(), "Señor Ü");
}

#[test]
fn codecs_roundtrip() {
    for n in -4i8..=4 {
        let c = Fuji::nr_wire(n).unwrap();
        assert_eq!(Fuji::noise_reduction(c), Some(n));
    }
    assert_eq!(Fuji::nr_wire(-1).unwrap(), 12288);
    assert!(matches!(Fuji::nr_wire(5), Err(FujiPtpError::InvalidData)));
    assert!(matches!(Fuji::nr_wire(-5), Err(FujiPtpError::InvalidData)));
    for v in 1u16..=20 {
        let f = Fuji::film(v).unwrap();
        assert_eq!(Fuji::film_wire(&f), v);
    }
    assert!(Fuji::film(0).is_none());
    assert!(Fuji::film(21).is_none());
    for w in [WhiteBalanceMode::Auto, WhiteBalanceMode::Shade, WhiteBalanceMode::AmbiencePriority] {
        assert_eq!(Fuji::white_balance_mode(Fuji::wb_wire(&w)), Some(w));
    }
    assert_eq!(Fuji::white_balance_mode(0x8020), Some(WhiteBalanceMode::Auto));
    assert_eq!(Fuji::dynamic_range(0), Some(DynamicRange::Dr100));
    assert_eq!(Fuji::dynamic_range(Fuji::dr_wire(&DynamicRange::Dr400)), Some(DynamicRange::Dr400));
    assert_eq!(Fuji::strength(Fuji::strength_wire(&EffectStrength::Strong)), Some(EffectStrength::Strong));
    assert!(Fuji::strength(4).is_none());
    assert_eq!(Fuji::i16v(-1), vec![0xff, 0xff]);
    assert_eq!(Fuji::u16v(0x1234), vec![0x34, 0x12]);
    assert_eq!(Fuji::word(&[0x34, 0x12]).unwrap(), 0x1234);
    assert!(matches!(Fuji::word(&[1]), Err(FujiPtpError::InvalidData)));
    assert!(matches!(Fuji::dial(i16::MIN), Err(FujiPtpError::InvalidData)));
    assert_eq!(Fuji::dial(-32767).unwrap(), -32767);
    assert!(Fuji::is_mono(&FilmSimulation::Sepia));
    assert!(!Fuji::is_mono(&FilmSimulation::Eterna));
}

#[test]
fn decode_reports_first_bad_value() {
    let mut v = classic_chrome_props();
    v[0] = 300;
    match Fuji::decode_recipe("n".to_string(), &v, 5) {
        Err(FujiPtpError::InvalidDataAt(m)) => assert_eq!(m, "slot C5 dynamic range 0x012C"),
        _ => panic!(),
    }
    let mut v = classic_chrome_props();
    v[17] = 1;
    v[5] = 9;
    match Fuji::decode_recipe("n".to_string(), &v, 2) {
        Err(FujiPtpError::InvalidDataAt(m)) => assert_eq!(m, "slot C2 grain 9"),
        _ => panic!(),
    }
    let mut v = classic_chrome_props();
    v[17] = 1;
    match Fuji::decode_recipe("n".to_string(), &v, 2) {
        Err(FujiPtpError::InvalidDataAt(m)) => assert_eq!(m, "slot C2 high ISO NR 1"),
        _ => panic!(),
    }
}

#[test]
fn set_error_names_property_and_code() {
    match Fuji::set_error(0xD1A1, PtpSessionError::Protocol(PtpProtocolError::Response(0x201D))) {
        FujiPtpError::InvalidDataAt(m) => assert_eq!(m, "write property 0xD1A1: camera response 0x201D"),
        _ => panic!(),
    }
    assert!(matches!(
        Fuji::set_error(1, PtpSessionError::Transport(TransportError::SendError)),
        FujiPtpError::TransportError
    ));
    assert!(matches!(
        Fuji::set_error(1, PtpSessionError::Protocol(PtpProtocolError::MalformedContainer)),
        FujiPtpError::Protocol(PtpProtocolError::MalformedContainer)
    ));
}

#[test]
fn written_recipe_reads_back() {
    // Write a recipe, then let a fake camera answer a read with the stored words.
    let r = color_recipe();
    let mut fuji = FujiPtp::new(MockTransport::new());
    fuji.write_recipe(1, &r).unwrap();
    let w = sets(&fuji.transport().sent_data);
    let mut words = vec![0u16; 19];
    let mut name = Vec::new();
    for (p, v) in &w {
        if *p == 0xD18D {
            name = v.clone();
        } else if (0xD190..=0xD1A2).contains(p) {
            words[(*p - 0xD190) as usize] = u16::from_le_bytes([v[0], v[1]]);
        }
    }
    let got = Fuji::decode_recipe(Fuji::ptp_name(&name).unwrap(), &words, 1).unwrap();
    assert_eq!(got.name, r.name);
    assert_eq!(got.film_simulation, r.film_simulation);
    assert_eq!(got.dynamic_range, r.dynamic_range);
    assert_eq!(got.grain_effect, r.grain_effect);
    assert_eq!(got.color_chrome, r.color_chrome);
    assert_eq!(got.color_chrome_fx_blue, r.color_chrome_fx_blue);
    assert_eq!(got.white_balance, r.white_balance);
    assert_eq!(got.highlight, r.highlight);
    assert_eq!(got.sharpness, r.sharpness);
    assert_eq!(got.noise_reduction, r.noise_reduction);
}

#[test]
fn names_write_touches_only_cursor_and_name() {
    let recipes: [Recipe; 7] = std::array::from_fn(|i| {
        let mut r = color_recipe();
        r.name = format!("N{}", i);
        r
    });
    let profile = Profile::new("names".to_string(), recipes);
    let mut fuji = FujiPtp::new(MockTransport::new());
    fuji.write_recipe_names(&profile).unwrap();
    let w = sets(&fuji.transport().sent_data);
    assert!(w.iter().all(|(p, _)| *p == 0xD18C || *p == 0xD18D));
}

#[test]
fn settings_write_never_touches_the_name() {
    let mut fuji = FujiPtp::new(MockTransport::new());
    fuji.write_recipe_settings(4, &color_recipe()).unwrap();
    let w = sets(&fuji.transport().sent_data);
    assert_eq!(w[0], (0xD18C, vec![4, 0]));
    assert!(w[1..].iter().all(|(p, _)| (0xD190..=0xD1A2).contains(p)));
}

#[test]
fn colour_recipe_write_skips_monochrome_shifts() {
    let mut r = color_recipe();
    r.monochrome_wc = 30;
    r.monochrome_mg = 30;
    let mut fuji = FujiPtp::new(MockTransport::new());
    fuji.write_recipe(2, &r).unwrap();
    let w = sets(&fuji.transport().sent_data);
    assert!(w.iter().all(|(p, _)| *p != 0xD193 && *p != 0xD194));
}

#[test]
fn settings_write_is_recipe_write_without_the_name() {
    let mut full = FujiPtp::new(MockTransport::new());
    full.write_recipe(5, &color_recipe()).unwrap();
    let mut settings = FujiPtp::new(MockTransport::new());
    let mut r = color_recipe();
    r.name = "bad\0name".to_string();
    settings.write_recipe_settings(5, &r).unwrap();
    let mut w = sets(&full.transport().sent_data);
    assert_eq!(w.remove(1).0, 0xD18D);
    assert_eq!(w, sets(&settings.transport().sent_data));
}

#[test]
fn write_recipes_packets_on_an_accepting_camera() {
    let p = Profile::new("P".to_string(), std::array::from_fn(|_| Recipe::new(String::new())));
    let mut f = FujiPtp::new(MockTransport::new());
    f.write_recipes(&p).unwrap();
    let s = &f.transport().sent_data;
    assert_eq!(s.len(), 252);
    assert_eq!(s[0], vec![16, 0, 0, 0, 1, 0, 0x16, 0x10, 1, 0, 0, 0, 0x8C, 0xD1, 0, 0]);
    assert_eq!(s[3], vec![14, 0, 0, 0, 2, 0, 0x16, 0x10, 2, 0, 0, 0, 11, 0]);
    assert_eq!(s[34], vec![16, 0, 0, 0, 1, 0, 0x16, 0x10, 18, 0, 0, 0, 0x8D, 0xD1, 0, 0]);
    assert_eq!(s[35], vec![15, 0, 0, 0, 2, 0, 0x16, 0x10, 18, 0, 0, 0, 1, 0, 0]);
}

#[test]
fn write_recipe_packets_put_the_name_first() {
    let mut f = FujiPtp::new(MockTransport::new());
    f.write_recipe(1, &Recipe::new("A".to_string())).unwrap();
    let s = &f.transport().sent_data;
    assert_eq!(s.len(), 36);
    assert_eq!(s[2], vec![16, 0, 0, 0, 1, 0, 0x16, 0x10, 2, 0, 0, 0, 0x8D, 0xD1, 0, 0]);
    assert_eq!(s[3], vec![17, 0, 0, 0, 2, 0, 0x16, 0x10, 2, 0, 0, 0, 2, 0x41, 0, 0, 0]);
}

#[test]
fn write_recipe_settings_ignores_an_unstorable_name() {
    let mut f = FujiPtp::new(MockTransport::new());
    f.write_recipe_settings(1, &Recipe::new("a\0b".to_string())).unwrap();
    let s = &f.transport().sent_data;
    assert_eq!(s.len(), 34);
    assert!(s.iter().all(|p| !p.ends_with(&[0x8D, 0xD1, 0, 0])));
}

#[test]
fn write_recipe_names_stops_at_a_bad_name() {
    let recipes: [Recipe; 7] = std::array::from_fn(|i| {
        Recipe::new(if i == 2 { "x\0".to_string() } else { "A".to_string() })
    });
    let p = Profile::new("P".to_string(), recipes);
    let mut f = FujiPtp::new(MockTransport::new());
    assert!(matches!(f.write_recipe_names(&p), Err(FujiPtpError::InvalidData)));
    let w = sets(&f.transport().sent_data);
    assert_eq!(w.len(), 5);
    assert_eq!(w[4], (0xD18C, vec![3, 0]));
}
