use super_pixeled::fire::FireEffect;
use super_pixeled::{
    available_effects, create_effect, Color, Effect, EffectConfig, EffectManager, EffectParams,
    EffectSlot, Error, Framebuffer, Point, SolidEffect,
};

#[test]
fn test_fire_effect() {
    let mut effect = FireEffect::new();
    let config = EffectConfig {
        width: 64,
        height: 32,
        params: EffectParams::default(),
    };

    effect.init(&config);

    let mut fb = Framebuffer::new(64, 32);
    let continuing = effect.tick(&mut fb, 16_000);

    assert!(continuing);
    // Bottom row should have some heat (non-black pixels)
    let bottom_pixel = fb.get(Point::new(32, 31)).unwrap();
    // Fire should have some red in it
    assert!(bottom_pixel.r > 0 || bottom_pixel.g > 0);
}

#[test]
fn test_heat_to_color() {
    // Black at 0
    let black = FireEffect::heat_to_color(0);
    assert_eq!(black, Color::black());

    // Should have some red at mid values
    let mid = FireEffect::heat_to_color(128);
    assert!(mid.r > 0);

    // White-ish at max
    let hot = FireEffect::heat_to_color(255);
    assert_eq!(hot.r, 255);
    assert_eq!(hot.g, 255);
}

#[test]
fn heat_palette_bands() {
    assert_eq!(FireEffect::heat_to_color(63), Color::new(126, 0, 0));
    assert_eq!(FireEffect::heat_to_color(64), Color::new(128, 0, 0));
    assert_eq!(FireEffect::heat_to_color(127), Color::new(254, 126, 0));
    assert_eq!(FireEffect::heat_to_color(128), Color::new(255, 128, 0));
    assert_eq!(FireEffect::heat_to_color(192), Color::new(255, 255, 3));
    assert_eq!(FireEffect::heat_to_color(255), Color::new(255, 255, 255));
}

#[test]
fn random_step() {
    // 1103515245 + 12345 = 0x41C6_9E5A; its bits 16..24 are 0xC6.
    assert_eq!(FireEffect::random(1), 0xC6);
    assert_eq!(FireEffect::random(0), 0x00);
}

#[test]
fn registry_names() {
    assert_eq!(available_effects(), vec!["fire", "solid", "off"]);
    assert!(matches!(create_effect("fire"), Some(EffectSlot::Fire(_))));
    assert!(matches!(create_effect("solid"), Some(EffectSlot::Solid(s)) if s == SolidEffect::new()));
    assert!(matches!(create_effect("off"), Some(EffectSlot::Solid(s)) if s == SolidEffect::off()));
    assert!(create_effect("Fire").is_none());
    assert!(create_effect("").is_none());
}

#[test]
fn solid_effect_colors() {
    assert_eq!(SolidEffect::new().color(), Color::new(255, 255, 255));
    assert_eq!(SolidEffect::off().color(), Color::new(0, 0, 0));
    assert_eq!(SolidEffect::with_color(Color::new(1, 2, 3)).color(), Color::new(1, 2, 3));
    assert_eq!(SolidEffect::new().name(), "solid");
    assert_eq!(SolidEffect::off().name(), "off");
    let mut s = SolidEffect::new();
    let mut fb = Framebuffer::new(3, 3);
    s.update_params(&EffectParams { color: Some([4, 5, 6]), ..EffectParams::default() });
    assert!(s.tick(&mut fb, 0));
    assert!(fb.data().iter().all(|c| *c == Color::new(4, 5, 6)));
}

#[test]
fn test_manager() {
    let mut manager = EffectManager::new(64, 32);

    assert!(manager.current_effect().is_none());

    manager
        .set_effect("fire", EffectParams::default())
        .unwrap();
    assert_eq!(manager.current_effect(), Some("fire"));

    let mut fb = Framebuffer::new(64, 32);
    let continuing = manager.tick(&mut fb);
    assert!(continuing);
}

#[test]
fn test_invalid_effect() {
    let mut manager = EffectManager::new(64, 32);
    let result = manager.set_effect("nonexistent", EffectParams::default());
    assert!(result.is_err());
}

#[test]
fn idle_manager_ticks_black() {
    let mut manager = EffectManager::new(4, 2);
    let mut fb = Framebuffer::new(4, 2);
    fb.fill(Color::new(10, 20, 30));
    assert!(manager.tick(&mut fb));
    assert!(fb.data().iter().all(|c| *c == Color::new(0, 0, 0)));
}

#[test]
fn solid_green_fills_every_pixel() {
    let mut manager = EffectManager::new(8, 4);
    let params = EffectParams { color: Some([0, 255, 0]), ..EffectParams::default() };
    manager.set_effect("solid", params).unwrap();
    let mut fb = Framebuffer::new(8, 4);
    assert!(manager.tick(&mut fb));
    assert_eq!(fb.pixel_count(), 32);
    assert!(fb.data().iter().all(|c| *c == Color::new(0, 255, 0)));
}

#[test]
fn fire_seeds_bottom_row() {
    let mut manager = EffectManager::new(16, 8);
    manager.set_effect("fire", EffectParams::default()).unwrap();
    let mut fb = Framebuffer::new(16, 8);
    assert!(manager.tick_elapsed(&mut fb, 16_000));
    let lit = (0..16)
        .map(|x| fb.get(Point::new(x, 7)).unwrap())
        .any(|c| c.r > 0 || c.g > 0);
    assert!(lit);
}

#[test]
fn unknown_effect_clears_the_slot() {
    let mut manager = EffectManager::new(8, 4);
    manager.set_effect("solid", EffectParams::default()).unwrap();
    assert_eq!(manager.current_effect(), Some("solid"));
    let result = manager.set_effect("nonexistent", EffectParams::default());
    match result {
        Err(Error::EffectNotFound(name)) => assert_eq!(name, "nonexistent"),
        other => panic!("unexpected {:?}", other),
    }
    assert_eq!(manager.current_effect(), None);
}

#[test]
fn switching_effects() {
    let mut manager = EffectManager::new(8, 4);
    manager.set_effect("fire", EffectParams::default()).unwrap();
    manager.set_effect("off", EffectParams::default()).unwrap();
    assert_eq!(manager.current_effect(), Some("off"));
    let mut fb = Framebuffer::new(8, 4);
    fb.fill(Color::white());
    manager.tick(&mut fb);
    assert!(fb.data().iter().all(|c| *c == Color::black()));
}

#[test]
fn update_params_in_place_and_without_effect() {
    let mut manager = EffectManager::new(8, 4);
    assert!(matches!(
        manager.update_params(EffectParams::default()),
        Err(Error::NoActiveEffect)
    ));
    manager.set_effect("solid", EffectParams::default()).unwrap();
    let params = EffectParams { color: Some([1, 2, 3]), ..EffectParams::default() };
    manager.update_params(params).unwrap();
    assert_eq!(manager.current_effect(), Some("solid"));
    let mut fb = Framebuffer::new(8, 4);
    manager.tick(&mut fb);
    assert!(fb.data().iter().all(|c| *c == Color::new(1, 2, 3)));
}

#[test]
fn stop_leaves_nothing_active() {
    let mut manager = EffectManager::new(8, 4);
    manager.set_effect("fire", EffectParams::default()).unwrap();
    manager.stop();
    assert_eq!(manager.current_effect(), None);
    manager.stop();
    assert_eq!(manager.current_effect(), None);
}

#[test]
fn default_params() {
    let p = EffectParams::default();
    assert_eq!(p.intensity, 800);
    assert_eq!(p.speed, 1000);
    assert_eq!(p.color, None);
    assert!(p.extra.is_empty());
}

#[test]
fn off_stays_black_whatever_color_it_is_given() {
    let green = || EffectParams { color: Some([0, 255, 0]), ..EffectParams::default() };
    let mut manager = EffectManager::new(4, 4);
    manager.set_effect("off", green()).unwrap();
    assert_eq!(manager.current_effect(), Some("off"));
    let mut fb = Framebuffer::new(4, 4);
    fb.fill(Color::white());
    manager.tick(&mut fb);
    assert!(fb.data().iter().all(|c| *c == Color::black()));
    manager.update_params(green()).unwrap();
    manager.tick(&mut fb);
    assert!(fb.data().iter().all(|c| *c == Color::black()));
    let mut off = SolidEffect::off();
    off.init(&EffectConfig { width: 4, height: 4, params: green() });
    assert_eq!(off.color(), Color::black());
}

#[test]
fn fire_leaves_cells_outside_its_grid() {
    let mut effect = FireEffect::new();
    effect.init(&EffectConfig { width: 2, height: 2, params: EffectParams::default() });
    let mut fb = Framebuffer::new(4, 3);
    fb.fill(Color::new(7, 8, 9));
    effect.tick(&mut fb, 40_000);
    for y in 0..3 {
        for x in 0..4 {
            if x >= 2 || y >= 2 {
                assert_eq!(fb.get(Point::new(x, y)), Some(Color::new(7, 8, 9)));
            }
        }
    }
}

#[test]
fn extra_parameters_are_kept() {
    let mut manager = EffectManager::new(4, 4);
    let params = EffectParams {
        extra: vec![("spark".to_string(), "3".to_string())],
        ..EffectParams::default()
    };
    manager.set_effect("fire", params).unwrap();
    assert_eq!(manager.current_effect(), Some("fire"));
}

#[test]
fn fire_first_step_exact() {
    let mut effect = FireEffect::new();
    effect.init(&EffectConfig { width: 4, height: 2, params: EffectParams::default() });
    let mut fb = Framebuffer::new(4, 2);
    assert!(effect.tick(&mut fb, 16_000));
    // Step 0: column 0 draws 0 and is seeded 204 - 32 = 172; column 1
    // draws 0xC6 and is seeded 204 + 17 = 221.
    assert_eq!(fb.get(Point::new(0, 1)), Some(FireEffect::heat_to_color(172)));
    assert_eq!(fb.get(Point::new(0, 1)), Some(Color::new(255, 216, 0)));
    assert_eq!(fb.get(Point::new(1, 1)), Some(FireEffect::heat_to_color(221)));
    // Above: (172 + 0 + 221 + 0) / 4 - 2 * 2 = 94.
    assert_eq!(fb.get(Point::new(0, 0)), Some(FireEffect::heat_to_color(94)));
    assert_eq!(fb.get(Point::new(0, 0)), Some(Color::new(188, 60, 0)));
}
