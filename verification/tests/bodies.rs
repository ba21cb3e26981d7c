use pixel_planets_rs::bodies::{palette_steps, plugin_build_order, shader_flag};
use pixel_planets_rs::{BodyType, PixelPlanet};

#[test]
fn all_lists_the_twelve_bodies_in_order() {
    let all = BodyType::all();
    assert_eq!(all.len(), 12);
    assert_eq!(all[0], BodyType::Terran);
    assert_eq!(all[1], BodyType::Asteroid);
    assert_eq!(all[2], BodyType::BandedGasGiant);
    assert_eq!(all[3], BodyType::Martian);
    assert_eq!(all[4], BodyType::Islands);
    assert_eq!(all[5], BodyType::NoAtmosphere);
    assert_eq!(all[6], BodyType::StormyGasGiant);
    assert_eq!(all[7], BodyType::BlackHole);
    assert_eq!(all[8], BodyType::Galaxy);
    assert_eq!(all[9], BodyType::IceWorld);
    assert_eq!(all[10], BodyType::LavaWorld);
    assert_eq!(all[11], BodyType::Star);
}

#[test]
fn all_has_no_body_twice() {
    let all = BodyType::all();
    for i in 0..all.len() {
        for j in 0..all.len() {
            if i != j {
                assert_ne!(all[i], all[j]);
            }
        }
    }
}

#[test]
fn labels_of_every_body() {
    assert_eq!(BodyType::Terran.label(), "Terran");
    assert_eq!(BodyType::Asteroid.label(), "Asteroid");
    assert_eq!(BodyType::BandedGasGiant.label(), "Banded Gas Giant");
    assert_eq!(BodyType::Martian.label(), "Martian");
    assert_eq!(BodyType::Islands.label(), "Islands");
    assert_eq!(BodyType::NoAtmosphere.label(), "No Atmosphere");
    assert_eq!(BodyType::StormyGasGiant.label(), "Stormy Gas Giant");
    assert_eq!(BodyType::BlackHole.label(), "Black Hole");
    assert_eq!(BodyType::Galaxy.label(), "Galaxy");
    assert_eq!(BodyType::IceWorld.label(), "Ice World");
    assert_eq!(BodyType::LavaWorld.label(), "Lava World");
    assert_eq!(BodyType::Star.label(), "Star");
}

#[test]
fn labels_are_distinct_and_not_empty() {
    let all = BodyType::all();
    for i in 0..all.len() {
        assert!(!all[i].label().is_empty());
        for j in (i + 1)..all.len() {
            assert_ne!(all[i].label(), all[j].label());
        }
    }
}

#[test]
fn plugin_builds_every_body_once() {
    let order = plugin_build_order();
    assert_eq!(
        order,
        vec![
            BodyType::Terran,
            BodyType::Martian,
            BodyType::Islands,
            BodyType::NoAtmosphere,
            BodyType::StormyGasGiant,
            BodyType::BandedGasGiant,
            BodyType::IceWorld,
            BodyType::LavaWorld,
            BodyType::Asteroid,
            BodyType::BlackHole,
            BodyType::Galaxy,
            BodyType::Star,
        ]
    );
    for body in BodyType::all() {
        assert_eq!(order.iter().filter(|b| *b == body).count(), 1);
    }
}

#[test]
fn palette_steps_of_small_and_large_palettes() {
    assert_eq!(palette_steps(1), 1);
    assert_eq!(palette_steps(2), 1);
    assert_eq!(palette_steps(3), 2);
    assert_eq!(palette_steps(4), 3);
    assert_eq!(palette_steps(8), 7);
}

#[test]
fn palette_samples_stay_within_the_curve() {
    for n in 1..20usize {
        let steps = palette_steps(n);
        assert!(steps >= 1);
        for i in 0..n {
            assert!(i <= steps);
        }
        if n >= 2 {
            assert_eq!(n - 1, steps);
        }
    }
}

#[test]
fn shader_flag_encodes_switches() {
    assert_eq!(shader_flag(true), 1);
    assert_eq!(shader_flag(false), 0);
}

#[test]
fn pixel_planet_has_a_default() {
    let _planet: PixelPlanet = PixelPlanet::default();
}
