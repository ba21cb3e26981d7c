use pixel_planets_rs::bodies::materials::{build_steps, BuildStep, MaterialKind, MaterialRegistry};
use pixel_planets_rs::bodies::plugin_build_order;
use pixel_planets_rs::BodyType;

#[test]
fn build_steps_of_the_islands() {
    assert_eq!(
        build_steps(&BodyType::Islands),
        vec![
            BuildStep { material: MaterialKind::PlanetUnder, shared: true },
            BuildStep { material: MaterialKind::Clouds, shared: true },
            BuildStep { material: MaterialKind::Landmass, shared: false },
        ]
    );
}

#[test]
fn build_steps_of_the_star() {
    assert_eq!(
        build_steps(&BodyType::Star),
        vec![
            BuildStep { material: MaterialKind::StarBody, shared: false },
            BuildStep { material: MaterialKind::StarBlobs, shared: false },
            BuildStep { material: MaterialKind::StarFlares, shared: false },
        ]
    );
}

#[test]
fn first_build_adds_shared_and_owned_materials() {
    let mut registry = MaterialRegistry::new();
    let added = registry.build_body(&BodyType::Terran);
    assert_eq!(added, vec![MaterialKind::Land, MaterialKind::Clouds]);
    assert_eq!(registry.registered(), &vec![MaterialKind::Land, MaterialKind::Clouds]);
}

#[test]
fn shared_material_is_not_added_twice() {
    let mut registry = MaterialRegistry::new();
    registry.build_body(&BodyType::Terran);
    let added = registry.build_body(&BodyType::StormyGasGiant);
    assert!(added.is_empty());
    let added = registry.build_body(&BodyType::IceWorld);
    assert_eq!(added, vec![MaterialKind::PlanetUnder, MaterialKind::Lakes]);
    let added = registry.build_body(&BodyType::Islands);
    assert_eq!(added, vec![MaterialKind::Landmass]);
}

#[test]
fn owned_material_is_added_even_when_present() {
    let mut registry = MaterialRegistry::new();
    registry.mark_registered(MaterialKind::Galaxy);
    let added = registry.build_body(&BodyType::Galaxy);
    assert_eq!(added, vec![MaterialKind::Galaxy]);
    assert_eq!(registry.registered(), &vec![MaterialKind::Galaxy, MaterialKind::Galaxy]);
}

#[test]
fn mark_registered_records_once() {
    let mut registry = MaterialRegistry::new();
    assert!(!registry.contains(MaterialKind::Surface));
    registry.mark_registered(MaterialKind::Surface);
    registry.mark_registered(MaterialKind::Surface);
    assert!(registry.contains(MaterialKind::Surface));
    assert_eq!(registry.registered(), &vec![MaterialKind::Surface]);
    let added = registry.build_body(&BodyType::LavaWorld);
    assert_eq!(added, vec![MaterialKind::Craters, MaterialKind::LavaRivers]);
}

#[test]
fn plugin_registers_every_material_exactly_once() {
    let mut registry = MaterialRegistry::new();
    for body in plugin_build_order() {
        registry.build_body(&body);
    }
    let registered = registry.registered();
    assert_eq!(registered.len(), 18);
    for kind in MaterialKind::all() {
        assert_eq!(registered.iter().filter(|k| **k == kind).count(), 1);
    }
}

#[test]
fn every_material_has_its_own_shader() {
    let all = MaterialKind::all();
    assert_eq!(all.len(), 18);
    for i in 0..all.len() {
        for j in (i + 1)..all.len() {
            assert_ne!(all[i].shader_path(), all[j].shader_path());
        }
    }
    assert_eq!(MaterialKind::Land.shader_path(), "shaders/rivers/rivers.wgsl");
    assert_eq!(MaterialKind::Clouds.shader_path(), "shaders/landmasses/clouds.wgsl");
    assert_eq!(MaterialKind::GasRing.shader_path(), "shaders/gasplanet/ring.wgsl");
    assert_eq!(MaterialKind::StarFlares.shader_path(), "shaders/star/flares.wgsl");
    assert_eq!(MaterialKind::DryTerran.shader_path(), "shaders/dryterran/dryterran.wgsl");
}
