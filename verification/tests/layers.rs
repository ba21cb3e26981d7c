use pixel_planets_rs::bodies::layers::{layers, Layer, MeshSlot};
use pixel_planets_rs::bodies::materials::{MaterialKind, MaterialRegistry};
use pixel_planets_rs::BodyType;

#[test]
fn layers_of_the_star() {
    assert_eq!(
        layers(&BodyType::Star),
        vec![
            Layer { material: MaterialKind::StarBody, mesh: MeshSlot::Main, depth_tenths: 0 },
            Layer { material: MaterialKind::StarBlobs, mesh: MeshSlot::Outer, depth_tenths: -1 },
            Layer { material: MaterialKind::StarFlares, mesh: MeshSlot::Outer, depth_tenths: 1 },
        ]
    );
}

#[test]
fn layers_of_the_stormy_gas_giant_share_a_material() {
    assert_eq!(
        layers(&BodyType::StormyGasGiant),
        vec![
            Layer { material: MaterialKind::Clouds, mesh: MeshSlot::Main, depth_tenths: 0 },
            Layer { material: MaterialKind::Clouds, mesh: MeshSlot::Main, depth_tenths: 1 },
        ]
    );
}

#[test]
fn layer_depths_are_distinct_and_root_first() {
    for body in BodyType::all() {
        let ls = layers(body);
        assert!(!ls.is_empty());
        assert_eq!(ls[0].depth_tenths, 0);
        assert_eq!(ls[0].mesh, MeshSlot::Main);
        for i in 0..ls.len() {
            for j in (i + 1)..ls.len() {
                assert_ne!(ls[i].depth_tenths, ls[j].depth_tenths);
            }
        }
    }
}

#[test]
fn layers_use_only_materials_their_build_registers() {
    for body in BodyType::all() {
        let mut registry = MaterialRegistry::new();
        registry.build_body(body);
        for l in layers(body) {
            assert!(registry.contains(l.material));
        }
    }
}
