use vstd::prelude::*;
use crate::bodies::BodyType;
use crate::bodies::materials::{
    law_build_registers_its_materials, plan_added, spec_build_steps, step_materials, MaterialKind,
};

verus! {

/// Which of a body's meshes a layer is drawn on: the body's own disc, or the
/// larger disc around it (rings, accretion disks, the corona of a star).
#[derive(Debug, Clone, Copy, PartialEq, Eq, Structural)]
pub enum MeshSlot {
    Main,
    Outer,
}

/// One drawn layer of a body: its material, the mesh it is drawn on, and its
/// offset along the z axis in tenths of a unit relative to the body's entity.
/// The first layer of a body sits on the body's entity itself; the others are
/// its children.
#[derive(Debug, Clone, Copy, PartialEq, Eq, Structural)]
pub struct Layer {
    pub material: MaterialKind,
    pub mesh: MeshSlot,
    pub depth_tenths: i8,
}

pub open spec fn layer(material: MaterialKind, mesh: MeshSlot, depth_tenths: i8) -> Layer {
    Layer { material, mesh, depth_tenths }
}

/// The layers each body is drawn with, the entity's own layer first.
pub open spec fn spec_layers(body: BodyType) -> Seq<Layer> {
    match body {
        BodyType::Terran => seq![
            layer(MaterialKind::Land, MeshSlot::Main, 0),
            layer(MaterialKind::Clouds, MeshSlot::Main, 1),
        ],
        BodyType::Asteroid => seq![layer(MaterialKind::Asteroid, MeshSlot::Main, 0)],
        BodyType::BandedGasGiant => seq![
            layer(MaterialKind::GasBase, MeshSlot::Main, 0),
            layer(MaterialKind::GasRing, MeshSlot::Outer, 1),
        ],
        BodyType::Martian => seq![layer(MaterialKind::DryTerran, MeshSlot::Main, 0)],
        BodyType::Islands => seq![
            layer(MaterialKind::PlanetUnder, MeshSlot::Main, 0),
            layer(MaterialKind::Landmass, MeshSlot::Main, 1),
            layer(MaterialKind::Clouds, MeshSlot::Main, 2),
        ],
        BodyType::NoAtmosphere => seq![
            layer(MaterialKind::Surface, MeshSlot::Main, 0),
            layer(MaterialKind::Craters, MeshSlot::Main, 1),
        ],
        BodyType::StormyGasGiant => seq![
            layer(MaterialKind::Clouds, MeshSlot::Main, 0),
            layer(MaterialKind::Clouds, MeshSlot::Main, 1),
        ],
        BodyType::BlackHole => seq![
            layer(MaterialKind::Shadow, MeshSlot::Main, 0),
            layer(MaterialKind::AccretionDisk, MeshSlot::Outer, 1),
        ],
        BodyType::Galaxy => seq![layer(MaterialKind::Galaxy, MeshSlot::Main, 0)],
        BodyType::IceWorld => seq![
            layer(MaterialKind::PlanetUnder, MeshSlot::Main, 0),
            layer(MaterialKind::Lakes, MeshSlot::Main, 1),
            layer(MaterialKind::Clouds, MeshSlot::Main, 2),
        ],
        BodyType::LavaWorld => seq![
            layer(MaterialKind::Surface, MeshSlot::Main, 0),
            layer(MaterialKind::Craters, MeshSlot::Main, 1),
            layer(MaterialKind::LavaRivers, MeshSlot::Main, 2),
        ],
        BodyType::Star => seq![
            layer(MaterialKind::StarBody, MeshSlot::Main, 0),
            layer(MaterialKind::StarBlobs, MeshSlot::Outer, -1i8),
            layer(MaterialKind::StarFlares, MeshSlot::Outer, 1),
        ],
    }
}

/// The layers `body` is drawn with, the entity's own layer first.
pub fn layers(body: &BodyType) -> (r: Vec<Layer>)
    ensures
        r@ == spec_layers(*body),
{
    let mk = |material: MaterialKind, mesh: MeshSlot, depth_tenths: i8| -> (l: Layer)
        ensures l == layer(material, mesh, depth_tenths)
    {
        Layer { material, mesh, depth_tenths }
    };
    match body {
        BodyType::Terran => vec![
            mk(MaterialKind::Land, MeshSlot::Main, 0),
            mk(MaterialKind::Clouds, MeshSlot::Main, 1),
        ],
        BodyType::Asteroid => vec![mk(MaterialKind::Asteroid, MeshSlot::Main, 0)],
        BodyType::BandedGasGiant => vec![
            mk(MaterialKind::GasBase, MeshSlot::Main, 0),
            mk(MaterialKind::GasRing, MeshSlot::Outer, 1),
        ],
        BodyType::Martian => vec![mk(MaterialKind::DryTerran, MeshSlot::Main, 0)],
        BodyType::Islands => vec![
            mk(MaterialKind::PlanetUnder, MeshSlot::Main, 0),
            mk(MaterialKind::Landmass, MeshSlot::Main, 1),
            mk(MaterialKind::Clouds, MeshSlot::Main, 2),
        ],
        BodyType::NoAtmosphere => vec![
            mk(MaterialKind::Surface, MeshSlot::Main, 0),
            mk(MaterialKind::Craters, MeshSlot::Main, 1),
        ],
        BodyType::StormyGasGiant => vec![
            mk(MaterialKind::Clouds, MeshSlot::Main, 0),
            mk(MaterialKind::Clouds, MeshSlot::Main, 1),
        ],
        BodyType::BlackHole => vec![
            mk(MaterialKind::Shadow, MeshSlot::Main, 0),
            mk(MaterialKind::AccretionDisk, MeshSlot::Outer, 1),
        ],
        BodyType::Galaxy => vec![mk(MaterialKind::Galaxy, MeshSlot::Main, 0)],
        BodyType::IceWorld => vec![
            mk(MaterialKind::PlanetUnder, MeshSlot::Main, 0),
            mk(MaterialKind::Lakes, MeshSlot::Main, 1),
            mk(MaterialKind::Clouds, MeshSlot::Main, 2),
        ],
        BodyType::LavaWorld => vec![
            mk(MaterialKind::Surface, MeshSlot::Main, 0),
            mk(MaterialKind::Craters, MeshSlot::Main, 1),
            mk(MaterialKind::LavaRivers, MeshSlot::Main, 2),
        ],
        BodyType::Star => vec![
            mk(MaterialKind::StarBody, MeshSlot::Main, 0),
            mk(MaterialKind::StarBlobs, MeshSlot::Outer, -1i8),
            mk(MaterialKind::StarFlares, MeshSlot::Outer, 1),
        ],
    }
}

/// Every body has a layer of its own at depth zero, first in its list, and no
/// two of its layers share a depth.
pub proof fn law_layer_depths(body: BodyType)
    ensures
        spec_layers(body).len() >= 1,
        spec_layers(body)[0].depth_tenths == 0,
        spec_layers(body)[0].mesh == MeshSlot::Main,
        forall|i: int, j: int| 0 <= i < j < spec_layers(body).len() ==>
            #[trigger] spec_layers(body)[i].depth_tenths != #[trigger] spec_layers(body)[j].depth_tenths,
{
}

/// Every material a body is drawn with is registered once that body has been
/// built, whatever was registered before.
pub proof fn law_layers_are_registered(body: BodyType, registered: Seq<MaterialKind>)
    ensures
        forall|i: int| 0 <= i < spec_layers(body).len() ==>
            (registered + plan_added(spec_build_steps(body), registered)).contains(#[trigger] spec_layers(body)[i].material),
{
    law_build_registers_its_materials(body, registered);
    let after = registered + plan_added(spec_build_steps(body), registered);
    let steps = spec_build_steps(body);
    assert forall|i: int| 0 <= i < spec_layers(body).len() implies
        after.contains(#[trigger] spec_layers(body)[i].material) by {
        let m = spec_layers(body)[i].material;
        lemma_layer_material_is_built(body, i);
        let k: int = choose|k: int| 0 <= k < steps.len() && #[trigger] steps[k].material == m;
        assert(after.contains(steps[k].material));
    }
}

proof fn lemma_layer_material_is_built(body: BodyType, i: int)
    requires
        0 <= i < spec_layers(body).len(),
    ensures
        exists|k: int| 0 <= k < spec_build_steps(body).len()
            && #[trigger] spec_build_steps(body)[k].material == spec_layers(body)[i].material,
{
    let steps = spec_build_steps(body);
    let m = spec_layers(body)[i].material;
    let k: int = match body {
        BodyType::Islands => if i == 0 { 0 } else if i == 1 { 2 } else { 1 },
        BodyType::IceWorld => if i == 0 { 0 } else if i == 1 { 1 } else { 2 },
        BodyType::StormyGasGiant => 0,
        _ => i,
    };
    assert(steps[k].material == m);
}


/// Materials that are drawn around the body rather than on it: the ring of the
/// gas giant, the accretion disk of the black hole, and the blobs and flares
/// of a star.
pub open spec fn drawn_around_body(material: MaterialKind) -> bool {
    match material {
        MaterialKind::GasRing | MaterialKind::AccretionDisk | MaterialKind::StarBlobs
        | MaterialKind::StarFlares => true,
        _ => false,
    }
}

/// A layer is drawn on the larger outer mesh exactly when its material is
/// drawn around the body (rings, accretion disks, blobs and flares); every
/// other layer is drawn on the body's own disc.
pub proof fn law_layer_meshes(body: BodyType)
    ensures
        forall|i: int| 0 <= i < spec_layers(body).len() ==>
            ((#[trigger] spec_layers(body)[i]).mesh == MeshSlot::Outer
                <==> drawn_around_body(spec_layers(body)[i].material)),
{
}

/// How the layers of a body are stacked: the star's blobs sit one tenth behind
/// the body and nothing else does; every other layer sits one tenth above the
/// previous layer in the list that is not behind the body; clouds are above
/// every other material of the body; and the entity's own layer is drawn with
/// the material that the body's build registers first.
pub proof fn law_layer_stacking(body: BodyType)
    ensures
        spec_layers(body)[0].material == spec_build_steps(body)[0].material,
        forall|i: int| 0 <= i < spec_layers(body).len() ==>
            ((#[trigger] spec_layers(body)[i]).depth_tenths < 0
                <==> spec_layers(body)[i].material == MaterialKind::StarBlobs),
        forall|i: int| 0 <= i < spec_layers(body).len()
            && (#[trigger] spec_layers(body)[i]).material == MaterialKind::StarBlobs
            ==> spec_layers(body)[i].depth_tenths == -1,
        forall|i: int| 0 < i < spec_layers(body).len()
            && (#[trigger] spec_layers(body)[i]).material != MaterialKind::StarBlobs ==> {
                if spec_layers(body)[i - 1].material == MaterialKind::StarBlobs {
                    &&& i >= 2
                    &&& spec_layers(body)[i].depth_tenths == spec_layers(body)[i - 2].depth_tenths + 1
                } else {
                    spec_layers(body)[i].depth_tenths == spec_layers(body)[i - 1].depth_tenths + 1
                }
            },
        forall|i: int, j: int| 0 <= i < spec_layers(body).len() && 0 <= j < spec_layers(body).len()
            && (#[trigger] spec_layers(body)[i]).material == MaterialKind::Clouds
            && (#[trigger] spec_layers(body)[j]).material != MaterialKind::Clouds
            ==> spec_layers(body)[j].depth_tenths < spec_layers(body)[i].depth_tenths,
{
}

/// The material a layer is laid directly on top of, where the body has one:
/// craters on the rocky surface, lava rivers on the craters, land masses and
/// lakes on the under-layer of water or ice.
pub open spec fn laid_on(material: MaterialKind) -> Option<MaterialKind> {
    match material {
        MaterialKind::Craters => Some(MaterialKind::Surface),
        MaterialKind::LavaRivers => Some(MaterialKind::Craters),
        MaterialKind::Landmass => Some(MaterialKind::PlanetUnder),
        MaterialKind::Lakes => Some(MaterialKind::PlanetUnder),
        _ => None,
    }
}

/// A layer that is laid on another material sits exactly one tenth above the
/// layer of that material, and that layer is present in the same body; the
/// rings, disks and flares drawn around a body sit one tenth above its own
/// layer.
pub proof fn law_layer_order(body: BodyType)
    ensures
        forall|i: int| 0 <= i < spec_layers(body).len()
            && (#[trigger] spec_layers(body)[i]).material != MaterialKind::StarBlobs
            && drawn_around_body(spec_layers(body)[i].material)
            ==> spec_layers(body)[i].depth_tenths == spec_layers(body)[0].depth_tenths + 1,
        forall|i: int| 0 <= i < spec_layers(body).len()
            && laid_on((#[trigger] spec_layers(body)[i]).material) is Some ==>
            exists|j: int| 0 <= j < spec_layers(body).len()
                && #[trigger] spec_layers(body)[j].material == laid_on(spec_layers(body)[i].material)->Some_0
                && spec_layers(body)[i].depth_tenths == spec_layers(body)[j].depth_tenths + 1,
{
    assert forall|i: int| 0 <= i < spec_layers(body).len()
        && laid_on((#[trigger] spec_layers(body)[i]).material) is Some implies
        exists|j: int| 0 <= j < spec_layers(body).len()
            && #[trigger] spec_layers(body)[j].material == laid_on(spec_layers(body)[i].material)->Some_0
            && spec_layers(body)[i].depth_tenths == spec_layers(body)[j].depth_tenths + 1 by {
        let j: int = if spec_layers(body)[i].material == MaterialKind::LavaRivers { 1 } else { 0 };
        assert(spec_layers(body)[j].material == laid_on(spec_layers(body)[i].material)->Some_0);
    }
}

pub open spec fn layer_materials(layers: Seq<Layer>) -> Seq<MaterialKind> {
    layers.map_values(|l: Layer| l.material)
}

/// A body's build registers exactly the materials its layers are drawn with:
/// no layer lacks its material plugin and no plugin is registered that none of
/// its layers uses.
pub proof fn law_build_steps_match_layers(body: BodyType)
    ensures
        forall|m: MaterialKind| #[trigger] step_materials(spec_build_steps(body)).contains(m)
            <==> layer_materials(spec_layers(body)).contains(m),
{
    let steps = spec_build_steps(body);
    let ls = spec_layers(body);
    assert forall|m: MaterialKind| #[trigger] step_materials(steps).contains(m)
        implies layer_materials(ls).contains(m) by {
        let k = choose|k: int| 0 <= k < step_materials(steps).len() && step_materials(steps)[k] == m;
        let i: int = match body {
            BodyType::Islands => if k == 0 { 0 } else if k == 1 { 2 } else { 1 },
            _ => k,
        };
        assert(layer_materials(ls)[i] == m);
    }
    assert forall|m: MaterialKind| #[trigger] layer_materials(ls).contains(m)
        implies step_materials(steps).contains(m) by {
        let i = choose|i: int| 0 <= i < layer_materials(ls).len() && layer_materials(ls)[i] == m;
        lemma_layer_material_is_built(body, i);
        let k = choose|k: int| 0 <= k < steps.len() && #[trigger] steps[k].material == ls[i].material;
        assert(step_materials(steps)[k] == m);
    }
}

/// A build step is shared (added only when not registered yet) exactly when
/// some other body is drawn with the same material.
pub proof fn law_shared_steps_are_drawn_by_other_bodies(body: BodyType, i: int)
    requires
        0 <= i < spec_build_steps(body).len(),
    ensures
        spec_build_steps(body)[i].shared <==> exists|other: BodyType, j: int|
            other != body && 0 <= j < spec_layers(other).len()
            && #[trigger] spec_layers(other)[j].material == spec_build_steps(body)[i].material,
{
    let m = spec_build_steps(body)[i].material;
    if spec_build_steps(body)[i].shared {
        let (other, j): (BodyType, int) = match m {
            MaterialKind::Clouds => if body == BodyType::Terran { (BodyType::StormyGasGiant, 0) } else { (BodyType::Terran, 1) },
            MaterialKind::PlanetUnder => if body == BodyType::Islands { (BodyType::IceWorld, 0) } else { (BodyType::Islands, 0) },
            MaterialKind::Surface => if body == BodyType::LavaWorld { (BodyType::NoAtmosphere, 0) } else { (BodyType::LavaWorld, 0) },
            _ => if body == BodyType::LavaWorld { (BodyType::NoAtmosphere, 1) } else { (BodyType::LavaWorld, 1) },
        };
        assert(spec_layers(other)[j].material == m);
    } else {
        assert forall|other: BodyType, j: int| other != body && 0 <= j < spec_layers(other).len()
            implies #[trigger] spec_layers(other)[j].material != m by {
        }
    }
}

} // verus!
