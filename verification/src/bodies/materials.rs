use vstd::prelude::*;
use crate::bodies::{spec_plugin_build_order, BodyType};

verus! {

/// The shader materials the bodies are drawn with. Each one is a separate
/// material plugin that has to be registered exactly once with the engine.
#[derive(Debug, Clone, Copy, PartialEq, Eq, Structural)]
pub enum MaterialKind {
    /// Rivers shader of the terran planet.
    Land,
    /// Cloud layer, shared by several bodies.
    Clouds,
    /// Dry terran shader of the martian planet.
    DryTerran,
    /// Lower layer (water, ice) shared by the islands and the ice world.
    PlanetUnder,
    /// Land masses of the islands planet.
    Landmass,
    /// Rocky surface, shared by the bodies without atmosphere.
    Surface,
    /// Craters, shared by the bodies without atmosphere.
    Craters,
    /// Lava rivers of the lava world.
    LavaRivers,
    /// Lakes of the ice world.
    Lakes,
    /// Base layer of the banded gas giant.
    GasBase,
    /// Ring of the banded gas giant.
    GasRing,
    /// Shadow of the black hole.
    Shadow,
    /// Accretion disk of the black hole.
    AccretionDisk,
    /// Galaxy shader.
    Galaxy,
    /// Asteroid shader.
    Asteroid,
    /// Body of a star.
    StarBody,
    /// Blobs around a star.
    StarBlobs,
    /// Flares of a star.
    StarFlares,
}

pub open spec fn spec_all_material_kinds() -> Seq<MaterialKind> {
    seq![
        MaterialKind::Land,
        MaterialKind::Clouds,
        MaterialKind::DryTerran,
        MaterialKind::PlanetUnder,
        MaterialKind::Landmass,
        MaterialKind::Surface,
        MaterialKind::Craters,
        MaterialKind::LavaRivers,
        MaterialKind::Lakes,
        MaterialKind::GasBase,
        MaterialKind::GasRing,
        MaterialKind::Shadow,
        MaterialKind::AccretionDisk,
        MaterialKind::Galaxy,
        MaterialKind::Asteroid,
        MaterialKind::StarBody,
        MaterialKind::StarBlobs,
        MaterialKind::StarFlares,
    ]
}

/// One registration that a body's build performs: a material plugin, and
/// whether it is shared with other bodies (then it is only added when it is
/// not registered yet) or owned by this body (then it is always added).
#[derive(Debug, Clone, Copy, PartialEq, Eq, Structural)]
pub struct BuildStep {
    pub material: MaterialKind,
    pub shared: bool,
}

pub open spec fn owned(material: MaterialKind) -> BuildStep {
    BuildStep { material, shared: false }
}

pub open spec fn shared(material: MaterialKind) -> BuildStep {
    BuildStep { material, shared: true }
}

/// The registrations of each body's build, in the order in which it makes them.
pub open spec fn spec_build_steps(body: BodyType) -> Seq<BuildStep> {
    match body {
        BodyType::Terran => seq![owned(MaterialKind::Land), shared(MaterialKind::Clouds)],
        BodyType::Asteroid => seq![owned(MaterialKind::Asteroid)],
        BodyType::BandedGasGiant => seq![owned(MaterialKind::GasBase), owned(MaterialKind::GasRing)],
        BodyType::Martian => seq![owned(MaterialKind::DryTerran)],
        BodyType::Islands => seq![
            shared(MaterialKind::PlanetUnder),
            shared(MaterialKind::Clouds),
            owned(MaterialKind::Landmass),
        ],
        BodyType::NoAtmosphere => seq![shared(MaterialKind::Surface), shared(MaterialKind::Craters)],
        BodyType::StormyGasGiant => seq![shared(MaterialKind::Clouds)],
        BodyType::BlackHole => seq![owned(MaterialKind::Shadow), owned(MaterialKind::AccretionDisk)],
        BodyType::Galaxy => seq![owned(MaterialKind::Galaxy)],
        BodyType::IceWorld => seq![
            shared(MaterialKind::PlanetUnder),
            owned(MaterialKind::Lakes),
            shared(MaterialKind::Clouds),
        ],
        BodyType::LavaWorld => seq![
            shared(MaterialKind::Surface),
            shared(MaterialKind::Craters),
            owned(MaterialKind::LavaRivers),
        ],
        BodyType::Star => seq![
            owned(MaterialKind::StarBody),
            owned(MaterialKind::StarBlobs),
            owned(MaterialKind::StarFlares),
        ],
    }
}

/// The materials that a build adds, given the materials registered before it:
/// an owned material is always added, a shared one only when it is not
/// registered yet (also not by an earlier step of the same build).
pub open spec fn plan_added(steps: Seq<BuildStep>, registered: Seq<MaterialKind>) -> Seq<MaterialKind>
    decreases steps.len(),
{
    if steps.len() == 0 {
        seq![]
    } else {
        let step = steps[0];
        if step.shared && registered.contains(step.material) {
            plan_added(steps.drop_first(), registered)
        } else {
            seq![step.material] + plan_added(steps.drop_first(), registered.push(step.material))
        }
    }
}

impl MaterialKind {
    pub fn all() -> (r: Vec<MaterialKind>)
        ensures
            r@ == spec_all_material_kinds(),
    {
        vec![
            MaterialKind::Land,
            MaterialKind::Clouds,
            MaterialKind::DryTerran,
            MaterialKind::PlanetUnder,
            MaterialKind::Landmass,
            MaterialKind::Surface,
            MaterialKind::Craters,
            MaterialKind::LavaRivers,
            MaterialKind::Lakes,
            MaterialKind::GasBase,
            MaterialKind::GasRing,
            MaterialKind::Shadow,
            MaterialKind::AccretionDisk,
            MaterialKind::Galaxy,
            MaterialKind::Asteroid,
            MaterialKind::StarBody,
            MaterialKind::StarBlobs,
            MaterialKind::StarFlares,
        ]
    }
}

/// The material registrations that the build of `body` makes, in order.
pub fn build_steps(body: &BodyType) -> (r: Vec<BuildStep>)
    ensures
        r@ == spec_build_steps(*body),
{
    let own = |m: MaterialKind| -> (s: BuildStep) ensures s == owned(m) { BuildStep { material: m, shared: false } };
    let shr = |m: MaterialKind| -> (s: BuildStep) ensures s == shared(m) { BuildStep { material: m, shared: true } };
    match body {
        BodyType::Terran => vec![own(MaterialKind::Land), shr(MaterialKind::Clouds)],
        BodyType::Asteroid => vec![own(MaterialKind::Asteroid)],
        BodyType::BandedGasGiant => vec![own(MaterialKind::GasBase), own(MaterialKind::GasRing)],
        BodyType::Martian => vec![own(MaterialKind::DryTerran)],
        BodyType::Islands => vec![
            shr(MaterialKind::PlanetUnder),
            shr(MaterialKind::Clouds),
            own(MaterialKind::Landmass),
        ],
        BodyType::NoAtmosphere => vec![shr(MaterialKind::Surface), shr(MaterialKind::Craters)],
        BodyType::StormyGasGiant => vec![shr(MaterialKind::Clouds)],
        BodyType::BlackHole => vec![own(MaterialKind::Shadow), own(MaterialKind::AccretionDisk)],
        BodyType::Galaxy => vec![own(MaterialKind::Galaxy)],
        BodyType::IceWorld => vec![
            shr(MaterialKind::PlanetUnder),
            own(MaterialKind::Lakes),
            shr(MaterialKind::Clouds),
        ],
        BodyType::LavaWorld => vec![
            shr(MaterialKind::Surface),
            shr(MaterialKind::Craters),
            own(MaterialKind::LavaRivers),
        ],
        BodyType::Star => vec![
            own(MaterialKind::StarBody),
            own(MaterialKind::StarBlobs),
            own(MaterialKind::StarFlares),
        ],
    }
}


/// The material plugins registered so far, in the order they were added.
pub struct MaterialRegistry {
    registered: Vec<MaterialKind>,
}

impl View for MaterialRegistry {
    type V = Seq<MaterialKind>;

    closed spec fn view(&self) -> Seq<MaterialKind> {
        self.registered@
    }
}

impl MaterialRegistry {
    /// A registry in which nothing is registered.
    pub fn new() -> (r: MaterialRegistry)
        ensures
            r@ == Seq::<MaterialKind>::empty(),
    {
        MaterialRegistry { registered: Vec::new() }
    }

    /// The materials registered so far, in the order they were registered.
    pub fn registered(&self) -> (r: &Vec<MaterialKind>)
        ensures
            r@ == self@,
    {
        &self.registered
    }

    /// Whether `material` is registered.
    pub fn contains(&self, material: MaterialKind) -> (r: bool)
        ensures
            r == self@.contains(material),
    {
        let mut i: usize = 0;
        while i < self.registered.len()
            invariant
                0 <= i <= self.registered@.len(),
                forall|j: int| 0 <= j < i ==> self.registered@[j] != material,
            decreases self.registered@.len() - i,
        {
            if self.registered[i] == material {
                return true;
            }
            i = i + 1;
        }
        false
    }

    /// Records that `material` was registered by someone else; a material that
    /// is registered already is not recorded twice.
    pub fn mark_registered(&mut self, material: MaterialKind)
        ensures
            old(self)@.contains(material) ==> final(self)@ == old(self)@,
            !old(self)@.contains(material) ==> final(self)@ == old(self)@.push(material),
    {
        if !self.contains(material) {
            self.registered.push(material);
        }
    }

    /// The build of `body`: returns the material plugins to add, in order, and
    /// records them as registered. A shared material is added only when it is
    /// not registered yet; an owned one is always added.
    pub fn build_body(&mut self, body: &BodyType) -> (added: Vec<MaterialKind>)
        ensures
            added@ == plan_added(spec_build_steps(*body), old(self)@),
            final(self)@ == old(self)@ + added@,
    {
        let steps = build_steps(body);
        let mut added: Vec<MaterialKind> = Vec::new();
        let mut i: usize = 0;
        assert(steps@.skip(0) =~= steps@);
        assert(added@ + plan_added(steps@, self@) =~= plan_added(steps@, self@));
        while i < steps.len()
            invariant
                0 <= i <= steps@.len(),
                steps@ == spec_build_steps(*body),
                self@ == old(self)@ + added@,
                plan_added(steps@, old(self)@) == added@ + plan_added(steps@.skip(i as int), self@),
            decreases steps@.len() - i,
        {
            let step = steps[i];
            assert(steps@.skip(i as int).drop_first() =~= steps@.skip(i + 1));
            assert(steps@.skip(i as int)[0] == step);
            if !(step.shared && self.contains(step.material)) {
                let ghost before = self@;
                self.registered.push(step.material);
                added.push(step.material);
                assert(self@ == before.push(step.material));
            }
            i = i + 1;
        }
        assert(steps@.skip(i as int) =~= Seq::<BuildStep>::empty());
        added
    }
}


/// Whether a material is shared between bodies (registered only when absent).
pub open spec fn is_shared_material(material: MaterialKind) -> bool {
    match material {
        MaterialKind::Clouds | MaterialKind::PlanetUnder | MaterialKind::Surface
        | MaterialKind::Craters => true,
        _ => false,
    }
}

/// The body whose build owns a material that is not shared.
pub open spec fn material_owner(material: MaterialKind) -> BodyType {
    match material {
        MaterialKind::Land => BodyType::Terran,
        MaterialKind::DryTerran => BodyType::Martian,
        MaterialKind::Landmass => BodyType::Islands,
        MaterialKind::LavaRivers => BodyType::LavaWorld,
        MaterialKind::Lakes => BodyType::IceWorld,
        MaterialKind::GasBase => BodyType::BandedGasGiant,
        MaterialKind::GasRing => BodyType::BandedGasGiant,
        MaterialKind::Shadow => BodyType::BlackHole,
        MaterialKind::AccretionDisk => BodyType::BlackHole,
        MaterialKind::Galaxy => BodyType::Galaxy,
        MaterialKind::Asteroid => BodyType::Asteroid,
        MaterialKind::StarBody => BodyType::Star,
        MaterialKind::StarBlobs => BodyType::Star,
        MaterialKind::StarFlares => BodyType::Star,
        // shared materials have no owner; any body will do here
        _ => BodyType::Terran,
    }
}

pub open spec fn step_materials(steps: Seq<BuildStep>) -> Seq<MaterialKind> {
    steps.map_values(|s: BuildStep| s.material)
}

/// The registry after the builds of `bodies`, in order, starting from `registered`.
pub open spec fn registry_after(bodies: Seq<BodyType>, registered: Seq<MaterialKind>) -> Seq<MaterialKind>
    decreases bodies.len(),
{
    if bodies.len() == 0 {
        registered
    } else {
        registry_after(
            bodies.drop_first(),
            registered + plan_added(spec_build_steps(bodies[0]), registered),
        )
    }
}

/// Every build step of a body marks shared materials as shared, marks the
/// others as owned by that body, and names no material twice.
proof fn lemma_build_steps_well_formed(body: BodyType)
    ensures
        step_materials(spec_build_steps(body)).no_duplicates(),
        forall|i: int| 0 <= i < spec_build_steps(body).len() ==> {
            let s = #[trigger] spec_build_steps(body)[i];
            &&& s.shared == is_shared_material(s.material)
            &&& !s.shared ==> material_owner(s.material) == body
        },
{
    let ms = step_materials(spec_build_steps(body));
    assert(ms.len() == spec_build_steps(body).len());
}

proof fn lemma_plan_registers_steps(steps: Seq<BuildStep>, registered: Seq<MaterialKind>)
    ensures
        forall|m: MaterialKind| registered.contains(m) ==> #[trigger] (registered + plan_added(steps, registered)).contains(m),
        forall|i: int| 0 <= i < steps.len() ==> (registered + plan_added(steps, registered)).contains(#[trigger] steps[i].material),
    decreases steps.len(),
{
    let after = registered + plan_added(steps, registered);
    if steps.len() == 0 {
        assert(after =~= registered);
    } else {
        let step = steps[0];
        let rest = steps.drop_first();
        let reg2 = if step.shared && registered.contains(step.material) {
            registered
        } else {
            registered.push(step.material)
        };
        lemma_plan_registers_steps(rest, reg2);
        assert(after =~= reg2 + plan_added(rest, reg2));
        assert(reg2.contains(step.material)) by {
            if !(step.shared && registered.contains(step.material)) {
                assert(reg2[registered.len() as int] == step.material);
            }
        }
        assert forall|m: MaterialKind| registered.contains(m) implies reg2.contains(m) by {
            let k = choose|k: int| 0 <= k < registered.len() && registered[k] == m;
            assert(reg2[k] == m);
        }
        assert forall|i: int| 0 <= i < steps.len() implies after.contains(#[trigger] steps[i].material) by {
            if i > 0 {
                assert(steps[i] == rest[i - 1]);
            }
        }
    }
}

proof fn lemma_plan_keeps_unique(steps: Seq<BuildStep>, registered: Seq<MaterialKind>)
    requires
        registered.no_duplicates(),
        step_materials(steps).no_duplicates(),
        forall|i: int| 0 <= i < steps.len() && !(#[trigger] steps[i]).shared ==> !registered.contains(steps[i].material),
    ensures
        (registered + plan_added(steps, registered)).no_duplicates(),
        forall|m: MaterialKind| #[trigger] (registered + plan_added(steps, registered)).contains(m) ==>
            registered.contains(m) || step_materials(steps).contains(m),
    decreases steps.len(),
{
    let after = registered + plan_added(steps, registered);
    if steps.len() == 0 {
        assert(after =~= registered);
    } else {
        let step = steps[0];
        let rest = steps.drop_first();
        assert(step_materials(rest) =~= step_materials(steps).drop_first());
        assert forall|i: int| 0 <= i < rest.len() implies #[trigger] rest[i].material != step.material by {
            assert(step_materials(steps)[i + 1] == rest[i].material);
            assert(step_materials(steps)[0] == step.material);
        }
        if step.shared && registered.contains(step.material) {
            lemma_plan_keeps_unique(rest, registered);
            assert forall|m: MaterialKind| #[trigger] after.contains(m) implies
                registered.contains(m) || step_materials(steps).contains(m) by {
                if step_materials(rest).contains(m) {
                    let k = choose|k: int| 0 <= k < step_materials(rest).len() && step_materials(rest)[k] == m;
                    assert(step_materials(steps)[k + 1] == m);
                }
            }
        } else {
            let reg2 = registered.push(step.material);
            assert(reg2.no_duplicates());
            assert forall|i: int| 0 <= i < rest.len() && !(#[trigger] rest[i]).shared implies
                !reg2.contains(rest[i].material) by {
                assert(steps[i + 1] == rest[i]);
                if reg2.contains(rest[i].material) {
                    let k = choose|k: int| 0 <= k < reg2.len() && reg2[k] == rest[i].material;
                    if k < registered.len() {
                        assert(registered[k] == rest[i].material);
                    }
                }
            }
            lemma_plan_keeps_unique(rest, reg2);
            assert(after =~= reg2 + plan_added(rest, reg2));
            assert forall|m: MaterialKind| #[trigger] after.contains(m) implies
                registered.contains(m) || step_materials(steps).contains(m) by {
                if reg2.contains(m) {
                    let k = choose|k: int| 0 <= k < reg2.len() && reg2[k] == m;
                    if k < registered.len() {
                        assert(registered[k] == m);
                    } else {
                        assert(step_materials(steps)[0] == m);
                    }
                } else if step_materials(rest).contains(m) {
                    let k = choose|k: int| 0 <= k < step_materials(rest).len() && step_materials(rest)[k] == m;
                    assert(step_materials(steps)[k + 1] == m);
                }
            }
        }
    }
}


/// A build keeps every material registered before it, and afterwards every
/// material of the body's build steps is registered.
pub proof fn law_build_registers_its_materials(body: BodyType, registered: Seq<MaterialKind>)
    ensures
        forall|m: MaterialKind| registered.contains(m) ==>
            #[trigger] (registered + plan_added(spec_build_steps(body), registered)).contains(m),
        forall|i: int| 0 <= i < spec_build_steps(body).len() ==>
            (registered + plan_added(spec_build_steps(body), registered)).contains(
                #[trigger] spec_build_steps(body)[i].material,
            ),
{
    lemma_plan_registers_steps(spec_build_steps(body), registered);
}

/// A build never registers a material twice, provided no material was
/// registered twice before and none of the body's own materials was
/// registered already (that is, the body was not built before).
pub proof fn law_build_keeps_registry_unique(body: BodyType, registered: Seq<MaterialKind>)
    requires
        registered.no_duplicates(),
        forall|m: MaterialKind| #[trigger] registered.contains(m) && !is_shared_material(m) ==>
            material_owner(m) != body,
    ensures
        (registered + plan_added(spec_build_steps(body), registered)).no_duplicates(),
{
    let steps = spec_build_steps(body);
    lemma_build_steps_well_formed(body);
    assert forall|i: int| 0 <= i < steps.len() && !(#[trigger] steps[i]).shared implies
        !registered.contains(steps[i].material) by {
        assert(material_owner(steps[i].material) == body);
    }
    lemma_plan_keeps_unique(steps, registered);
}

proof fn lemma_registry_after(bodies: Seq<BodyType>, registered: Seq<MaterialKind>)
    requires
        bodies.no_duplicates(),
        registered.no_duplicates(),
        forall|m: MaterialKind| #[trigger] registered.contains(m) && !is_shared_material(m) ==>
            !bodies.contains(material_owner(m)),
    ensures
        registry_after(bodies, registered).no_duplicates(),
        forall|m: MaterialKind| registered.contains(m) ==> #[trigger] registry_after(bodies, registered).contains(m),
        forall|j: int, i: int| 0 <= j < bodies.len() && 0 <= i < spec_build_steps(bodies[j]).len() ==>
            registry_after(bodies, registered).contains(#[trigger] spec_build_steps(bodies[j])[i].material),
    decreases bodies.len(),
{
    if bodies.len() > 0 {
        let b0 = bodies[0];
        let rest = bodies.drop_first();
        let steps = spec_build_steps(b0);
        let reg1 = registered + plan_added(steps, registered);
        lemma_build_steps_well_formed(b0);
        assert forall|i: int| 0 <= i < steps.len() && !(#[trigger] steps[i]).shared implies
            !registered.contains(steps[i].material) by {
            assert(bodies[0] == material_owner(steps[i].material));
        }
        lemma_plan_keeps_unique(steps, registered);
        lemma_plan_registers_steps(steps, registered);
        assert forall|m: MaterialKind| #[trigger] reg1.contains(m) && !is_shared_material(m) implies
            !rest.contains(material_owner(m)) by {
            if rest.contains(material_owner(m)) {
                let k = choose|k: int| 0 <= k < rest.len() && rest[k] == material_owner(m);
                assert(bodies[k + 1] == material_owner(m));
                if registered.contains(m) {
                } else {
                    assert(step_materials(steps).contains(m));
                    let i = choose|i: int| 0 <= i < step_materials(steps).len() && step_materials(steps)[i] == m;
                    assert(steps[i].material == m);
                    assert(material_owner(m) == b0);
                }
            }
        }
        assert(rest.no_duplicates()) by {
            assert forall|x: int, y: int| 0 <= x < rest.len() && 0 <= y < rest.len() && x != y implies rest[x] != rest[y] by {
                assert(rest[x] == bodies[x + 1] && rest[y] == bodies[y + 1]);
            }
        }
        lemma_registry_after(rest, reg1);
        assert forall|j: int, i: int| 0 <= j < bodies.len() && 0 <= i < spec_build_steps(bodies[j]).len() implies
            registry_after(bodies, registered).contains(#[trigger] spec_build_steps(bodies[j])[i].material) by {
            if j == 0 {
                assert(reg1.contains(steps[i].material));
            } else {
                assert(bodies[j] == rest[j - 1]);
            }
        }
    }
}


/// Where the plugin's builds register a material: the position of the body in
/// the plugin's build order, and the position of the step in that body's build.
spec fn first_registration(material: MaterialKind) -> (int, int) {
    match material {
        MaterialKind::Land => (0, 0),
        MaterialKind::Clouds => (0, 1),
        MaterialKind::DryTerran => (1, 0),
        MaterialKind::PlanetUnder => (2, 0),
        MaterialKind::Landmass => (2, 2),
        MaterialKind::Surface => (3, 0),
        MaterialKind::Craters => (3, 1),
        MaterialKind::GasBase => (5, 0),
        MaterialKind::GasRing => (5, 1),
        MaterialKind::Lakes => (6, 1),
        MaterialKind::LavaRivers => (7, 2),
        MaterialKind::Asteroid => (8, 0),
        MaterialKind::Shadow => (9, 0),
        MaterialKind::AccretionDisk => (9, 1),
        MaterialKind::Galaxy => (10, 0),
        MaterialKind::StarBody => (11, 0),
        MaterialKind::StarBlobs => (11, 1),
        MaterialKind::StarFlares => (11, 2),
    }
}

/// Building every body in the plugin's order, starting from an empty
/// registry, registers every material plugin, and none of them twice.
pub proof fn law_plugin_registers_each_material_once()
    ensures
        registry_after(spec_plugin_build_order(), Seq::empty()).no_duplicates(),
        forall|m: MaterialKind| #[trigger] registry_after(spec_plugin_build_order(), Seq::empty()).contains(m),
        registry_after(spec_plugin_build_order(), Seq::empty()).len() == spec_all_material_kinds().len(),
{
    let order = spec_plugin_build_order();
    let result = registry_after(order, Seq::empty());
    lemma_registry_after(order, Seq::empty());
    assert forall|m: MaterialKind| #[trigger] result.contains(m) by {
        let (j, i) = first_registration(m);
        assert(spec_build_steps(order[j])[i].material == m);
    }
    assert(result.to_set() =~= spec_all_material_kinds().to_set()) by {
        assert forall|m: MaterialKind| spec_all_material_kinds().contains(m) by {
            let k: int = match m {
                MaterialKind::Land => 0,
                MaterialKind::Clouds => 1,
                MaterialKind::DryTerran => 2,
                MaterialKind::PlanetUnder => 3,
                MaterialKind::Landmass => 4,
                MaterialKind::Surface => 5,
                MaterialKind::Craters => 6,
                MaterialKind::LavaRivers => 7,
                MaterialKind::Lakes => 8,
                MaterialKind::GasBase => 9,
                MaterialKind::GasRing => 10,
                MaterialKind::Shadow => 11,
                MaterialKind::AccretionDisk => 12,
                MaterialKind::Galaxy => 13,
                MaterialKind::Asteroid => 14,
                MaterialKind::StarBody => 15,
                MaterialKind::StarBlobs => 16,
                MaterialKind::StarFlares => 17,
            };
            assert(spec_all_material_kinds()[k] == m);
        }
    }
    result.unique_seq_to_set();
    spec_all_material_kinds().unique_seq_to_set();
}


/// The fragment shader a material is drawn with.
pub open spec fn spec_shader_path(material: MaterialKind) -> Seq<char> {
    match material {
        MaterialKind::Land => "shaders/rivers/rivers.wgsl"@,
        MaterialKind::Clouds => "shaders/landmasses/clouds.wgsl"@,
        MaterialKind::DryTerran => "shaders/dryterran/dryterran.wgsl"@,
        MaterialKind::PlanetUnder => "shaders/landmasses/planetunder.wgsl"@,
        MaterialKind::Landmass => "shaders/landmasses/landmass.wgsl"@,
        MaterialKind::Surface => "shaders/noatmosphere/surface.wgsl"@,
        MaterialKind::Craters => "shaders/noatmosphere/craters.wgsl"@,
        MaterialKind::LavaRivers => "shaders/lavaworld/rivers.wgsl"@,
        MaterialKind::Lakes => "shaders/iceworld/lakes.wgsl"@,
        MaterialKind::GasBase => "shaders/gasplanet/base.wgsl"@,
        MaterialKind::GasRing => "shaders/gasplanet/ring.wgsl"@,
        MaterialKind::Shadow => "shaders/blackhole/shadow.wgsl"@,
        MaterialKind::AccretionDisk => "shaders/blackhole/accretiondisk.wgsl"@,
        MaterialKind::Galaxy => "shaders/galaxy/galaxy.wgsl"@,
        MaterialKind::Asteroid => "shaders/asteroid/asteroid.wgsl"@,
        MaterialKind::StarBody => "shaders/star/body.wgsl"@,
        MaterialKind::StarBlobs => "shaders/star/blobs.wgsl"@,
        MaterialKind::StarFlares => "shaders/star/flares.wgsl"@,
    }
}

impl MaterialKind {
    /// The fragment shader the material is drawn with.
    pub fn shader_path(&self) -> (r: &'static str)
        ensures
            r@ == spec_shader_path(*self),
    {
        match self {
            MaterialKind::Land => "shaders/rivers/rivers.wgsl",
            MaterialKind::Clouds => "shaders/landmasses/clouds.wgsl",
            MaterialKind::DryTerran => "shaders/dryterran/dryterran.wgsl",
            MaterialKind::PlanetUnder => "shaders/landmasses/planetunder.wgsl",
            MaterialKind::Landmass => "shaders/landmasses/landmass.wgsl",
            MaterialKind::Surface => "shaders/noatmosphere/surface.wgsl",
            MaterialKind::Craters => "shaders/noatmosphere/craters.wgsl",
            MaterialKind::LavaRivers => "shaders/lavaworld/rivers.wgsl",
            MaterialKind::Lakes => "shaders/iceworld/lakes.wgsl",
            MaterialKind::GasBase => "shaders/gasplanet/base.wgsl",
            MaterialKind::GasRing => "shaders/gasplanet/ring.wgsl",
            MaterialKind::Shadow => "shaders/blackhole/shadow.wgsl",
            MaterialKind::AccretionDisk => "shaders/blackhole/accretiondisk.wgsl",
            MaterialKind::Galaxy => "shaders/galaxy/galaxy.wgsl",
            MaterialKind::Asteroid => "shaders/asteroid/asteroid.wgsl",
            MaterialKind::StarBody => "shaders/star/body.wgsl",
            MaterialKind::StarBlobs => "shaders/star/blobs.wgsl",
            MaterialKind::StarFlares => "shaders/star/flares.wgsl",
        }
    }
}

/// Different materials are drawn with different shaders.
pub proof fn law_shader_paths_are_distinct(a: MaterialKind, b: MaterialKind)
    ensures
        a != b ==> spec_shader_path(a) != spec_shader_path(b),
{
    reveal_strlit("shaders/rivers/rivers.wgsl");
    reveal_strlit("shaders/landmasses/clouds.wgsl");
    reveal_strlit("shaders/dryterran/dryterran.wgsl");
    reveal_strlit("shaders/landmasses/planetunder.wgsl");
    reveal_strlit("shaders/landmasses/landmass.wgsl");
    reveal_strlit("shaders/noatmosphere/surface.wgsl");
    reveal_strlit("shaders/noatmosphere/craters.wgsl");
    reveal_strlit("shaders/lavaworld/rivers.wgsl");
    reveal_strlit("shaders/iceworld/lakes.wgsl");
    reveal_strlit("shaders/gasplanet/base.wgsl");
    reveal_strlit("shaders/gasplanet/ring.wgsl");
    reveal_strlit("shaders/blackhole/shadow.wgsl");
    reveal_strlit("shaders/blackhole/accretiondisk.wgsl");
    reveal_strlit("shaders/galaxy/galaxy.wgsl");
    reveal_strlit("shaders/asteroid/asteroid.wgsl");
    reveal_strlit("shaders/star/body.wgsl");
    reveal_strlit("shaders/star/blobs.wgsl");
    reveal_strlit("shaders/star/flares.wgsl");
    if a != b && spec_shader_path(a) == spec_shader_path(b) {
        assert(spec_shader_path(a).len() == spec_shader_path(b).len());
        assert(spec_shader_path(a)[8] == spec_shader_path(b)[8]);
        assert(spec_shader_path(a)[9] == spec_shader_path(b)[9]);
        assert(spec_shader_path(a)[10] == spec_shader_path(b)[10]);
        assert(spec_shader_path(a)[11] == spec_shader_path(b)[11]);
        assert(spec_shader_path(a)[12] == spec_shader_path(b)[12]);
        assert(spec_shader_path(a)[13] == spec_shader_path(b)[13]);
        assert(spec_shader_path(a)[14] == spec_shader_path(b)[14]);
        assert(spec_shader_path(a)[15] == spec_shader_path(b)[15]);
        assert(spec_shader_path(a)[16] == spec_shader_path(b)[16]);
        assert(spec_shader_path(a)[17] == spec_shader_path(b)[17]);
        assert(spec_shader_path(a)[18] == spec_shader_path(b)[18]);
        assert(spec_shader_path(a)[19] == spec_shader_path(b)[19]);
        assert(spec_shader_path(a)[20] == spec_shader_path(b)[20]);
        assert(spec_shader_path(a)[21] == spec_shader_path(b)[21]);
    }
}


/// The shader file each material is drawn with, material by material: the
/// rivers of the terran planet, the shared cloud, under-layer, surface and
/// crater shaders, and one shader of its own for every other layer.
pub proof fn law_shader_path_of_each_material()
    ensures
        spec_shader_path(MaterialKind::Land) == "shaders/rivers/rivers.wgsl"@,
        spec_shader_path(MaterialKind::Clouds) == "shaders/landmasses/clouds.wgsl"@,
        spec_shader_path(MaterialKind::DryTerran) == "shaders/dryterran/dryterran.wgsl"@,
        spec_shader_path(MaterialKind::PlanetUnder) == "shaders/landmasses/planetunder.wgsl"@,
        spec_shader_path(MaterialKind::Landmass) == "shaders/landmasses/landmass.wgsl"@,
        spec_shader_path(MaterialKind::Surface) == "shaders/noatmosphere/surface.wgsl"@,
        spec_shader_path(MaterialKind::Craters) == "shaders/noatmosphere/craters.wgsl"@,
        spec_shader_path(MaterialKind::LavaRivers) == "shaders/lavaworld/rivers.wgsl"@,
        spec_shader_path(MaterialKind::Lakes) == "shaders/iceworld/lakes.wgsl"@,
        spec_shader_path(MaterialKind::GasBase) == "shaders/gasplanet/base.wgsl"@,
        spec_shader_path(MaterialKind::GasRing) == "shaders/gasplanet/ring.wgsl"@,
        spec_shader_path(MaterialKind::Shadow) == "shaders/blackhole/shadow.wgsl"@,
        spec_shader_path(MaterialKind::AccretionDisk) == "shaders/blackhole/accretiondisk.wgsl"@,
        spec_shader_path(MaterialKind::Galaxy) == "shaders/galaxy/galaxy.wgsl"@,
        spec_shader_path(MaterialKind::Asteroid) == "shaders/asteroid/asteroid.wgsl"@,
        spec_shader_path(MaterialKind::StarBody) == "shaders/star/body.wgsl"@,
        spec_shader_path(MaterialKind::StarBlobs) == "shaders/star/blobs.wgsl"@,
        spec_shader_path(MaterialKind::StarFlares) == "shaders/star/flares.wgsl"@,
{
}


proof fn lemma_plan_contents(steps: Seq<BuildStep>, registered: Seq<MaterialKind>)
    requires
        step_materials(steps).no_duplicates(),
    ensures
        forall|m: MaterialKind| #[trigger] plan_added(steps, registered).contains(m) <==>
            exists|i: int| 0 <= i < steps.len() && (#[trigger] steps[i]).material == m
                && (!steps[i].shared || !registered.contains(m)),
    decreases steps.len(),
{
    if steps.len() > 0 {
        let step = steps[0];
        let rest = steps.drop_first();
        assert(step_materials(rest) =~= step_materials(steps).drop_first());
        assert forall|i: int| 0 <= i < rest.len() implies #[trigger] rest[i].material != step.material by {
            assert(step_materials(steps)[i + 1] == rest[i].material);
            assert(step_materials(steps)[0] == step.material);
        }
        let reg2 = if step.shared && registered.contains(step.material) {
            registered
        } else {
            registered.push(step.material)
        };
        lemma_plan_contents(rest, reg2);
        let plan = plan_added(steps, registered);
        assert forall|m: MaterialKind| #[trigger] plan.contains(m) <==>
            exists|i: int| 0 <= i < steps.len() && (#[trigger] steps[i]).material == m
                && (!steps[i].shared || !registered.contains(m)) by {
            if m != step.material {
                assert(reg2.contains(m) <==> registered.contains(m)) by {
                    if reg2.contains(m) {
                        let k = choose|k: int| 0 <= k < reg2.len() && reg2[k] == m;
                        assert(registered[k] == m);
                    }
                    if registered.contains(m) {
                        let k = choose|k: int| 0 <= k < registered.len() && registered[k] == m;
                        assert(reg2[k] == m);
                    }
                }
                if plan.contains(m) {
                    let k = choose|k: int| 0 <= k < plan.len() && plan[k] == m;
                    if !(step.shared && registered.contains(step.material)) {
                        assert(plan =~= seq![step.material] + plan_added(rest, reg2));
                        assert(plan_added(rest, reg2)[k - 1] == m);
                    }
                    assert(plan_added(rest, reg2).contains(m));
                    let i = choose|i: int| 0 <= i < rest.len() && (#[trigger] rest[i]).material == m
                        && (!rest[i].shared || !reg2.contains(m));
                    assert(steps[i + 1] == rest[i]);
                }
                if exists|i: int| 0 <= i < steps.len() && (#[trigger] steps[i]).material == m
                    && (!steps[i].shared || !registered.contains(m)) {
                    let i = choose|i: int| 0 <= i < steps.len() && (#[trigger] steps[i]).material == m
                        && (!steps[i].shared || !registered.contains(m));
                    assert(rest[i - 1] == steps[i]);
                    assert(plan_added(rest, reg2).contains(m));
                    let k = choose|k: int| 0 <= k < plan_added(rest, reg2).len() && plan_added(rest, reg2)[k] == m;
                    if !(step.shared && registered.contains(step.material)) {
                        assert(plan =~= seq![step.material] + plan_added(rest, reg2));
                        assert(plan[k + 1] == m);
                    }
                }
            } else {
                if step.shared && registered.contains(step.material) {
                    if plan.contains(m) {
                        assert(plan_added(rest, reg2).contains(m));
                        let i = choose|i: int| 0 <= i < rest.len() && (#[trigger] rest[i]).material == m
                            && (!rest[i].shared || !reg2.contains(m));
                        assert(false);
                    }
                    if exists|i: int| 0 <= i < steps.len() && (#[trigger] steps[i]).material == m
                        && (!steps[i].shared || !registered.contains(m)) {
                        let i = choose|i: int| 0 <= i < steps.len() && (#[trigger] steps[i]).material == m
                            && (!steps[i].shared || !registered.contains(m));
                        if i > 0 {
                            assert(rest[i - 1] == steps[i]);
                        }
                    }
                } else {
                    assert(plan =~= seq![step.material] + plan_added(rest, reg2));
                    assert(plan[0] == m);
                    assert(steps[0].material == m);
                }
            }
        }
    }
}

/// What a build adds, given what was registered before it: exactly the
/// materials of its steps that are owned by the body, or shared and not yet
/// registered.
pub proof fn law_build_adds_exactly(body: BodyType, registered: Seq<MaterialKind>)
    ensures
        forall|m: MaterialKind| #[trigger] plan_added(spec_build_steps(body), registered).contains(m) <==>
            exists|i: int| 0 <= i < spec_build_steps(body).len()
                && (#[trigger] spec_build_steps(body)[i]).material == m
                && (!spec_build_steps(body)[i].shared || !registered.contains(m)),
{
    lemma_build_steps_well_formed(body);
    lemma_plan_contents(spec_build_steps(body), registered);
}

/// The plugin builds every kind of body, each exactly once.
pub proof fn law_plugin_builds_every_body_once(body: BodyType)
    ensures
        spec_plugin_build_order().contains(body),
        spec_plugin_build_order().no_duplicates(),
{
    let k: int = match body {
        BodyType::Terran => 0,
        BodyType::Martian => 1,
        BodyType::Islands => 2,
        BodyType::NoAtmosphere => 3,
        BodyType::StormyGasGiant => 4,
        BodyType::BandedGasGiant => 5,
        BodyType::IceWorld => 6,
        BodyType::LavaWorld => 7,
        BodyType::Asteroid => 8,
        BodyType::BlackHole => 9,
        BodyType::Galaxy => 10,
        BodyType::Star => 11,
    };
    assert(spec_plugin_build_order()[k] == body);
}

/// `MaterialKind::all` lists every material, and none twice.
pub proof fn law_all_materials_listed_once(material: MaterialKind)
    ensures
        spec_all_material_kinds().contains(material),
        spec_all_material_kinds().no_duplicates(),
{
    let k: int = match material {
        MaterialKind::Land => 0,
        MaterialKind::Clouds => 1,
        MaterialKind::DryTerran => 2,
        MaterialKind::PlanetUnder => 3,
        MaterialKind::Landmass => 4,
        MaterialKind::Surface => 5,
        MaterialKind::Craters => 6,
        MaterialKind::LavaRivers => 7,
        MaterialKind::Lakes => 8,
        MaterialKind::GasBase => 9,
        MaterialKind::GasRing => 10,
        MaterialKind::Shadow => 11,
        MaterialKind::AccretionDisk => 12,
        MaterialKind::Galaxy => 13,
        MaterialKind::Asteroid => 14,
        MaterialKind::StarBody => 15,
        MaterialKind::StarBlobs => 16,
        MaterialKind::StarFlares => 17,
    };
    assert(spec_all_material_kinds()[k] == material);
}

} // verus!
