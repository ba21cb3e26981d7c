use vstd::prelude::*;

pub mod layers;
pub mod materials;

verus! {

/// The kinds of celestial body the library can draw.
#[derive(Debug, Clone, PartialEq, Eq, Structural)]
pub enum BodyType {
    Terran,
    Asteroid,
    BandedGasGiant,
    Martian,
    Islands,
    NoAtmosphere,
    StormyGasGiant,
    BlackHole,
    Galaxy,
    IceWorld,
    LavaWorld,
    Star,
}

pub open spec fn spec_all_body_types() -> Seq<BodyType> {
    seq![
        BodyType::Terran,
        BodyType::Asteroid,
        BodyType::BandedGasGiant,
        BodyType::Martian,
        BodyType::Islands,
        BodyType::NoAtmosphere,
        BodyType::StormyGasGiant,
        BodyType::BlackHole,
        BodyType::Galaxy,
        BodyType::IceWorld,
        BodyType::LavaWorld,
        BodyType::Star,
    ]
}

/// The name a body is shown under.
pub open spec fn spec_label(body: BodyType) -> Seq<char> {
    match body {
        BodyType::Terran => "Terran"@,
        BodyType::Asteroid => "Asteroid"@,
        BodyType::BandedGasGiant => "Banded Gas Giant"@,
        BodyType::Martian => "Martian"@,
        BodyType::Islands => "Islands"@,
        BodyType::NoAtmosphere => "No Atmosphere"@,
        BodyType::StormyGasGiant => "Stormy Gas Giant"@,
        BodyType::BlackHole => "Black Hole"@,
        BodyType::Galaxy => "Galaxy"@,
        BodyType::IceWorld => "Ice World"@,
        BodyType::LavaWorld => "Lava World"@,
        BodyType::Star => "Star"@,
    }
}

impl BodyType {
    /// The name the body is shown under.
    pub fn label(&self) -> (r: &'static str)
        ensures
            r@ == spec_label(*self),
    {
        match self {
            BodyType::Terran => "Terran",
            BodyType::Asteroid => "Asteroid",
            BodyType::BandedGasGiant => "Banded Gas Giant",
            BodyType::Martian => "Martian",
            BodyType::Islands => "Islands",
            BodyType::NoAtmosphere => "No Atmosphere",
            BodyType::StormyGasGiant => "Stormy Gas Giant",
            BodyType::BlackHole => "Black Hole",
            BodyType::Galaxy => "Galaxy",
            BodyType::IceWorld => "Ice World",
            BodyType::LavaWorld => "Lava World",
            BodyType::Star => "Star",
        }
    }

    /// Every kind of body, each once.
    pub fn all() -> (r: &'static [BodyType])
        ensures
            r@ == spec_all_body_types(),
    {
        &[
            BodyType::Terran,
            BodyType::Asteroid,
            BodyType::BandedGasGiant,
            BodyType::Martian,
            BodyType::Islands,
            BodyType::NoAtmosphere,
            BodyType::StormyGasGiant,
            BodyType::BlackHole,
            BodyType::Galaxy,
            BodyType::IceWorld,
            BodyType::LavaWorld,
            BodyType::Star,
        ]
    }
}

/// `all` lists every kind of body, and none twice.
pub proof fn law_all_lists_every_body_once(body: BodyType)
    ensures
        spec_all_body_types().contains(body),
        spec_all_body_types().no_duplicates(),
{
    let k: int = match body {
        BodyType::Terran => 0,
        BodyType::Asteroid => 1,
        BodyType::BandedGasGiant => 2,
        BodyType::Martian => 3,
        BodyType::Islands => 4,
        BodyType::NoAtmosphere => 5,
        BodyType::StormyGasGiant => 6,
        BodyType::BlackHole => 7,
        BodyType::Galaxy => 8,
        BodyType::IceWorld => 9,
        BodyType::LavaWorld => 10,
        BodyType::Star => 11,
    };
    assert(spec_all_body_types()[k] == body);
}

/// Different bodies are shown under different, non-empty names.
pub proof fn law_labels_are_distinct(a: BodyType, b: BodyType)
    ensures
        spec_label(a).len() > 0,
        a != b ==> spec_label(a) != spec_label(b),
{
    reveal_strlit("Terran");
    reveal_strlit("Asteroid");
    reveal_strlit("Banded Gas Giant");
    reveal_strlit("Martian");
    reveal_strlit("Islands");
    reveal_strlit("No Atmosphere");
    reveal_strlit("Stormy Gas Giant");
    reveal_strlit("Black Hole");
    reveal_strlit("Galaxy");
    reveal_strlit("Ice World");
    reveal_strlit("Lava World");
    reveal_strlit("Star");
    if a != b && spec_label(a) == spec_label(b) {
        assert(spec_label(a).len() == spec_label(b).len());
        assert(spec_label(a)[0] == spec_label(b)[0]);
        assert(spec_label(a)[1] == spec_label(b)[1]);
    }
}

/// The name each body is shown under: its kind, in words.
pub proof fn law_label_of_each_body()
    ensures
        spec_label(BodyType::Terran) == "Terran"@,
        spec_label(BodyType::Asteroid) == "Asteroid"@,
        spec_label(BodyType::BandedGasGiant) == "Banded Gas Giant"@,
        spec_label(BodyType::Martian) == "Martian"@,
        spec_label(BodyType::Islands) == "Islands"@,
        spec_label(BodyType::NoAtmosphere) == "No Atmosphere"@,
        spec_label(BodyType::StormyGasGiant) == "Stormy Gas Giant"@,
        spec_label(BodyType::BlackHole) == "Black Hole"@,
        spec_label(BodyType::Galaxy) == "Galaxy"@,
        spec_label(BodyType::IceWorld) == "Ice World"@,
        spec_label(BodyType::LavaWorld) == "Lava World"@,
        spec_label(BodyType::Star) == "Star"@,
{
}

/// The bodies in the order in which the plugin builds them.
pub open spec fn spec_plugin_build_order() -> Seq<BodyType> {
    seq![
        BodyType::Terran,
        BodyType::Martian,
        BodyType::Islands,
        BodyType::NoAtmosphere,
        BodyType::StormyGasGiant,
        BodyType::BandedGasGiant,
        BodyType::IceWorld,
        BodyType::LavaWorld,
        BodyType::Asteroid,
        BodyType::BlackHole,
        BodyType::Galaxy,
        BodyType::Star,
    ]
}

/// The bodies in the order in which the plugin builds them.
pub fn plugin_build_order() -> (r: Vec<BodyType>)
    ensures
        r@ == spec_plugin_build_order(),
{
    vec![
        BodyType::Terran,
        BodyType::Martian,
        BodyType::Islands,
        BodyType::NoAtmosphere,
        BodyType::StormyGasGiant,
        BodyType::BandedGasGiant,
        BodyType::IceWorld,
        BodyType::LavaWorld,
        BodyType::Asteroid,
        BodyType::BlackHole,
        BodyType::Galaxy,
        BodyType::Star,
    ]
}

/// Marker for every entity that carries the parameters of a body.
pub struct PixelPlanet;

impl Default for PixelPlanet {
    fn default() -> (r: PixelPlanet)
        ensures
            r == PixelPlanet,
    {
        PixelPlanet
    }
}

/// The number of steps between the first and the last colour of a generated
/// palette of `num_colors` colours: colour `i` is sampled at `i / steps` along
/// the palette curve. A palette of one colour still counts one step, so that
/// nothing is divided by zero.
pub fn palette_steps(num_colors: usize) -> (steps: usize)
    requires
        num_colors >= 1,
    ensures
        steps == if num_colors - 1 > 1 { num_colors - 1 } else { 1 },
        steps >= 1,
        num_colors - 1 <= steps,
        num_colors >= 2 ==> steps == num_colors - 1,
{
    let last = num_colors - 1;
    if last > 1 {
        last
    } else {
        1
    }
}

/// How a switch is handed to a shader: 1 when on, 0 when off.
pub fn shader_flag(enabled: bool) -> (flag: u32)
    ensures
        flag == if enabled { 1u32 } else { 0u32 },
{
    if enabled {
        1
    } else {
        0
    }
}

} // verus!
