//! Fractal types and the render-model enums whose identifiers are written
//! into the GPU uniform buffer.

use vstd::prelude::*;

verus! {

/// Every fractal the explorer can render.
#[derive(Debug, Clone, Copy, PartialEq, Eq, Structural)]
pub enum FractalType {
    Mandelbrot2D,
    Julia2D,
    Sierpinski2D,
    SierpinskiTriangle2D,
    BurningShip2D,
    Tricorn2D,
    Phoenix2D,
    Celtic2D,
    Newton2D,
    Lyapunov2D,
    Nova2D,
    Magnet2D,
    Collatz2D,
    Mandelbulb3D,
    MengerSponge3D,
    SierpinskiPyramid3D,
    JuliaSet3D,
    Mandelbox3D,
    OctahedralIFS3D,
    IcosahedralIFS3D,
    ApollonianGasket3D,
    Kleinian3D,
    HybridMandelbulbJulia3D,
    QuaternionCubic3D,
    SierpinskiGasket3D,
    Buddhabrot2D,
    Hopalong2D,
    Martin2D,
    Gingerbreadman2D,
    Chip2D,
    Quadruptwo2D,
    Threeply2D,
    Pickover3D,
    Lorenz3D,
    Rossler3D,
}

impl FractalType {
    /// The shader identifier of each type (the wire format of
    /// `uniforms.fractal_type`). Identifiers 32..=34 are reserved.
    pub open spec fn spec_gpu_id(self) -> u32 {
        match self {
            FractalType::Mandelbrot2D => 0,
            FractalType::Julia2D => 1,
            FractalType::Sierpinski2D => 2,
            FractalType::SierpinskiTriangle2D => 3,
            FractalType::BurningShip2D => 4,
            FractalType::Tricorn2D => 5,
            FractalType::Phoenix2D => 6,
            FractalType::Celtic2D => 7,
            FractalType::Newton2D => 8,
            FractalType::Lyapunov2D => 9,
            FractalType::Nova2D => 10,
            FractalType::Magnet2D => 11,
            FractalType::Collatz2D => 12,
            FractalType::Mandelbulb3D => 13,
            FractalType::MengerSponge3D => 14,
            FractalType::SierpinskiPyramid3D => 15,
            FractalType::JuliaSet3D => 16,
            FractalType::Mandelbox3D => 17,
            FractalType::OctahedralIFS3D => 18,
            FractalType::IcosahedralIFS3D => 19,
            FractalType::ApollonianGasket3D => 20,
            FractalType::Kleinian3D => 21,
            FractalType::HybridMandelbulbJulia3D => 22,
            FractalType::QuaternionCubic3D => 23,
            FractalType::SierpinskiGasket3D => 24,
            FractalType::Buddhabrot2D => 25,
            FractalType::Hopalong2D => 26,
            FractalType::Martin2D => 27,
            FractalType::Gingerbreadman2D => 28,
            FractalType::Chip2D => 29,
            FractalType::Quadruptwo2D => 30,
            FractalType::Threeply2D => 31,
            FractalType::Pickover3D => 35,
            FractalType::Lorenz3D => 36,
            FractalType::Rossler3D => 37,
        }
    }

    /// The 2D strange attractors (xfractint family).
    pub open spec fn spec_is_2d_attractor(self) -> bool {
        ||| self == FractalType::Hopalong2D
        ||| self == FractalType::Martin2D
        ||| self == FractalType::Gingerbreadman2D
        ||| self == FractalType::Chip2D
        ||| self == FractalType::Quadruptwo2D
        ||| self == FractalType::Threeply2D
    }

    /// The ray-marched 3D fractals and the 3D strange attractors.
    pub open spec fn spec_is_3d(self) -> bool {
        ||| self == FractalType::Mandelbulb3D
        ||| self == FractalType::MengerSponge3D
        ||| self == FractalType::SierpinskiPyramid3D
        ||| self == FractalType::JuliaSet3D
        ||| self == FractalType::Mandelbox3D
        ||| self == FractalType::OctahedralIFS3D
        ||| self == FractalType::IcosahedralIFS3D
        ||| self == FractalType::ApollonianGasket3D
        ||| self == FractalType::Kleinian3D
        ||| self == FractalType::HybridMandelbulbJulia3D
        ||| self == FractalType::QuaternionCubic3D
        ||| self == FractalType::SierpinskiGasket3D
        ||| self == FractalType::Pickover3D
        ||| self == FractalType::Lorenz3D
        ||| self == FractalType::Rossler3D
    }

    pub open spec fn spec_filename_safe_name(self) -> Seq<char> {
        match self {
            FractalType::Mandelbrot2D => "mandelbrot"@,
            FractalType::Julia2D => "julia"@,
            FractalType::Sierpinski2D => "sierpinski"@,
            FractalType::SierpinskiTriangle2D => "sierpinski_triangle"@,
            FractalType::BurningShip2D => "burning_ship"@,
            FractalType::Tricorn2D => "tricorn"@,
            FractalType::Phoenix2D => "phoenix"@,
            FractalType::Celtic2D => "celtic"@,
            FractalType::Newton2D => "newton"@,
            FractalType::Lyapunov2D => "lyapunov"@,
            FractalType::Nova2D => "nova"@,
            FractalType::Magnet2D => "magnet"@,
            FractalType::Collatz2D => "collatz"@,
            FractalType::Mandelbulb3D => "mandelbulb"@,
            FractalType::MengerSponge3D => "menger_sponge"@,
            FractalType::SierpinskiPyramid3D => "sierpinski_pyramid"@,
            FractalType::JuliaSet3D => "julia_3d"@,
            FractalType::Mandelbox3D => "mandelbox"@,
            FractalType::OctahedralIFS3D => "octahedral_ifs"@,
            FractalType::IcosahedralIFS3D => "icosahedral_ifs"@,
            FractalType::ApollonianGasket3D => "apollonian"@,
            FractalType::Kleinian3D => "kleinian"@,
            FractalType::HybridMandelbulbJulia3D => "hybrid_bulb_julia"@,
            FractalType::QuaternionCubic3D => "quaternion_cubic"@,
            FractalType::SierpinskiGasket3D => "sierpinski_gasket"@,
            FractalType::Buddhabrot2D => "buddhabrot"@,
            FractalType::Hopalong2D => "hopalong"@,
            FractalType::Martin2D => "martin"@,
            FractalType::Gingerbreadman2D => "gingerbreadman"@,
            FractalType::Chip2D => "chip"@,
            FractalType::Quadruptwo2D => "quadruptwo"@,
            FractalType::Threeply2D => "threeply"@,
            FractalType::Pickover3D => "pickover"@,
            FractalType::Lorenz3D => "lorenz"@,
            FractalType::Rossler3D => "rossler"@,
        }
    }

    /// The shader identifier written into `uniforms.fractal_type`.
    pub fn gpu_id(&self) -> (id: u32)
        ensures
            id == self.spec_gpu_id(),
    {
        match self {
            FractalType::Mandelbrot2D => 0,
            FractalType::Julia2D => 1,
            FractalType::Sierpinski2D => 2,
            FractalType::SierpinskiTriangle2D => 3,
            FractalType::BurningShip2D => 4,
            FractalType::Tricorn2D => 5,
            FractalType::Phoenix2D => 6,
            FractalType::Celtic2D => 7,
            FractalType::Newton2D => 8,
            FractalType::Lyapunov2D => 9,
            FractalType::Nova2D => 10,
            FractalType::Magnet2D => 11,
            FractalType::Collatz2D => 12,
            FractalType::Mandelbulb3D => 13,
            FractalType::MengerSponge3D => 14,
            FractalType::SierpinskiPyramid3D => 15,
            FractalType::JuliaSet3D => 16,
            FractalType::Mandelbox3D => 17,
            FractalType::OctahedralIFS3D => 18,
            FractalType::IcosahedralIFS3D => 19,
            FractalType::ApollonianGasket3D => 20,
            FractalType::Kleinian3D => 21,
            FractalType::HybridMandelbulbJulia3D => 22,
            FractalType::QuaternionCubic3D => 23,
            FractalType::SierpinskiGasket3D => 24,
            FractalType::Buddhabrot2D => 25,
            FractalType::Hopalong2D => 26,
            FractalType::Martin2D => 27,
            FractalType::Gingerbreadman2D => 28,
            FractalType::Chip2D => 29,
            FractalType::Quadruptwo2D => 30,
            FractalType::Threeply2D => 31,
            FractalType::Pickover3D => 35,
            FractalType::Lorenz3D => 36,
            FractalType::Rossler3D => 37,
        }
    }

    /// Returns true if this is a 2D strange attractor type.
    pub fn is_2d_attractor(&self) -> (b: bool)
        ensures
            b == self.spec_is_2d_attractor(),
    {
        match self {
            FractalType::Hopalong2D
            | FractalType::Martin2D
            | FractalType::Gingerbreadman2D
            | FractalType::Chip2D
            | FractalType::Quadruptwo2D
            | FractalType::Threeply2D => true,
            _ => false,
        }
    }

    /// Returns true if this is the Buddhabrot fractal type.
    pub fn is_buddhabrot(&self) -> (b: bool)
        ensures
            b == (*self == FractalType::Buddhabrot2D),
    {
        match self {
            FractalType::Buddhabrot2D => true,
            _ => false,
        }
    }

    /// Returns true if this is a 3D fractal type (ray-marched or 3D attractor).
    pub fn is_3d(&self) -> (b: bool)
        ensures
            b == self.spec_is_3d(),
    {
        match self {
            FractalType::Mandelbulb3D
            | FractalType::MengerSponge3D
            | FractalType::SierpinskiPyramid3D
            | FractalType::JuliaSet3D
            | FractalType::Mandelbox3D
            | FractalType::OctahedralIFS3D
            | FractalType::IcosahedralIFS3D
            | FractalType::ApollonianGasket3D
            | FractalType::Kleinian3D
            | FractalType::HybridMandelbulbJulia3D
            | FractalType::QuaternionCubic3D
            | FractalType::SierpinskiGasket3D
            | FractalType::Pickover3D
            | FractalType::Lorenz3D
            | FractalType::Rossler3D => true,
            _ => false,
        }
    }

    /// Returns true if this fractal type uses accumulation rendering.
    pub fn uses_accumulation(&self) -> (b: bool)
        ensures
            b == (self.spec_is_2d_attractor() || *self == FractalType::Buddhabrot2D),
    {
        self.is_2d_attractor() || self.is_buddhabrot()
    }

    /// Index of a 2D attractor for the accumulation compute shader; 0 for
    /// every other type.
    pub fn attractor_index(&self) -> (i: u32)
        ensures
            i == (if self.spec_is_2d_attractor() { (self.spec_gpu_id() - 26) as u32 } else { 0 }),
    {
        match self {
            FractalType::Hopalong2D => 0,
            FractalType::Martin2D => 1,
            FractalType::Gingerbreadman2D => 2,
            FractalType::Chip2D => 3,
            FractalType::Quadruptwo2D => 4,
            FractalType::Threeply2D => 5,
            _ => 0,
        }
    }

    /// A filename-safe name for this fractal type.
    pub fn filename_safe_name(&self) -> (name: &'static str)
        ensures
            name@ == self.spec_filename_safe_name(),
    {
        match self {
            FractalType::Mandelbrot2D => "mandelbrot",
            FractalType::Julia2D => "julia",
            FractalType::Sierpinski2D => "sierpinski",
            FractalType::SierpinskiTriangle2D => "sierpinski_triangle",
            FractalType::BurningShip2D => "burning_ship",
            FractalType::Tricorn2D => "tricorn",
            FractalType::Phoenix2D => "phoenix",
            FractalType::Celtic2D => "celtic",
            FractalType::Newton2D => "newton",
            FractalType::Lyapunov2D => "lyapunov",
            FractalType::Nova2D => "nova",
            FractalType::Magnet2D => "magnet",
            FractalType::Collatz2D => "collatz",
            FractalType::Mandelbulb3D => "mandelbulb",
            FractalType::MengerSponge3D => "menger_sponge",
            FractalType::SierpinskiPyramid3D => "sierpinski_pyramid",
            FractalType::JuliaSet3D => "julia_3d",
            FractalType::Mandelbox3D => "mandelbox",
            FractalType::OctahedralIFS3D => "octahedral_ifs",
            FractalType::IcosahedralIFS3D => "icosahedral_ifs",
            FractalType::ApollonianGasket3D => "apollonian",
            FractalType::Kleinian3D => "kleinian",
            FractalType::HybridMandelbulbJulia3D => "hybrid_bulb_julia",
            FractalType::QuaternionCubic3D => "quaternion_cubic",
            FractalType::SierpinskiGasket3D => "sierpinski_gasket",
            FractalType::Buddhabrot2D => "buddhabrot",
            FractalType::Hopalong2D => "hopalong",
            FractalType::Martin2D => "martin",
            FractalType::Gingerbreadman2D => "gingerbreadman",
            FractalType::Chip2D => "chip",
            FractalType::Quadruptwo2D => "quadruptwo",
            FractalType::Threeply2D => "threeply",
            FractalType::Pickover3D => "pickover",
            FractalType::Lorenz3D => "lorenz",
            FractalType::Rossler3D => "rossler",
        }
    }
}


impl FractalType {
    /// The rendering pipeline a type runs on: the 3D types ray-march, every
    /// other type renders through the 2D escape-time / accumulation path.
    pub fn render_mode(&self) -> (mode: RenderMode)
        ensures
            mode == (if self.spec_is_3d() { RenderMode::ThreeD } else { RenderMode::TwoD }),
    {
        if self.is_3d() {
            RenderMode::ThreeD
        } else {
            RenderMode::TwoD
        }
    }

    /// Distance, in tenths of a world unit, from which the default camera
    /// frames a 3D type (0 for the 2D types). The sprawling IFS and
    /// Apollonian types are framed from further out so the camera does not
    /// sit inside their geometry.
    pub fn default_camera_distance_tenths(&self) -> (d: u32)
        ensures
            !self.spec_is_3d() ==> d == 0,
            self.spec_is_3d() ==> d == (if *self == FractalType::OctahedralIFS3D
                || *self == FractalType::IcosahedralIFS3D {
                90u32
            } else if *self == FractalType::ApollonianGasket3D {
                80u32
            } else {
                50u32
            }),
    {
        match self {
            FractalType::OctahedralIFS3D | FractalType::IcosahedralIFS3D => 90,
            FractalType::ApollonianGasket3D => 80,
            _ => if self.is_3d() {
                50
            } else {
                0
            },
        }
    }
}

/// Distinct fractal types have distinct shader identifiers, so the wire
/// format never renders one type as another.
pub proof fn lemma_gpu_id_injective(a: FractalType, b: FractalType)
    ensures
        a.spec_gpu_id() == b.spec_gpu_id() ==> a == b,
{
}

/// The shader identifiers are laid out in blocks: 2D escape-time types take
/// 0..=12, the ray-marched 3D types 13..=24, the Buddhabrot 25, the 2D
/// attractors 26..=31 and the 3D attractors 35..=37; 32..=34 stay unused.
pub proof fn lemma_gpu_id_blocks(t: FractalType)
    ensures
        t.spec_is_3d() <==> (13 <= t.spec_gpu_id() <= 24 || 35 <= t.spec_gpu_id() <= 37),
        t.spec_is_2d_attractor() <==> (26 <= t.spec_gpu_id() <= 31),
        (t == FractalType::Buddhabrot2D) <==> t.spec_gpu_id() == 25,
        !(32 <= t.spec_gpu_id() <= 34),
        t.spec_gpu_id() <= 37,
{
}

/// The accumulation renderer serves the 2D attractors and the Buddhabrot,
/// none of which is 3D, and the attractor indices fit the six attractor
/// slots of the accumulation shader.
pub proof fn lemma_pipelines_partition(t: FractalType)
    ensures
        (t.spec_is_2d_attractor() || t == FractalType::Buddhabrot2D) ==> !t.spec_is_3d(),
        t.spec_is_2d_attractor() ==> (t.spec_gpu_id() - 26) < 6,
{
}

/// GPU wire format: 0 = TwoD, 1 = ThreeD (`uniforms.render_mode`).
#[derive(Debug, Clone, Copy, PartialEq, Eq, Structural)]
pub enum RenderMode {
    TwoD,
    ThreeD,
}

impl RenderMode {
    /// The value written to `uniforms.render_mode`.
    pub fn gpu_id(&self) -> (id: u32)
        ensures
            id == (if *self == RenderMode::TwoD { 0u32 } else { 1u32 }),
    {
        match self {
            RenderMode::TwoD => 0,
            RenderMode::ThreeD => 1,
        }
    }
}

/// GPU wire format: 0 = BlinnPhong, 1 = PBR (`uniforms.shading_model`).
#[derive(Debug, Clone, Copy, PartialEq, Eq, Structural)]
pub enum ShadingModel {
    BlinnPhong,
    PBR,
}

impl ShadingModel {
    /// The value written to `uniforms.shading_model`.
    pub fn gpu_id(&self) -> (id: u32)
        ensures
            id == (if *self == ShadingModel::BlinnPhong { 0u32 } else { 1u32 }),
    {
        match self {
            ShadingModel::BlinnPhong => 0,
            ShadingModel::PBR => 1,
        }
    }
}

/// Coloring modes; the identifier is the value read from
/// `uniforms.color_mode` (sequential 0..=15).
#[derive(Debug, Clone, Copy, PartialEq, Eq, Structural)]
pub enum ColorMode {
    Palette,
    RaySteps,
    Normals,
    OrbitTrapXYZ,
    OrbitTrapRadial,
    WorldPosition,
    LocalPosition,
    AmbientOcclusion,
    PerChannel,
    DistanceField,
    Depth,
    Convergence,
    LightingOnly,
    ShadowMap,
    CameraDistanceLOD,
    DistanceGrayscale,
}

impl ColorMode {
    pub open spec fn spec_gpu_id(self) -> u32 {
        match self {
            ColorMode::Palette => 0,
            ColorMode::RaySteps => 1,
            ColorMode::Normals => 2,
            ColorMode::OrbitTrapXYZ => 3,
            ColorMode::OrbitTrapRadial => 4,
            ColorMode::WorldPosition => 5,
            ColorMode::LocalPosition => 6,
            ColorMode::AmbientOcclusion => 7,
            ColorMode::PerChannel => 8,
            ColorMode::DistanceField => 9,
            ColorMode::Depth => 10,
            ColorMode::Convergence => 11,
            ColorMode::LightingOnly => 12,
            ColorMode::ShadowMap => 13,
            ColorMode::CameraDistanceLOD => 14,
            ColorMode::DistanceGrayscale => 15,
        }
    }

    /// The value written to `uniforms.color_mode`.
    pub fn gpu_id(&self) -> (id: u32)
        ensures
            id == self.spec_gpu_id(),
    {
        match self {
            ColorMode::Palette => 0,
            ColorMode::RaySteps => 1,
            ColorMode::Normals => 2,
            ColorMode::OrbitTrapXYZ => 3,
            ColorMode::OrbitTrapRadial => 4,
            ColorMode::WorldPosition => 5,
            ColorMode::LocalPosition => 6,
            ColorMode::AmbientOcclusion => 7,
            ColorMode::PerChannel => 8,
            ColorMode::DistanceField => 9,
            ColorMode::Depth => 10,
            ColorMode::Convergence => 11,
            ColorMode::LightingOnly => 12,
            ColorMode::ShadowMap => 13,
            ColorMode::CameraDistanceLOD => 14,
            ColorMode::DistanceGrayscale => 15,
        }
    }

    /// The color mode for a numeric code of the reference tools: codes
    /// 0..=6 name the first seven modes, anything else falls back to
    /// `Palette`.
    pub fn from_tool_code(v: u32) -> (m: ColorMode)
        ensures
            v <= 6 ==> m.spec_gpu_id() == v,
            v > 6 ==> m == ColorMode::Palette,
    {
        match v {
            0 => ColorMode::Palette,
            1 => ColorMode::RaySteps,
            2 => ColorMode::Normals,
            3 => ColorMode::OrbitTrapXYZ,
            4 => ColorMode::OrbitTrapRadial,
            5 => ColorMode::WorldPosition,
            6 => ColorMode::LocalPosition,
            _ => ColorMode::Palette,
        }
    }
}

/// Per-channel color sources; the identifier is the value written to
/// `uniforms.channel_r/g/b` (sequential 0..=7).
#[derive(Debug, Clone, Copy, PartialEq, Eq, Structural)]
pub enum ChannelSource {
    Iterations,
    Distance,
    PositionX,
    PositionY,
    PositionZ,
    Normal,
    AO,
    Constant,
}

impl ChannelSource {
    pub open spec fn spec_gpu_id(self) -> u32 {
        match self {
            ChannelSource::Iterations => 0,
            ChannelSource::Distance => 1,
            ChannelSource::PositionX => 2,
            ChannelSource::PositionY => 3,
            ChannelSource::PositionZ => 4,
            ChannelSource::Normal => 5,
            ChannelSource::AO => 6,
            ChannelSource::Constant => 7,
        }
    }

    /// The value written to `uniforms.channel_r/g/b`.
    pub fn gpu_id(&self) -> (id: u32)
        ensures
            id == self.spec_gpu_id(),
    {
        match self {
            ChannelSource::Iterations => 0,
            ChannelSource::Distance => 1,
            ChannelSource::PositionX => 2,
            ChannelSource::PositionY => 3,
            ChannelSource::PositionZ => 4,
            ChannelSource::Normal => 5,
            ChannelSource::AO => 6,
            ChannelSource::Constant => 7,
        }
    }
}

/// Fog falloff: 0 = Linear, 1 = Exponential, 2 = Quadratic
/// (`uniforms.fog_mode`).
#[derive(Debug, Clone, Copy, PartialEq, Eq, Structural)]
pub enum FogMode {
    Linear,
    Exponential,
    Quadratic,
}

impl FogMode {
    /// The value written to `uniforms.fog_mode`.
    pub fn gpu_id(&self) -> (id: u32)
        ensures
            id == (match *self {
                FogMode::Linear => 0u32,
                FogMode::Exponential => 1u32,
                FogMode::Quadratic => 2u32,
            }),
    {
        match self {
            FogMode::Linear => 0,
            FogMode::Exponential => 1,
            FogMode::Quadratic => 2,
        }
    }
}

/// Procedural (cosine-formula) palettes; the identifier is written to
/// `uniforms.procedural_palette_type` (sequential 0..=12).
#[derive(Debug, Clone, Copy, PartialEq, Eq, Structural)]
pub enum ProceduralPalette {
    Static,
    Firestrm,
    Rainbow,
    Electric,
    Sunset,
    Forest,
    Ocean,
    Grayscale,
    Hot,
    Cool,
    Plasma,
    Viridis,
    Custom,
}

impl ProceduralPalette {
    pub open spec fn spec_shader_index(self) -> u32 {
        match self {
            ProceduralPalette::Static => 0,
            ProceduralPalette::Firestrm => 1,
            ProceduralPalette::Rainbow => 2,
            ProceduralPalette::Electric => 3,
            ProceduralPalette::Sunset => 4,
            ProceduralPalette::Forest => 5,
            ProceduralPalette::Ocean => 6,
            ProceduralPalette::Grayscale => 7,
            ProceduralPalette::Hot => 8,
            ProceduralPalette::Cool => 9,
            ProceduralPalette::Plasma => 10,
            ProceduralPalette::Viridis => 11,
            ProceduralPalette::Custom => 12,
        }
    }

    pub open spec fn spec_name(self) -> Seq<char> {
        match self {
            ProceduralPalette::Static => "None (Static)"@,
            ProceduralPalette::Firestrm => "Fire Storm"@,
            ProceduralPalette::Rainbow => "Rainbow"@,
            ProceduralPalette::Electric => "Electric"@,
            ProceduralPalette::Sunset => "Sunset"@,
            ProceduralPalette::Forest => "Forest"@,
            ProceduralPalette::Ocean => "Ocean"@,
            ProceduralPalette::Grayscale => "Grayscale"@,
            ProceduralPalette::Hot => "Hot"@,
            ProceduralPalette::Cool => "Cool"@,
            ProceduralPalette::Plasma => "Plasma"@,
            ProceduralPalette::Viridis => "Viridis"@,
            ProceduralPalette::Custom => "Custom"@,
        }
    }

    /// The default procedural palette: none (use the static palette).
    pub fn default_palette() -> (p: ProceduralPalette)
        ensures
            p == ProceduralPalette::Static,
    {
        ProceduralPalette::Static
    }

    /// All procedural palette variants except `Static`, in identifier order.
    pub fn all() -> (v: Vec<ProceduralPalette>)
        ensures
            v@.len() == 12,
            forall|i: int| 0 <= i < 12 ==> (#[trigger] v@[i]).spec_shader_index() == i + 1,
    {
        vec![
            ProceduralPalette::Firestrm,
            ProceduralPalette::Rainbow,
            ProceduralPalette::Electric,
            ProceduralPalette::Sunset,
            ProceduralPalette::Forest,
            ProceduralPalette::Ocean,
            ProceduralPalette::Grayscale,
            ProceduralPalette::Hot,
            ProceduralPalette::Cool,
            ProceduralPalette::Plasma,
            ProceduralPalette::Viridis,
            ProceduralPalette::Custom,
        ]
    }

    /// The display name of this palette.
    pub fn name(&self) -> (n: &'static str)
        ensures
            n@ == self.spec_name(),
    {
        match self {
            ProceduralPalette::Static => "None (Static)",
            ProceduralPalette::Firestrm => "Fire Storm",
            ProceduralPalette::Rainbow => "Rainbow",
            ProceduralPalette::Electric => "Electric",
            ProceduralPalette::Sunset => "Sunset",
            ProceduralPalette::Forest => "Forest",
            ProceduralPalette::Ocean => "Ocean",
            ProceduralPalette::Grayscale => "Grayscale",
            ProceduralPalette::Hot => "Hot",
            ProceduralPalette::Cool => "Cool",
            ProceduralPalette::Plasma => "Plasma",
            ProceduralPalette::Viridis => "Viridis",
            ProceduralPalette::Custom => "Custom",
        }
    }

    /// The shader index of this procedural palette type.
    pub fn shader_index(&self) -> (i: u32)
        ensures
            i == self.spec_shader_index(),
    {
        match self {
            ProceduralPalette::Static => 0,
            ProceduralPalette::Firestrm => 1,
            ProceduralPalette::Rainbow => 2,
            ProceduralPalette::Electric => 3,
            ProceduralPalette::Sunset => 4,
            ProceduralPalette::Forest => 5,
            ProceduralPalette::Ocean => 6,
            ProceduralPalette::Grayscale => 7,
            ProceduralPalette::Hot => 8,
            ProceduralPalette::Cool => 9,
            ProceduralPalette::Plasma => 10,
            ProceduralPalette::Viridis => 11,
            ProceduralPalette::Custom => 12,
        }
    }

    /// The value written to `uniforms.procedural_palette_type`; it agrees
    /// with [`Self::shader_index`].
    pub fn gpu_id(&self) -> (id: u32)
        ensures
            id == self.spec_shader_index(),
    {
        self.shader_index()
    }
}

/// Distinct procedural palettes have distinct shader indices.
pub proof fn lemma_shader_index_injective(a: ProceduralPalette, b: ProceduralPalette)
    ensures
        a.spec_shader_index() == b.spec_shader_index() ==> a == b,
{
}

/// Distinct color modes have distinct identifiers, all below 16.
pub proof fn lemma_color_mode_ids(a: ColorMode, b: ColorMode)
    ensures
        a.spec_gpu_id() == b.spec_gpu_id() ==> a == b,
        a.spec_gpu_id() < 16,
{
}


/// Each fractal type's shader identifier is the wire value the renderers
/// switch on: 0..=12 for the 2D escape-time types in declaration order,
/// 13..=24 for the ray-marched types, 25 for the Buddhabrot, 26..=31 for
/// the 2D attractors and 35..=37 for the 3D attractors.
pub proof fn lemma_fractal_type_ids()
    ensures
        FractalType::Mandelbrot2D.spec_gpu_id() == 0u32,
        FractalType::Julia2D.spec_gpu_id() == 1u32,
        FractalType::Sierpinski2D.spec_gpu_id() == 2u32,
        FractalType::SierpinskiTriangle2D.spec_gpu_id() == 3u32,
        FractalType::BurningShip2D.spec_gpu_id() == 4u32,
        FractalType::Tricorn2D.spec_gpu_id() == 5u32,
        FractalType::Phoenix2D.spec_gpu_id() == 6u32,
        FractalType::Celtic2D.spec_gpu_id() == 7u32,
        FractalType::Newton2D.spec_gpu_id() == 8u32,
        FractalType::Lyapunov2D.spec_gpu_id() == 9u32,
        FractalType::Nova2D.spec_gpu_id() == 10u32,
        FractalType::Magnet2D.spec_gpu_id() == 11u32,
        FractalType::Collatz2D.spec_gpu_id() == 12u32,
        FractalType::Mandelbulb3D.spec_gpu_id() == 13u32,
        FractalType::MengerSponge3D.spec_gpu_id() == 14u32,
        FractalType::SierpinskiPyramid3D.spec_gpu_id() == 15u32,
        FractalType::JuliaSet3D.spec_gpu_id() == 16u32,
        FractalType::Mandelbox3D.spec_gpu_id() == 17u32,
        FractalType::OctahedralIFS3D.spec_gpu_id() == 18u32,
        FractalType::IcosahedralIFS3D.spec_gpu_id() == 19u32,
        FractalType::ApollonianGasket3D.spec_gpu_id() == 20u32,
        FractalType::Kleinian3D.spec_gpu_id() == 21u32,
        FractalType::HybridMandelbulbJulia3D.spec_gpu_id() == 22u32,
        FractalType::QuaternionCubic3D.spec_gpu_id() == 23u32,
        FractalType::SierpinskiGasket3D.spec_gpu_id() == 24u32,
        FractalType::Buddhabrot2D.spec_gpu_id() == 25u32,
        FractalType::Hopalong2D.spec_gpu_id() == 26u32,
        FractalType::Martin2D.spec_gpu_id() == 27u32,
        FractalType::Gingerbreadman2D.spec_gpu_id() == 28u32,
        FractalType::Chip2D.spec_gpu_id() == 29u32,
        FractalType::Quadruptwo2D.spec_gpu_id() == 30u32,
        FractalType::Threeply2D.spec_gpu_id() == 31u32,
        FractalType::Pickover3D.spec_gpu_id() == 35u32,
        FractalType::Lorenz3D.spec_gpu_id() == 36u32,
        FractalType::Rossler3D.spec_gpu_id() == 37u32,
{
}

/// Each color mode's identifier is the value the shaders switch on.
pub proof fn lemma_color_mode_table()
    ensures
        ColorMode::Palette.spec_gpu_id() == 0u32,
        ColorMode::RaySteps.spec_gpu_id() == 1u32,
        ColorMode::Normals.spec_gpu_id() == 2u32,
        ColorMode::OrbitTrapXYZ.spec_gpu_id() == 3u32,
        ColorMode::OrbitTrapRadial.spec_gpu_id() == 4u32,
        ColorMode::WorldPosition.spec_gpu_id() == 5u32,
        ColorMode::LocalPosition.spec_gpu_id() == 6u32,
        ColorMode::AmbientOcclusion.spec_gpu_id() == 7u32,
        ColorMode::PerChannel.spec_gpu_id() == 8u32,
        ColorMode::DistanceField.spec_gpu_id() == 9u32,
        ColorMode::Depth.spec_gpu_id() == 10u32,
        ColorMode::Convergence.spec_gpu_id() == 11u32,
        ColorMode::LightingOnly.spec_gpu_id() == 12u32,
        ColorMode::ShadowMap.spec_gpu_id() == 13u32,
        ColorMode::CameraDistanceLOD.spec_gpu_id() == 14u32,
        ColorMode::DistanceGrayscale.spec_gpu_id() == 15u32,
{
}

/// Each per-channel source's identifier is the value the shaders switch on.
pub proof fn lemma_channel_source_table()
    ensures
        ChannelSource::Iterations.spec_gpu_id() == 0u32,
        ChannelSource::Distance.spec_gpu_id() == 1u32,
        ChannelSource::PositionX.spec_gpu_id() == 2u32,
        ChannelSource::PositionY.spec_gpu_id() == 3u32,
        ChannelSource::PositionZ.spec_gpu_id() == 4u32,
        ChannelSource::Normal.spec_gpu_id() == 5u32,
        ChannelSource::AO.spec_gpu_id() == 6u32,
        ChannelSource::Constant.spec_gpu_id() == 7u32,
{
}

/// Each procedural palette's shader index: 0 for the static palette, then
/// the procedural palettes in order.
pub proof fn lemma_procedural_palette_table()
    ensures
        ProceduralPalette::Static.spec_shader_index() == 0u32,
        ProceduralPalette::Firestrm.spec_shader_index() == 1u32,
        ProceduralPalette::Rainbow.spec_shader_index() == 2u32,
        ProceduralPalette::Electric.spec_shader_index() == 3u32,
        ProceduralPalette::Sunset.spec_shader_index() == 4u32,
        ProceduralPalette::Forest.spec_shader_index() == 5u32,
        ProceduralPalette::Ocean.spec_shader_index() == 6u32,
        ProceduralPalette::Grayscale.spec_shader_index() == 7u32,
        ProceduralPalette::Hot.spec_shader_index() == 8u32,
        ProceduralPalette::Cool.spec_shader_index() == 9u32,
        ProceduralPalette::Plasma.spec_shader_index() == 10u32,
        ProceduralPalette::Viridis.spec_shader_index() == 11u32,
        ProceduralPalette::Custom.spec_shader_index() == 12u32,
{
}


/// The file-name-safe name of each fractal type, as capture file names
/// carry it.
pub proof fn lemma_filename_safe_names()
    ensures
        FractalType::Mandelbrot2D.spec_filename_safe_name() == "mandelbrot"@,
        FractalType::Julia2D.spec_filename_safe_name() == "julia"@,
        FractalType::Sierpinski2D.spec_filename_safe_name() == "sierpinski"@,
        FractalType::SierpinskiTriangle2D.spec_filename_safe_name() == "sierpinski_triangle"@,
        FractalType::BurningShip2D.spec_filename_safe_name() == "burning_ship"@,
        FractalType::Tricorn2D.spec_filename_safe_name() == "tricorn"@,
        FractalType::Phoenix2D.spec_filename_safe_name() == "phoenix"@,
        FractalType::Celtic2D.spec_filename_safe_name() == "celtic"@,
        FractalType::Newton2D.spec_filename_safe_name() == "newton"@,
        FractalType::Lyapunov2D.spec_filename_safe_name() == "lyapunov"@,
        FractalType::Nova2D.spec_filename_safe_name() == "nova"@,
        FractalType::Magnet2D.spec_filename_safe_name() == "magnet"@,
        FractalType::Collatz2D.spec_filename_safe_name() == "collatz"@,
        FractalType::Mandelbulb3D.spec_filename_safe_name() == "mandelbulb"@,
        FractalType::MengerSponge3D.spec_filename_safe_name() == "menger_sponge"@,
        FractalType::SierpinskiPyramid3D.spec_filename_safe_name() == "sierpinski_pyramid"@,
        FractalType::JuliaSet3D.spec_filename_safe_name() == "julia_3d"@,
        FractalType::Mandelbox3D.spec_filename_safe_name() == "mandelbox"@,
        FractalType::OctahedralIFS3D.spec_filename_safe_name() == "octahedral_ifs"@,
        FractalType::IcosahedralIFS3D.spec_filename_safe_name() == "icosahedral_ifs"@,
        FractalType::ApollonianGasket3D.spec_filename_safe_name() == "apollonian"@,
        FractalType::Kleinian3D.spec_filename_safe_name() == "kleinian"@,
        FractalType::HybridMandelbulbJulia3D.spec_filename_safe_name() == "hybrid_bulb_julia"@,
        FractalType::QuaternionCubic3D.spec_filename_safe_name() == "quaternion_cubic"@,
        FractalType::SierpinskiGasket3D.spec_filename_safe_name() == "sierpinski_gasket"@,
        FractalType::Buddhabrot2D.spec_filename_safe_name() == "buddhabrot"@,
        FractalType::Hopalong2D.spec_filename_safe_name() == "hopalong"@,
        FractalType::Martin2D.spec_filename_safe_name() == "martin"@,
        FractalType::Gingerbreadman2D.spec_filename_safe_name() == "gingerbreadman"@,
        FractalType::Chip2D.spec_filename_safe_name() == "chip"@,
        FractalType::Quadruptwo2D.spec_filename_safe_name() == "quadruptwo"@,
        FractalType::Threeply2D.spec_filename_safe_name() == "threeply"@,
        FractalType::Pickover3D.spec_filename_safe_name() == "pickover"@,
        FractalType::Lorenz3D.spec_filename_safe_name() == "lorenz"@,
        FractalType::Rossler3D.spec_filename_safe_name() == "rossler"@,
{
}

/// The display name of each procedural palette.
pub proof fn lemma_procedural_palette_names()
    ensures
        ProceduralPalette::Static.spec_name() == "None (Static)"@,
        ProceduralPalette::Firestrm.spec_name() == "Fire Storm"@,
        ProceduralPalette::Rainbow.spec_name() == "Rainbow"@,
        ProceduralPalette::Electric.spec_name() == "Electric"@,
        ProceduralPalette::Sunset.spec_name() == "Sunset"@,
        ProceduralPalette::Forest.spec_name() == "Forest"@,
        ProceduralPalette::Ocean.spec_name() == "Ocean"@,
        ProceduralPalette::Grayscale.spec_name() == "Grayscale"@,
        ProceduralPalette::Hot.spec_name() == "Hot"@,
        ProceduralPalette::Cool.spec_name() == "Cool"@,
        ProceduralPalette::Plasma.spec_name() == "Plasma"@,
        ProceduralPalette::Viridis.spec_name() == "Viridis"@,
        ProceduralPalette::Custom.spec_name() == "Custom"@,
{
}

} // verus!
