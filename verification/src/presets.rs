//! Preset categories, application preferences, and the naming rules of the
//! preset, bookmark and palette galleries (which files of a gallery
//! directory are entries, and under which names).

use vstd::prelude::*;
use crate::text::{chars_of, file_ext, file_stem, last_dot_before, owned, seq_eq, sort_names, sort_strings, sorted_names, split_file_name, views};
use crate::types::FractalType;

verus! {

/// Preset categories for organization.
#[derive(Debug, Clone, Copy, PartialEq, Eq, Structural)]
pub enum PresetCategory {
    All,
    TwoDFractals,
    ThreeDFractals,
    IFS,
    Apollonian,
}

impl PresetCategory {
    pub open spec fn spec_as_str(self) -> Seq<char> {
        match self {
            PresetCategory::All => "All"@,
            PresetCategory::TwoDFractals => "2D Fractals"@,
            PresetCategory::ThreeDFractals => "3D Fractals"@,
            PresetCategory::IFS => "IFS"@,
            PresetCategory::Apollonian => "Apollonian"@,
        }
    }

    /// The default category: all presets.
    pub fn default_category() -> (c: PresetCategory)
        ensures
            c == PresetCategory::All,
    {
        PresetCategory::All
    }

    /// The display (and serialized) name of the category.
    pub fn as_str(&self) -> (s: &'static str)
        ensures
            s@ == self.spec_as_str(),
    {
        match self {
            PresetCategory::All => "All",
            PresetCategory::TwoDFractals => "2D Fractals",
            PresetCategory::ThreeDFractals => "3D Fractals",
            PresetCategory::IFS => "IFS",
            PresetCategory::Apollonian => "Apollonian",
        }
    }

    /// Every category, in display order.
    pub fn all_categories() -> (v: Vec<PresetCategory>)
        ensures
            v@ == seq![
                PresetCategory::All,
                PresetCategory::TwoDFractals,
                PresetCategory::ThreeDFractals,
                PresetCategory::IFS,
                PresetCategory::Apollonian,
            ],
    {
        let v = vec![
            PresetCategory::All,
            PresetCategory::TwoDFractals,
            PresetCategory::ThreeDFractals,
            PresetCategory::IFS,
            PresetCategory::Apollonian,
        ];
        assert(v@ =~= seq![
            PresetCategory::All,
            PresetCategory::TwoDFractals,
            PresetCategory::ThreeDFractals,
            PresetCategory::IFS,
            PresetCategory::Apollonian,
        ]);
        v
    }
}

/// Every category appears once in the category list.
pub proof fn lemma_categories_complete(c: PresetCategory)
    ensures
        seq![
            PresetCategory::All,
            PresetCategory::TwoDFractals,
            PresetCategory::ThreeDFractals,
            PresetCategory::IFS,
            PresetCategory::Apollonian,
        ].contains(c),
{
    let s = seq![
        PresetCategory::All,
        PresetCategory::TwoDFractals,
        PresetCategory::ThreeDFractals,
        PresetCategory::IFS,
        PresetCategory::Apollonian,
    ];
    match c {
        PresetCategory::All => assert(s[0] == c),
        PresetCategory::TwoDFractals => assert(s[1] == c),
        PresetCategory::ThreeDFractals => assert(s[2] == c),
        PresetCategory::IFS => assert(s[3] == c),
        PresetCategory::Apollonian => assert(s[4] == c),
    }
}

/// Application preferences.
#[derive(Debug)]
pub struct AppPreferences {
    pub preferred_gpu_index: Option<usize>,
    pub preferred_gpu_name: Option<String>,
    pub window_width: Option<u32>,
    pub window_height: Option<u32>,
}

/// Window size used when the preferences hold none.
pub const DEFAULT_WINDOW_WIDTH: u32 = 960;
pub const DEFAULT_WINDOW_HEIGHT: u32 = 540;

impl Default for AppPreferences {
    fn default() -> (p: Self)
        ensures
            p.preferred_gpu_index is None,
            p.preferred_gpu_name is None,
            p.window_width is None,
            p.window_height is None,
    {
        AppPreferences {
            preferred_gpu_index: None,
            preferred_gpu_name: None,
            window_width: None,
            window_height: None,
        }
    }
}

impl AppPreferences {
    /// The preferred window size, each side defaulting to 960×540.
    pub fn window_size_or_default(&self) -> (r: (u32, u32))
        ensures
            r.0 == (match self.window_width { Some(w) => w, None => DEFAULT_WINDOW_WIDTH }),
            r.1 == (match self.window_height { Some(h) => h, None => DEFAULT_WINDOW_HEIGHT }),
    {
        let w = match self.window_width {
            Some(w) => w,
            None => DEFAULT_WINDOW_WIDTH,
        };
        let h = match self.window_height {
            Some(h) => h,
            None => DEFAULT_WINDOW_HEIGHT,
        };
        (w, h)
    }

    /// Records a new window size.
    pub fn set_window_size(&mut self, width: u32, height: u32)
        ensures
            final(self).window_width == Some(width),
            final(self).window_height == Some(height),
            final(self).preferred_gpu_index == old(self).preferred_gpu_index,
            final(self).preferred_gpu_name == old(self).preferred_gpu_name,
    {
        self.window_width = Some(width);
        self.window_height = Some(height);
    }
}

/// A size just set is the size read back.
pub proof fn lemma_window_size_roundtrip(width: u32, height: u32, w: Option<u32>, h: Option<u32>)
    requires
        w == Some(width),
        h == Some(height),
    ensures
        (match w { Some(x) => x, None => DEFAULT_WINDOW_WIDTH }) == width,
        (match h { Some(x) => x, None => DEFAULT_WINDOW_HEIGHT }) == height,
{
}

/// The stems of the file names whose extension is `yaml`, in order.
pub open spec fn yaml_stems(names: Seq<Seq<char>>) -> Seq<Seq<char>>
    decreases names.len(),
{
    if names.len() == 0 {
        Seq::empty()
    } else {
        let rest = yaml_stems(names.drop_last());
        if file_ext(names.last()) == Some("yaml"@) {
            rest.push(file_stem(names.last()))
        } else {
            rest
        }
    }
}

/// The stems of all file names, in order.
pub open spec fn all_stems(names: Seq<Seq<char>>) -> Seq<Seq<char>>
    decreases names.len(),
{
    if names.len() == 0 {
        Seq::empty()
    } else {
        all_stems(names.drop_last()).push(file_stem(names.last()))
    }
}

/// The gallery entries among the file names of a gallery directory: the
/// stem of every `.yaml` file, in directory order.
pub fn yaml_entries(file_names: &Vec<String>) -> (r: Vec<String>)
    ensures
        views(r@) == yaml_stems(views(file_names@)),
{
    let yaml = chars_of("yaml");
    let mut out: Vec<String> = Vec::new();
    let ghost src = views(file_names@);
    let mut i: usize = 0;
    assert(src.subrange(0, 0) =~= Seq::<Seq<char>>::empty());
    assert(views(out@) =~= Seq::<Seq<char>>::empty());
    while i < file_names.len()
        invariant
            i <= file_names@.len(),
            src == views(file_names@),
            yaml@ == "yaml"@,
            views(out@) == yaml_stems(src.subrange(0, i as int)),
        decreases file_names@.len() - i,
    {
        let ghost pre = src.subrange(0, i as int);
        let ghost post = src.subrange(0, i + 1);
        assert(post.drop_last() =~= pre);
        assert(post.last() == file_names@[i as int]@);
        let (stem, ext) = split_file_name(file_names[i].as_str());
        let is_yaml = match &ext {
            Some(e) => seq_eq(&chars_of(e.as_str()), &yaml),
            None => false,
        };
        if is_yaml {
            let ghost before = out@;
            out.push(stem);
            assert(views(out@) =~= views(before).push(file_stem(post.last())));
        }
        i = i + 1;
    }
    assert(src.subrange(0, file_names@.len() as int) =~= src);
    out
}

/// The entries of a sorted gallery: the `.yaml` stems in ascending order.
pub fn sorted_yaml_entries(file_names: &Vec<String>) -> (r: Vec<String>)
    ensures
        views(r@) == sort_names(yaml_stems(views(file_names@))),
        sorted_names(views(r@)),
{
    sort_strings(yaml_entries(file_names))
}

/// Gallery of saved camera bookmarks.
pub struct BookmarkGallery;

impl BookmarkGallery {
    /// The saved bookmarks among the file names of the bookmarks directory,
    /// sorted by name.
    pub fn list_bookmarks(file_names: &Vec<String>) -> (r: Vec<String>)
        ensures
            views(r@) == sort_names(yaml_stems(views(file_names@))),
            sorted_names(views(r@)),
    {
        sorted_yaml_entries(file_names)
    }
}

/// Gallery of saved custom palettes.
pub struct CustomPaletteGallery;

impl CustomPaletteGallery {
    /// The saved palettes among the file names of the palettes directory,
    /// sorted by name.
    pub fn list_palettes(file_names: &Vec<String>) -> (r: Vec<String>)
        ensures
            views(r@) == sort_names(yaml_stems(views(file_names@))),
            sorted_names(views(r@)),
    {
        sorted_yaml_entries(file_names)
    }
}

/// Gallery of built-in and user presets.
pub struct PresetGallery;

impl PresetGallery {
    /// The user presets among the file names of the presets directory, in
    /// directory order.
    pub fn list_user_presets(file_names: &Vec<String>) -> (r: Vec<String>)
        ensures
            views(r@) == yaml_stems(views(file_names@)),
    {
        yaml_entries(file_names)
    }
}

/// The keys of a storage category: the stem of every file in its
/// directory, sorted.
pub fn storage_keys(file_names: &Vec<String>) -> (r: Vec<String>)
    ensures
        views(r@) == sort_names(all_stems(views(file_names@))),
        sorted_names(views(r@)),
{
    let mut out: Vec<String> = Vec::new();
    let ghost src = views(file_names@);
    let mut i: usize = 0;
    assert(src.subrange(0, 0) =~= Seq::<Seq<char>>::empty());
    assert(views(out@) =~= Seq::<Seq<char>>::empty());
    while i < file_names.len()
        invariant
            i <= file_names@.len(),
            src == views(file_names@),
            views(out@) == all_stems(src.subrange(0, i as int)),
        decreases file_names@.len() - i,
    {
        let ghost pre = src.subrange(0, i as int);
        let ghost post = src.subrange(0, i + 1);
        assert(post.drop_last() =~= pre);
        assert(post.last() == file_names@[i as int]@);
        let (stem, _ext) = split_file_name(file_names[i].as_str());
        let ghost before = out@;
        out.push(stem);
        assert(views(out@) =~= views(before).push(file_stem(post.last())));
        i = i + 1;
    }
    assert(src.subrange(0, file_names@.len() as int) =~= src);
    sort_strings(out)
}


/// A built-in preset: its name, description and category, the fractal type
/// it shows, and the integer and switch settings it sets (`None` keeps the
/// default).
pub struct PresetInfo {
    pub name: String,
    pub description: String,
    pub category: PresetCategory,
    pub fractal_type: FractalType,
    pub palette_index: Option<usize>,
    pub max_iterations: Option<u32>,
    pub max_steps: Option<u32>,
    pub shadow_mode: Option<u32>,
    pub ambient_occlusion: Option<bool>,
    pub show_floor: Option<bool>,
}

/// A built-in preset with its texts as characters.
pub struct PresetInfoView {
    pub name: Seq<char>,
    pub description: Seq<char>,
    pub category: PresetCategory,
    pub fractal_type: FractalType,
    pub palette_index: Option<usize>,
    pub max_iterations: Option<u32>,
    pub max_steps: Option<u32>,
    pub shadow_mode: Option<u32>,
    pub ambient_occlusion: Option<bool>,
    pub show_floor: Option<bool>,
}

impl View for PresetInfo {
    type V = PresetInfoView;

    open spec fn view(&self) -> PresetInfoView {
        PresetInfoView {
            name: self.name@,
            description: self.description@,
            category: self.category,
            fractal_type: self.fractal_type,
            palette_index: self.palette_index,
            max_iterations: self.max_iterations,
            max_steps: self.max_steps,
            shadow_mode: self.shadow_mode,
            ambient_occlusion: self.ambient_occlusion,
            show_floor: self.show_floor,
        }
    }
}

pub open spec fn preset_view(
    name: Seq<char>,
    description: Seq<char>,
    category: PresetCategory,
    fractal_type: FractalType,
    palette_index: Option<usize>,
    max_iterations: Option<u32>,
    max_steps: Option<u32>,
    shadow_mode: Option<u32>,
    ambient_occlusion: Option<bool>,
    show_floor: Option<bool>,
) -> PresetInfoView {
    PresetInfoView {
        name,
        description,
        category,
        fractal_type,
        palette_index,
        max_iterations,
        max_steps,
        shadow_mode,
        ambient_occlusion,
        show_floor,
    }
}

fn preset_info(
    name: &str,
    description: &str,
    category: PresetCategory,
    fractal_type: FractalType,
    palette_index: Option<usize>,
    max_iterations: Option<u32>,
    max_steps: Option<u32>,
    shadow_mode: Option<u32>,
    ambient_occlusion: Option<bool>,
    show_floor: Option<bool>,
) -> (p: PresetInfo)
    ensures
        p@ == preset_view(
            name@,
            description@,
            category,
            fractal_type,
            palette_index,
            max_iterations,
            max_steps,
            shadow_mode,
            ambient_occlusion,
            show_floor,
        ),
{
    PresetInfo {
        name: owned(name),
        description: owned(description),
        category,
        fractal_type,
        palette_index,
        max_iterations,
        max_steps,
        shadow_mode,
        ambient_occlusion,
        show_floor,
    }
}

/// The built-in presets, in catalog order.
pub open spec fn spec_builtin_presets() -> Seq<PresetInfoView> {
    seq![
        preset_view(
            "Classic Mandelbulb"@,
            "The iconic 3D Mandelbrot set with power 8"@,
            PresetCategory::ThreeDFractals,
            FractalType::Mandelbulb3D,
            None,
            None,
            Some(200u32),
            Some(2u32),
            Some(true),
            Some(true),
        ),
        preset_view(
            "Detailed Mandelbulb"@,
            "High-detail close-up with power 9"@,
            PresetCategory::ThreeDFractals,
            FractalType::Mandelbulb3D,
            Some(2usize),
            None,
            Some(200u32),
            Some(2u32),
            Some(true),
            None,
        ),
        preset_view(
            "Mandelbox Cubic"@,
            "Geometric Mandelbox with crisp edges"@,
            PresetCategory::ThreeDFractals,
            FractalType::Mandelbox3D,
            Some(1usize),
            None,
            Some(200u32),
            Some(2u32),
            Some(true),
            Some(true),
        ),
        preset_view(
            "Julia Crystal"@,
            "Beautiful 3D Julia set"@,
            PresetCategory::ThreeDFractals,
            FractalType::JuliaSet3D,
            Some(3usize),
            None,
            Some(200u32),
            None,
            Some(true),
            None,
        ),
        preset_view(
            "Menger Sponge"@,
            "Classic fractal cube with infinite holes"@,
            PresetCategory::ThreeDFractals,
            FractalType::MengerSponge3D,
            Some(4usize),
            Some(7u32),
            Some(200u32),
            Some(2u32),
            Some(true),
            Some(true),
        ),
        preset_view(
            "Mandelbrot Classic"@,
            "The original Mandelbrot set"@,
            PresetCategory::TwoDFractals,
            FractalType::Mandelbrot2D,
            Some(0usize),
            Some(256u32),
            None,
            None,
            None,
            None,
        ),
        preset_view(
            "Julia Swirl"@,
            "Beautiful Julia set pattern"@,
            PresetCategory::TwoDFractals,
            FractalType::Julia2D,
            Some(2usize),
            Some(256u32),
            None,
            None,
            None,
            None,
        ),
        preset_view(
            "Octahedron Kaleidoscope"@,
            "8-fold symmetric kaleidoscopic fractal"@,
            PresetCategory::IFS,
            FractalType::OctahedralIFS3D,
            Some(14usize),
            None,
            Some(200u32),
            Some(2u32),
            Some(true),
            Some(true),
        ),
        preset_view(
            "Icosahedron Kaleidoscope"@,
            "20-fold symmetric kaleidoscopic fractal with intricate detail"@,
            PresetCategory::IFS,
            FractalType::IcosahedralIFS3D,
            Some(18usize),
            None,
            Some(200u32),
            Some(2u32),
            Some(true),
            Some(true),
        ),
        preset_view(
            "Apollonian Sphere Packing"@,
            "Beautiful sphere-packing fractal"@,
            PresetCategory::Apollonian,
            FractalType::ApollonianGasket3D,
            Some(19usize),
            None,
            Some(200u32),
            Some(2u32),
            Some(true),
            Some(false),
        ),
        preset_view(
            "Octahedron Crystal"@,
            "Tight octahedral structure with high fold"@,
            PresetCategory::IFS,
            FractalType::OctahedralIFS3D,
            Some(16usize),
            None,
            Some(200u32),
            Some(2u32),
            Some(true),
            Some(true),
        ),
        preset_view(
            "Octahedron Lattice"@,
            "Open lattice structure with moderate fold"@,
            PresetCategory::IFS,
            FractalType::OctahedralIFS3D,
            Some(11usize),
            None,
            Some(200u32),
            Some(2u32),
            Some(true),
            Some(false),
        ),
        preset_view(
            "Icosahedron Cathedral"@,
            "Highly detailed 20-fold structure"@,
            PresetCategory::IFS,
            FractalType::IcosahedralIFS3D,
            Some(7usize),
            None,
            Some(200u32),
            Some(2u32),
            Some(true),
            Some(true),
        ),
        preset_view(
            "Icosahedron Geometry"@,
            "Sharp geometric 20-fold fractal"@,
            PresetCategory::IFS,
            FractalType::IcosahedralIFS3D,
            Some(13usize),
            None,
            Some(200u32),
            Some(2u32),
            Some(true),
            Some(true),
        ),
        preset_view(
            "Apollonian Dense Pack"@,
            "Tightly packed spheres with high min_radius"@,
            PresetCategory::Apollonian,
            FractalType::ApollonianGasket3D,
            Some(10usize),
            None,
            Some(200u32),
            Some(2u32),
            Some(true),
            Some(true),
        ),
        preset_view(
            "Apollonian Wispy"@,
            "Delicate sphere arrangement with low min_radius"@,
            PresetCategory::Apollonian,
            FractalType::ApollonianGasket3D,
            Some(20usize),
            None,
            Some(200u32),
            Some(2u32),
            Some(true),
            Some(false),
        ),
        preset_view(
            "Kleinian Limit Set"@,
            "Intricate Kleinian group limit set fractal"@,
            PresetCategory::ThreeDFractals,
            FractalType::Kleinian3D,
            Some(18usize),
            None,
            Some(200u32),
            Some(2u32),
            Some(true),
            Some(true),
        ),
        preset_view(
            "Hybrid Bulb-Julia"@,
            "Fascinating blend of Mandelbulb and Julia set behaviors"@,
            PresetCategory::ThreeDFractals,
            FractalType::HybridMandelbulbJulia3D,
            Some(14usize),
            Some(12u32),
            Some(200u32),
            Some(2u32),
            Some(true),
            Some(true),
        ),
        preset_view(
            "Quaternion Cubic"@,
            "4D quaternion cubic Julia set (z³ + c)"@,
            PresetCategory::ThreeDFractals,
            FractalType::QuaternionCubic3D,
            Some(8usize),
            Some(16u32),
            Some(200u32),
            Some(2u32),
            Some(true),
            Some(true),
        ),
        preset_view(
            "Sierpinski Gasket"@,
            "Tetrahedral IFS fractal with sphere folding"@,
            PresetCategory::IFS,
            FractalType::SierpinskiGasket3D,
            Some(15usize),
            Some(8u32),
            Some(200u32),
            Some(2u32),
            Some(true),
            Some(true),
        ),
    ]
}

/// The views of a list of presets.
pub open spec fn preset_views(v: Seq<PresetInfo>) -> Seq<PresetInfoView> {
    v.map_values(|p: PresetInfo| p@)
}

/// The built-in presets.
#[verifier::rlimit(50)]
pub fn builtin_presets() -> (v: Vec<PresetInfo>)
    ensures
        preset_views(v@) == spec_builtin_presets(),
{
    let mut v: Vec<PresetInfo> = Vec::new();
    v.push(preset_info(
        "Classic Mandelbulb",
        "The iconic 3D Mandelbrot set with power 8",
        PresetCategory::ThreeDFractals,
        FractalType::Mandelbulb3D,
        None,
        None,
        Some(200u32),
        Some(2u32),
        Some(true),
        Some(true),
    ));
    v.push(preset_info(
        "Detailed Mandelbulb",
        "High-detail close-up with power 9",
        PresetCategory::ThreeDFractals,
        FractalType::Mandelbulb3D,
        Some(2usize),
        None,
        Some(200u32),
        Some(2u32),
        Some(true),
        None,
    ));
    v.push(preset_info(
        "Mandelbox Cubic",
        "Geometric Mandelbox with crisp edges",
        PresetCategory::ThreeDFractals,
        FractalType::Mandelbox3D,
        Some(1usize),
        None,
        Some(200u32),
        Some(2u32),
        Some(true),
        Some(true),
    ));
    v.push(preset_info(
        "Julia Crystal",
        "Beautiful 3D Julia set",
        PresetCategory::ThreeDFractals,
        FractalType::JuliaSet3D,
        Some(3usize),
        None,
        Some(200u32),
        None,
        Some(true),
        None,
    ));
    v.push(preset_info(
        "Menger Sponge",
        "Classic fractal cube with infinite holes",
        PresetCategory::ThreeDFractals,
        FractalType::MengerSponge3D,
        Some(4usize),
        Some(7u32),
        Some(200u32),
        Some(2u32),
        Some(true),
        Some(true),
    ));
    v.push(preset_info(
        "Mandelbrot Classic",
        "The original Mandelbrot set",
        PresetCategory::TwoDFractals,
        FractalType::Mandelbrot2D,
        Some(0usize),
        Some(256u32),
        None,
        None,
        None,
        None,
    ));
    v.push(preset_info(
        "Julia Swirl",
        "Beautiful Julia set pattern",
        PresetCategory::TwoDFractals,
        FractalType::Julia2D,
        Some(2usize),
        Some(256u32),
        None,
        None,
        None,
        None,
    ));
    v.push(preset_info(
        "Octahedron Kaleidoscope",
        "8-fold symmetric kaleidoscopic fractal",
        PresetCategory::IFS,
        FractalType::OctahedralIFS3D,
        Some(14usize),
        None,
        Some(200u32),
        Some(2u32),
        Some(true),
        Some(true),
    ));
    v.push(preset_info(
        "Icosahedron Kaleidoscope",
        "20-fold symmetric kaleidoscopic fractal with intricate detail",
        PresetCategory::IFS,
        FractalType::IcosahedralIFS3D,
        Some(18usize),
        None,
        Some(200u32),
        Some(2u32),
        Some(true),
        Some(true),
    ));
    v.push(preset_info(
        "Apollonian Sphere Packing",
        "Beautiful sphere-packing fractal",
        PresetCategory::Apollonian,
        FractalType::ApollonianGasket3D,
        Some(19usize),
        None,
        Some(200u32),
        Some(2u32),
        Some(true),
        Some(false),
    ));
    v.push(preset_info(
        "Octahedron Crystal",
        "Tight octahedral structure with high fold",
        PresetCategory::IFS,
        FractalType::OctahedralIFS3D,
        Some(16usize),
        None,
        Some(200u32),
        Some(2u32),
        Some(true),
        Some(true),
    ));
    v.push(preset_info(
        "Octahedron Lattice",
        "Open lattice structure with moderate fold",
        PresetCategory::IFS,
        FractalType::OctahedralIFS3D,
        Some(11usize),
        None,
        Some(200u32),
        Some(2u32),
        Some(true),
        Some(false),
    ));
    v.push(preset_info(
        "Icosahedron Cathedral",
        "Highly detailed 20-fold structure",
        PresetCategory::IFS,
        FractalType::IcosahedralIFS3D,
        Some(7usize),
        None,
        Some(200u32),
        Some(2u32),
        Some(true),
        Some(true),
    ));
    v.push(preset_info(
        "Icosahedron Geometry",
        "Sharp geometric 20-fold fractal",
        PresetCategory::IFS,
        FractalType::IcosahedralIFS3D,
        Some(13usize),
        None,
        Some(200u32),
        Some(2u32),
        Some(true),
        Some(true),
    ));
    v.push(preset_info(
        "Apollonian Dense Pack",
        "Tightly packed spheres with high min_radius",
        PresetCategory::Apollonian,
        FractalType::ApollonianGasket3D,
        Some(10usize),
        None,
        Some(200u32),
        Some(2u32),
        Some(true),
        Some(true),
    ));
    v.push(preset_info(
        "Apollonian Wispy",
        "Delicate sphere arrangement with low min_radius",
        PresetCategory::Apollonian,
        FractalType::ApollonianGasket3D,
        Some(20usize),
        None,
        Some(200u32),
        Some(2u32),
        Some(true),
        Some(false),
    ));
    v.push(preset_info(
        "Kleinian Limit Set",
        "Intricate Kleinian group limit set fractal",
        PresetCategory::ThreeDFractals,
        FractalType::Kleinian3D,
        Some(18usize),
        None,
        Some(200u32),
        Some(2u32),
        Some(true),
        Some(true),
    ));
    v.push(preset_info(
        "Hybrid Bulb-Julia",
        "Fascinating blend of Mandelbulb and Julia set behaviors",
        PresetCategory::ThreeDFractals,
        FractalType::HybridMandelbulbJulia3D,
        Some(14usize),
        Some(12u32),
        Some(200u32),
        Some(2u32),
        Some(true),
        Some(true),
    ));
    v.push(preset_info(
        "Quaternion Cubic",
        "4D quaternion cubic Julia set (z³ + c)",
        PresetCategory::ThreeDFractals,
        FractalType::QuaternionCubic3D,
        Some(8usize),
        Some(16u32),
        Some(200u32),
        Some(2u32),
        Some(true),
        Some(true),
    ));
    v.push(preset_info(
        "Sierpinski Gasket",
        "Tetrahedral IFS fractal with sphere folding",
        PresetCategory::IFS,
        FractalType::SierpinskiGasket3D,
        Some(15usize),
        Some(8u32),
        Some(200u32),
        Some(2u32),
        Some(true),
        Some(true),
    ));
    assert(preset_views(v@) =~= spec_builtin_presets());
    v
}

/// Index of the first built-in preset named `name` at or after `i`, or -1.
pub open spec fn first_preset_named(ps: Seq<PresetInfoView>, name: Seq<char>, i: int) -> int
    decreases ps.len() - i,
{
    if i < 0 || i >= ps.len() {
        -1
    } else if ps[i].name == name {
        i
    } else {
        first_preset_named(ps, name, i + 1)
    }
}

/// The built-in preset named `name` (the first, should two share it), or
/// `None` when there is none.
pub fn builtin_preset(name: &str) -> (r: Option<PresetInfo>)
    ensures
        first_preset_named(spec_builtin_presets(), name@, 0) == -1 ==> r is None,
        first_preset_named(spec_builtin_presets(), name@, 0) >= 0 ==> (r matches Some(p) && p@
            == spec_builtin_presets()[first_preset_named(spec_builtin_presets(), name@, 0)]),
{
    let mut all = builtin_presets();
    let wanted = chars_of(name);
    let ghost ps = spec_builtin_presets();
    let mut i: usize = 0;
    while i < all.len()
        invariant
            preset_views(all@) == ps,
            ps == spec_builtin_presets(),
            wanted@ == name@,
            i <= all@.len(),
            first_preset_named(ps, name@, 0) == first_preset_named(ps, name@, i as int),
        decreases all@.len() - i,
    {
        assert(ps[i as int] == all@[i as int]@);
        if seq_eq(&chars_of(all[i].name.as_str()), &wanted) {
            let p = all.swap_remove(i);
            return Some(p);
        }
        i = i + 1;
    }
    None
}

/// The category names: All, 2D Fractals, 3D Fractals, IFS and Apollonian.
pub proof fn lemma_category_names()
    ensures
        PresetCategory::All.spec_as_str() == seq!['A', 'l', 'l'],
        PresetCategory::TwoDFractals.spec_as_str() == seq!['2', 'D', ' ', 'F', 'r', 'a', 'c', 't', 'a', 'l', 's'],
        PresetCategory::ThreeDFractals.spec_as_str() == seq!['3', 'D', ' ', 'F', 'r', 'a', 'c', 't', 'a', 'l', 's'],
        PresetCategory::IFS.spec_as_str() == seq!['I', 'F', 'S'],
        PresetCategory::Apollonian.spec_as_str() == seq!['A', 'p', 'o', 'l', 'l', 'o', 'n', 'i', 'a', 'n'],
{
    reveal_strlit("All");
    assert(PresetCategory::All.spec_as_str() =~= seq!['A', 'l', 'l']);
    reveal_strlit("2D Fractals");
    assert(PresetCategory::TwoDFractals.spec_as_str() =~= seq!['2', 'D', ' ', 'F', 'r', 'a', 'c', 't', 'a', 'l', 's']);
    reveal_strlit("3D Fractals");
    assert(PresetCategory::ThreeDFractals.spec_as_str() =~= seq!['3', 'D', ' ', 'F', 'r', 'a', 'c', 't', 'a', 'l', 's']);
    reveal_strlit("IFS");
    assert(PresetCategory::IFS.spec_as_str() =~= seq!['I', 'F', 'S']);
    reveal_strlit("Apollonian");
    assert(PresetCategory::Apollonian.spec_as_str() =~= seq!['A', 'p', 'o', 'l', 'l', 'o', 'n', 'i', 'a', 'n']);
}

/// A key saved as `<key>.yaml` is listed back as the key: it is a gallery
/// entry, a storage key, and extends the listing of the names before it
/// by exactly that key. A file name without a `.` is no gallery entry.
pub proof fn lemma_saved_key_listed(names: Seq<Seq<char>>, key: Seq<char>, other: Seq<char>)
    requires
        key.len() > 0,
        forall|i: int| 0 <= i < other.len() ==> other[i] != '.',
    ensures
        file_stem(key + seq!['.', 'y', 'a', 'm', 'l']) == key,
        file_ext(key + seq!['.', 'y', 'a', 'm', 'l']) == Some(seq!['y', 'a', 'm', 'l']),
        yaml_stems(names.push(key + seq!['.', 'y', 'a', 'm', 'l'])) == yaml_stems(names).push(key),
        all_stems(names.push(key + seq!['.', 'y', 'a', 'm', 'l'])) == all_stems(names).push(key),
        yaml_stems(names.push(other)) == yaml_stems(names),
{
    reveal_strlit("yaml");
    let n = key + seq!['.', 'y', 'a', 'm', 'l'];
    let k = key.len() as int;
    assert(n[k] == '.' && n[k + 1] == 'y' && n[k + 2] == 'a' && n[k + 3] == 'm' && n[k + 4] == 'l');
    assert(last_dot_before(n, k + 1) == k);
    assert(last_dot_before(n, k + 2) == k);
    assert(last_dot_before(n, k + 3) == k);
    assert(last_dot_before(n, k + 4) == k);
    assert(last_dot_before(n, k + 5) == k);
    assert(n.subrange(0, k) =~= key);
    assert(n.subrange(k + 1, n.len() as int) =~= "yaml"@);
    assert(names.push(n).drop_last() =~= names);
    assert(names.push(other).drop_last() =~= names);
    lemma_no_dot(other, other.len() as int);
}

proof fn lemma_no_dot(n: Seq<char>, i: int)
    requires
        0 <= i <= n.len(),
        forall|j: int| 0 <= j < n.len() ==> n[j] != '.',
    ensures
        last_dot_before(n, i) == -1,
    decreases i,
{
    if i > 0 {
        lemma_no_dot(n, i - 1);
    }
}

} // verus!
