//! Resolving the caller's parameters into the configuration that goes to the
//! engine.
//!
//! Two parameters arrive as names: the renderer of a standalone document and,
//! for callers that still send one, the Vega-Lite version. An unknown
//! renderer is refused; an unknown version quietly becomes the default. The
//! numeric parameters are carried as they come: their ranges are the engine's
//! to judge.

use vstd::prelude::*;

use crate::grammar::{Format, Grammar};

verus! {

/// The rendering back-end inside a standalone document.
#[derive(Clone, Copy, Debug, PartialEq, Eq, Structural)]
pub enum Renderer {
    Svg,
    Canvas,
    Hybrid,
}

/// A Vega-Lite release that the engine carries.
#[derive(Clone, Copy, Debug, PartialEq, Eq, Structural)]
pub enum VlVersion {
    V5_8,
    V5_14,
    V5_15,
    V5_16,
    V5_17,
    V5_20,
}

/// A single-precision number, held by its IEEE 754 bit pattern. The library
/// carries such a number from the caller to the engine and never looks
/// inside.
#[derive(Clone, Copy, Debug, PartialEq, Eq, Structural)]
pub struct Scalar {
    pub bits: u32,
}

/// The options of one conversion. A field is present exactly where the
/// operation has that parameter: see [`Config::fits`].
#[derive(Clone, Copy, Debug, PartialEq, Eq)]
pub struct Config {
    /// The Vega-Lite release to compile with.
    pub vl_version: Option<VlVersion>,
    /// The renderer of a standalone document.
    pub renderer: Option<Renderer>,
    /// Whether a standalone document embeds its dependencies.
    pub bundle: Option<bool>,
    /// The scale factor of a raster image.
    pub scale: Option<Scalar>,
    /// The pixel density of a lossless raster image.
    pub ppi: Option<Scalar>,
    /// The quality of a lossy raster image, as the caller gave it.
    pub quality: Option<u8>,
}

/// The message that refuses an unknown renderer.
pub open spec fn invalid_renderer_message() -> Seq<char> {
    "Invalid renderer provided"@
}

/// Whether `name` spells a word whose letters are given twice, in lower case
/// and in upper case: at each place `name` has one of the two.
pub open spec fn spelled(name: Seq<char>, lower: Seq<char>, upper: Seq<char>) -> bool {
    &&& name.len() == lower.len()
    &&& forall|i: int|
        0 <= i < name.len() ==> name[i] == lower[i] || name[i] == #[trigger] upper[i]
}

/// The renderer that `name` stands for. The three names are `svg`, `canvas`
/// and `hybrid`; the case of their letters does not matter.
pub open spec fn renderer_named(name: Seq<char>) -> Option<Renderer> {
    if spelled(name, "svg"@, "SVG"@) {
        Some(Renderer::Svg)
    } else if spelled(name, "canvas"@, "CANVAS"@) {
        Some(Renderer::Canvas)
    } else if spelled(name, "hybrid"@, "HYBRID"@) {
        Some(Renderer::Hybrid)
    } else {
        None
    }
}

/// The release that the digits of a minor version stand for.
pub open spec fn minor_named(digits: Seq<char>) -> Option<VlVersion> {
    if digits == "8"@ {
        Some(VlVersion::V5_8)
    } else if digits == "14"@ {
        Some(VlVersion::V5_14)
    } else if digits == "15"@ {
        Some(VlVersion::V5_15)
    } else if digits == "16"@ {
        Some(VlVersion::V5_16)
    } else if digits == "17"@ {
        Some(VlVersion::V5_17)
    } else if digits == "20"@ {
        Some(VlVersion::V5_20)
    } else {
        None
    }
}

/// What is left of a version name once a leading `v` is taken off.
pub open spec fn without_prefix(name: Seq<char>) -> Seq<char> {
    if name.len() > 0 && name[0] == 'v' {
        name.skip(1)
    } else {
        name
    }
}

/// The release that `name` stands for. A name is an optional `v`, the major
/// version `5`, a dot or an underscore, and the minor version: `5.8`, `v5.8`,
/// `5_8` and `v5_8` all name the same release.
pub open spec fn version_named(name: Seq<char>) -> Option<VlVersion> {
    let bare = without_prefix(name);
    if bare.len() >= 2 && bare[0] == '5' && (bare[1] == '.' || bare[1] == '_') {
        minor_named(bare.skip(2))
    } else {
        None
    }
}

impl VlVersion {
    /// The release that applies where the caller names none, or none that is
    /// known: the latest.
    pub open spec fn latest() -> VlVersion {
        VlVersion::V5_20
    }

    /// The release that a caller's version name resolves to: the one it
    /// names, or the default where it names none.
    pub open spec fn resolved(name: Seq<char>) -> VlVersion {
        match version_named(name) {
            Some(version) => version,
            None => VlVersion::latest(),
        }
    }
}

impl Config {
    /// The options of every Vega conversion before the operation adds its
    /// own: nothing is set.
    pub open spec fn vega() -> Config {
        Config {
            vl_version: None,
            renderer: None,
            bundle: None,
            scale: None,
            ppi: None,
            quality: None,
        }
    }

    /// The options of every Vega-Lite conversion before the operation adds
    /// its own: the default release, and nothing else.
    pub open spec fn vega_lite() -> Config {
        Config { vl_version: Some(VlVersion::latest()), ..Config::vega() }
    }

    /// The starting options of a conversion from `grammar`.
    pub open spec fn base(grammar: Grammar) -> Config {
        match grammar {
            Grammar::Vega => Config::vega(),
            Grammar::VegaLite => Config::vega_lite(),
        }
    }

    /// These options with those of a standalone document.
    pub open spec fn html(self, bundle: bool, renderer: Renderer) -> Config {
        Config { bundle: Some(bundle), renderer: Some(renderer), ..self }
    }

    /// These options with those of a lossless raster image.
    pub open spec fn png(self, scale: Scalar, ppi: Scalar) -> Config {
        Config { scale: Some(scale), ppi: Some(ppi), ..self }
    }

    /// These options with those of a lossy raster image.
    pub open spec fn jpeg(self, scale: Scalar, quality: u8) -> Config {
        Config { scale: Some(scale), quality: Some(quality), ..self }
    }

    /// These options compiled with another release. Options of a Vega
    /// conversion have no release and stay as they are.
    pub open spec fn versioned(self, version: VlVersion) -> Config {
        if self.vl_version is Some {
            Config { vl_version: Some(version), ..self }
        } else {
            self
        }
    }

    /// Whether the options are those of a conversion from `grammar` to
    /// `format`: each field is present exactly where that conversion has the
    /// parameter.
    pub open spec fn fits(self, grammar: Grammar, format: Format) -> bool {
        &&& (self.vl_version is Some) == (grammar == Grammar::VegaLite)
        &&& (self.renderer is Some) == (format == Format::Html)
        &&& (self.bundle is Some) == (format == Format::Html)
        &&& (self.scale is Some) == (format == Format::Png || format == Format::Jpeg)
        &&& (self.ppi is Some) == (format == Format::Png)
        &&& (self.quality is Some) == (format == Format::Jpeg)
    }

    /// The options of a standalone document.
    pub fn with_html(self, bundle: bool, renderer: Renderer) -> (config: Config)
        ensures
            config == self.html(bundle, renderer),
    {
        Config { bundle: Some(bundle), renderer: Some(renderer), ..self }
    }

    /// The options of a lossless raster image. Neither number is examined.
    pub fn with_png(self, scale: Scalar, ppi: Scalar) -> (config: Config)
        ensures
            config == self.png(scale, ppi),
    {
        Config { scale: Some(scale), ppi: Some(ppi), ..self }
    }

    /// The options of a lossy raster image. Neither number is examined: a
    /// quality above 100 is carried as it is.
    pub fn with_jpeg(self, scale: Scalar, quality: u8) -> (config: Config)
        ensures
            config == self.jpeg(scale, quality),
    {
        Config { scale: Some(scale), quality: Some(quality), ..self }
    }

    /// The same options compiled with another release.
    pub fn with_version(self, version: VlVersion) -> (config: Config)
        ensures
            config == self.versioned(version),
    {
        match self.vl_version {
            Some(_) => Config { vl_version: Some(version), ..self },
            None => self,
        }
    }
}

/// The starting options of a Vega conversion.
pub fn vg_opts() -> (config: Config)
    ensures
        config == Config::vega(),
{
    Config { vl_version: None, renderer: None, bundle: None, scale: None, ppi: None, quality: None }
}

/// The starting options of a Vega-Lite conversion.
pub fn vl_opts() -> (config: Config)
    ensures
        config == Config::vega_lite(),
{
    Config { vl_version: Some(VlVersion::V5_20), ..vg_opts() }
}

/// Whether `name` spells the word given by `lower` and `upper`.
fn spells(name: &str, lower: &str, upper: &str) -> (b: bool)
    requires
        lower@.len() == upper@.len(),
    ensures
        b == spelled(name@, lower@, upper@),
{
    let n: usize = lower.unicode_len();
    if name.unicode_len() != n {
        return false;
    }
    let mut i: usize = 0;
    while i < n
        invariant
            i <= n,
            n == name@.len(),
            n == lower@.len(),
            n == upper@.len(),
            forall|j: int| 0 <= j < i ==> name@[j] == lower@[j] || name@[j] == #[trigger] upper@[j],
        decreases n - i,
    {
        let c: char = name.get_char(i);
        if c != lower.get_char(i) && c != upper.get_char(i) {
            return false;
        }
        i += 1;
    }
    true
}

/// Recognises a renderer by its name.
pub fn parse_renderer(name: &str) -> (renderer: Option<Renderer>)
    ensures
        renderer == renderer_named(name@),
{
    proof {
        reveal_strlit("svg");
        reveal_strlit("SVG");
        reveal_strlit("canvas");
        reveal_strlit("CANVAS");
        reveal_strlit("hybrid");
        reveal_strlit("HYBRID");
    }
    if spells(name, "svg", "SVG") {
        Some(Renderer::Svg)
    } else if spells(name, "canvas", "CANVAS") {
        Some(Renderer::Canvas)
    } else if spells(name, "hybrid", "HYBRID") {
        Some(Renderer::Hybrid)
    } else {
        None
    }
}

/// Recognises a release by the digits of its minor version.
fn parse_minor(digits: &str) -> (version: Option<VlVersion>)
    ensures
        version == minor_named(digits@),
{
    if same_text(digits, "8") {
        Some(VlVersion::V5_8)
    } else if same_text(digits, "14") {
        Some(VlVersion::V5_14)
    } else if same_text(digits, "15") {
        Some(VlVersion::V5_15)
    } else if same_text(digits, "16") {
        Some(VlVersion::V5_16)
    } else if same_text(digits, "17") {
        Some(VlVersion::V5_17)
    } else if same_text(digits, "20") {
        Some(VlVersion::V5_20)
    } else {
        None
    }
}

/// Whether two texts are the same.
fn same_text(a: &str, b: &str) -> (same: bool)
    ensures
        same == (a@ == b@),
{
    let same = spells(a, b, b);
    proof {
        if same {
            assert(a@ =~= b@);
        }
    }
    same
}

/// Recognises a release by its name.
pub fn parse_version(name: &str) -> (version: Option<VlVersion>)
    ensures
        version == version_named(name@),
{
    let n: usize = name.unicode_len();
    let start: usize = if n > 0 && name.get_char(0) == 'v' {
        1
    } else {
        0
    };
    let bare = name.substring_char(start, n);
    assert(bare@ == without_prefix(name@)) by {
        assert(name@.subrange(0, n as int) =~= name@);
    }
    if n - start < 2 {
        return None;
    }
    let major: char = bare.get_char(0);
    let separator: char = bare.get_char(1);
    if major == '5' && (separator == '.' || separator == '_') {
        parse_minor(bare.substring_char(2, n - start))
    } else {
        None
    }
}

/// Resolves the version name of a caller that sends one. A name that is not
/// known is no error: the default release takes its place.
pub fn resolve_version(name: &str) -> (version: VlVersion)
    ensures
        version == VlVersion::resolved(name@),
{
    match parse_version(name) {
        Some(version) => version,
        None => VlVersion::V5_20,
    }
}

} // verus!
