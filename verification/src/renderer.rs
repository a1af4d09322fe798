use vstd::prelude::*;
use vstd::string::StringSliceAdditionalSpecFns;
use crate::cstr::{is_opt_c_compatible, spec_opt_c_string, to_opt_c_string};
use crate::cint::c_bool;
use crate::library::DefaultFontProvider;

verus! {

/// The text shaper libass uses.
#[derive(Debug, Clone, Copy, PartialEq, Eq, Structural)]
pub enum ShapingLevel {
    Simple,
    Complex,
}

impl ShapingLevel {
    /// The value of the C enum `ASS_ShapingLevel` for this level.
    pub open spec fn spec_code(self) -> u32 {
        match self {
            ShapingLevel::Simple => 0,
            ShapingLevel::Complex => 1,
        }
    }

    /// The C enum value passed to libass for this level.
    pub fn code(self) -> (c: u32)
        ensures
            c == self.spec_code(),
            self == ShapingLevel::Simple ==> c == 0,
            self == ShapingLevel::Complex ==> c == 1,
    {
        match self {
            ShapingLevel::Simple => 0,
            ShapingLevel::Complex => 1,
        }
    }
}

/// The font hinting libass applies.
#[derive(Debug, Clone, Copy, PartialEq, Eq, Structural)]
pub enum Hinting {
    NoHinting,
    Light,
    Normal,
    Native,
}

impl Hinting {
    /// The value of the C enum `ASS_Hinting` for this hinting.
    pub open spec fn spec_code(self) -> u32 {
        match self {
            Hinting::NoHinting => 0,
            Hinting::Light => 1,
            Hinting::Normal => 2,
            Hinting::Native => 3,
        }
    }

    /// The C enum value passed to libass for this hinting.
    pub fn code(self) -> (c: u32)
        ensures
            c == self.spec_code(),
            self == Hinting::NoHinting ==> c == 0,
            self == Hinting::Light ==> c == 1,
            self == Hinting::Normal ==> c == 2,
            self == Hinting::Native ==> c == 3,
    {
        match self {
            Hinting::NoHinting => 0,
            Hinting::Light => 1,
            Hinting::Normal => 2,
            Hinting::Native => 3,
        }
    }
}

/// How a rendered frame differs from the one rendered before it.
#[derive(Debug, Clone, PartialEq, Eq, Structural)]
pub enum Change {
    NoChange,
    Position,
    Content,
}

/// The change that libass reports by the code it writes: 0 for none,
/// 1 for moved images, 2 for new content.
pub open spec fn change_from_code(code: i32) -> Option<Change> {
    if code == 0 {
        Some(Change::NoChange)
    } else if code == 1 {
        Some(Change::Position)
    } else if code == 2 {
        Some(Change::Content)
    } else {
        None
    }
}

/// Whether libass can have written `code` as a change.
pub open spec fn is_change_code(code: i32) -> bool {
    0 <= code <= 2
}

impl Change {
    /// Reads the change code that libass writes when it renders a frame;
    /// `None` for a code that names no change.
    pub fn from_code(code: i32) -> (r: Option<Change>)
        ensures
            r == change_from_code(code),
    {
        if code == 0 {
            Some(Change::NoChange)
        } else if code == 1 {
            Some(Change::Position)
        } else if code == 2 {
            Some(Change::Content)
        } else {
            None
        }
    }
}

/// What rendering a frame gives back: the address of the first image of the
/// frame, absent where libass returned a null list, and the change since the
/// previous frame.
pub open spec fn spec_frame_outcome(image: usize, change: i32) -> (Option<usize>, Change) {
    (if image == 0 { None } else { Some(image) }, change_from_code(change).unwrap())
}

/// Reads what libass returned from rendering a frame: the image list address
/// (zero when nothing is to be drawn) and the change code it wrote.
pub fn frame_outcome(image: usize, change: i32) -> (r: (Option<usize>, Change))
    requires
        is_change_code(change),
    ensures
        r == spec_frame_outcome(image, change),
        r.0 == (if image == 0 { None::<usize> } else { Some(image) }),
        change == 0 ==> r.1 == Change::NoChange,
        change == 1 ==> r.1 == Change::Position,
        change == 2 ==> r.1 == Change::Content,
{
    let c = match Change::from_code(change) {
        Some(c) => c,
        None => Change::NoChange,
    };
    if image == 0 {
        (None, c)
    } else {
        (Some(image), c)
    }
}

/// The arguments of libass's font set-up call, in C form.
pub struct FontSettings {
    /// The default font file, as a C string, or none.
    pub default_font: Option<Vec<u8>>,
    /// The default font family, as a C string, or none.
    pub default_family: Option<Vec<u8>>,
    /// The C value of the default font provider.
    pub provider: i32,
    /// The fontconfig configuration file, as a C string, or none.
    pub fontconfig_config: Option<Vec<u8>>,
    /// Whether to update the fontconfig cache, as a C `int`.
    pub update_fontconfig_cache: i32,
}

/// The optional bytes of an optional C string argument.
pub open spec fn opt_bytes(v: Option<Vec<u8>>) -> Option<Seq<u8>> {
    match v {
        Some(b) => Some(b@),
        None => None,
    }
}

/// Prepares the arguments of libass's font set-up from the Rust ones.
pub fn font_settings(
    default_font: Option<&str>,
    default_family: Option<&str>,
    default_font_provider: DefaultFontProvider,
    fontconfig_config_path: Option<&str>,
    update_fontconfig_cache: bool,
) -> (r: FontSettings)
    requires
        is_opt_c_compatible(default_font),
        is_opt_c_compatible(default_family),
        is_opt_c_compatible(fontconfig_config_path),
    ensures
        opt_bytes(r.default_font) == spec_opt_c_string(default_font),
        opt_bytes(r.default_family) == spec_opt_c_string(default_family),
        r.provider == default_font_provider.spec_code(),
        opt_bytes(r.fontconfig_config) == spec_opt_c_string(fontconfig_config_path),
        r.update_fontconfig_cache == (if update_fontconfig_cache { 1i32 } else { 0i32 }),
        r.default_font is Some <==> default_font is Some,
        default_font is Some ==> r.default_font.unwrap()@ == default_font.unwrap().spec_bytes().push(0u8),
        r.default_family is Some <==> default_family is Some,
        default_family is Some ==> r.default_family.unwrap()@ == default_family.unwrap().spec_bytes().push(0u8),
        r.fontconfig_config is Some <==> fontconfig_config_path is Some,
        fontconfig_config_path is Some ==> r.fontconfig_config.unwrap()@
            == fontconfig_config_path.unwrap().spec_bytes().push(0u8),
{
    let font = to_opt_c_string(default_font);
    let family = to_opt_c_string(default_family);
    let config = to_opt_c_string(fontconfig_config_path);
    FontSettings {
        default_font: font,
        default_family: family,
        provider: default_font_provider.code(),
        fontconfig_config: config,
        update_fontconfig_cache: c_bool(update_fontconfig_cache),
    }
}

/// Reads the status that libass returns from a font update: zero is success,
/// any other value is returned as the error.
pub fn fonts_update_result(ret: i32) -> (r: Result<(), i32>)
    ensures
        r is Ok <==> ret == 0,
        ret != 0 ==> r == Err::<(), i32>(ret),
{
    if ret == 0 {
        Ok(())
    } else {
        Err(ret)
    }
}

/// Distinct shaping levels have distinct C values, each below 2.
pub proof fn lemma_shaping_code_injective(a: ShapingLevel, b: ShapingLevel)
    ensures
        a.spec_code() == b.spec_code() ==> a == b,
        a.spec_code() < 2,
{
}

/// Distinct hintings have distinct C values, each below 4.
pub proof fn lemma_hinting_code_injective(a: Hinting, b: Hinting)
    ensures
        a.spec_code() == b.spec_code() ==> a == b,
        a.spec_code() < 4,
{
}

/// The change codes that libass writes, 0 to 2, are exactly those that name
/// a change, and distinct codes name distinct changes.
pub proof fn lemma_change_codes_exact(c: i32, d: i32)
    ensures
        change_from_code(c) is Some <==> is_change_code(c),
        is_change_code(c) && is_change_code(d) && change_from_code(c) == change_from_code(d)
            ==> c == d,
{
}

/// Whether a frame has images depends on the image list alone: it is absent
/// exactly when libass returned a null list and is that list otherwise,
/// whatever the change code; the change is read from the code alone.
pub proof fn lemma_frame_outcome(image: usize, change: i32, other_change: i32)
    requires
        is_change_code(change),
        is_change_code(other_change),
    ensures
        spec_frame_outcome(image, change).0 == (if image == 0 { None::<usize> } else { Some(image) }),
        spec_frame_outcome(image, change).0 is None <==> image == 0,
        spec_frame_outcome(image, change).0 == spec_frame_outcome(image, other_change).0,
        change == 0 ==> spec_frame_outcome(image, change).1 == Change::NoChange,
        change == 1 ==> spec_frame_outcome(image, change).1 == Change::Position,
        change == 2 ==> spec_frame_outcome(image, change).1 == Change::Content,
{
}

} // verus!
