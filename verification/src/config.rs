//! The settings of a profile: fonts, sizes and default positions of the five
//! text fields, the aspect ratio of a card, the default colour of the layer and
//! the limits and format of the export.

use crate::geometry::{lemma_floor_div, AspectRatio};
use crate::image_info::ImageType;
use crate::layout::spec_clamp_u32;
use crate::names::{is_taken, spec_taken};
use vstd::prelude::*;
use vstd::string::*;

verus! {

/// The height, in pixels, of the image at which a font ratio is the font's size.
pub const REFERENCE_HEIGHT: u32 = 5000;

/// The settings of one profile. Sizes are whole pixels, ratios of a position
/// are thousandths of the image's height (of its width for the right margin of
/// the tags).
#[derive(Debug, PartialEq, Eq)]
pub struct Config {
    /// File of the font of the primary quote.
    pub quote_font: String,
    /// File of the font of the first secondary quote.
    pub subquote_font: String,
    /// File of the font of the second secondary quote.
    pub subquote2_font: String,
    /// File of the font of the first tag.
    pub tag_font: String,
    /// File of the font of the second tag.
    pub tag2_font: String,
    /// Size of the primary quote's font on an image as high as the reference.
    pub quote_font_ratio: u32,
    /// Size of the first secondary quote's font at the reference height.
    pub subquote_font_ratio: u32,
    /// Size of the second secondary quote's font at the reference height.
    pub subquote2_font_ratio: u32,
    /// Size of the first tag's font at the reference height.
    pub tag_font_ratio: u32,
    /// Size of the second tag's font at the reference height.
    pub tag2_font_ratio: u32,
    /// Default height of the primary quote, in thousandths of the image's height.
    pub quote_position_ratio: u32,
    /// Default height of the first secondary quote, in thousandths.
    pub subquote_position_ratio: u32,
    /// Default height of the second secondary quote, in thousandths.
    pub subquote2_position_ratio: u32,
    /// Default height of the first tag, in thousandths.
    pub tag_position_ratio: u32,
    /// Default height of the second tag, in thousandths.
    pub tag2_position_ratio: u32,
    /// Where the tags end on the right, in thousandths of the image's width.
    pub tag_x_position_ratio: u32,
    /// Aspect ratio of a card, width to height.
    pub image_ratio: AspectRatio,
    /// Default colour of the translucent layer, as red, green, blue, alpha.
    pub color_layer: [u8; 4],
    /// Width below which a cropped image is too small to be used.
    pub minimum_width_limit: u32,
    /// Width above which an exported image is scaled down.
    pub maximum_width_limit: u32,
    /// Format of the exported file.
    pub image_format: ImageType,
    /// Whether a blurred panel is drawn behind the primary quote.
    pub draw_box_around_quote: bool,
    /// Whether the lines of a field are set apart by more than their height.
    pub line_spacing: bool,
}

impl Config {
    /// A profile is usable when both sides of its aspect ratio are positive and
    /// an exported image may be at least one pixel wide.
    pub open spec fn wf(&self) -> bool {
        &&& self.image_ratio.wf()
        &&& self.maximum_width_limit > 0
    }

    /// Whether the profile is usable.
    pub fn is_valid(&self) -> (r: bool)
        ensures
            r == self.wf(),
    {
        self.image_ratio.width > 0 && self.image_ratio.height > 0 && self.maximum_width_limit > 0
    }

    /// The profile that is used where none was stored.
    pub open spec fn spec_default(&self) -> bool {
        &&& self.quote_font@ == Seq::<char>::empty()
        &&& self.subquote_font@ == Seq::<char>::empty()
        &&& self.subquote2_font@ == Seq::<char>::empty()
        &&& self.tag_font@ == Seq::<char>::empty()
        &&& self.tag2_font@ == Seq::<char>::empty()
        &&& self.quote_font_ratio == 250
        &&& self.subquote_font_ratio == 230
        &&& self.subquote2_font_ratio == 230
        &&& self.tag_font_ratio == 150
        &&& self.tag2_font_ratio == 150
        &&& self.quote_position_ratio == 700
        &&& self.subquote_position_ratio == 800
        &&& self.subquote2_position_ratio == 900
        &&& self.tag_position_ratio == 500
        &&& self.tag2_position_ratio == 950
        &&& self.tag_x_position_ratio == 950
        &&& self.image_ratio == (AspectRatio { width: 4, height: 5 })
        &&& self.color_layer@ == seq![20u8, 22u8, 25u8, 197u8]
        &&& self.minimum_width_limit == 650
        &&& self.maximum_width_limit == 1080
        &&& self.image_format == ImageType::Png
        &&& self.draw_box_around_quote == false
        &&& self.line_spacing == true
    }
}

impl Clone for Config {
    fn clone(&self) -> (r: Config)
        ensures
            r == *self,
    {
        Config {
            quote_font: self.quote_font.clone(),
            subquote_font: self.subquote_font.clone(),
            subquote2_font: self.subquote2_font.clone(),
            tag_font: self.tag_font.clone(),
            tag2_font: self.tag2_font.clone(),
            quote_font_ratio: self.quote_font_ratio,
            subquote_font_ratio: self.subquote_font_ratio,
            subquote2_font_ratio: self.subquote2_font_ratio,
            tag_font_ratio: self.tag_font_ratio,
            tag2_font_ratio: self.tag2_font_ratio,
            quote_position_ratio: self.quote_position_ratio,
            subquote_position_ratio: self.subquote_position_ratio,
            subquote2_position_ratio: self.subquote2_position_ratio,
            tag_position_ratio: self.tag_position_ratio,
            tag2_position_ratio: self.tag2_position_ratio,
            tag_x_position_ratio: self.tag_x_position_ratio,
            image_ratio: self.image_ratio,
            color_layer: self.color_layer,
            minimum_width_limit: self.minimum_width_limit,
            maximum_width_limit: self.maximum_width_limit,
            image_format: self.image_format,
            draw_box_around_quote: self.draw_box_around_quote,
            line_spacing: self.line_spacing,
        }
    }
}

impl Default for Config {
    fn default() -> (r: Config)
        ensures
            r.spec_default(),
            r.wf(),
    {
        let color: [u8; 4] = [20, 22, 25, 197];
        assert(color@ =~= seq![20u8, 22u8, 25u8, 197u8]);
        Config {
            quote_font: String::new(),
            subquote_font: String::new(),
            subquote2_font: String::new(),
            tag_font: String::new(),
            tag2_font: String::new(),
            quote_font_ratio: 250,
            subquote_font_ratio: 230,
            subquote2_font_ratio: 230,
            tag_font_ratio: 150,
            tag2_font_ratio: 150,
            quote_position_ratio: 700,
            subquote_position_ratio: 800,
            subquote2_position_ratio: 900,
            tag_position_ratio: 500,
            tag2_position_ratio: 950,
            tag_x_position_ratio: 950,
            image_ratio: AspectRatio { width: 4, height: 5 },
            color_layer: color,
            minimum_width_limit: 650,
            maximum_width_limit: 1080,
            image_format: ImageType::Png,
            draw_box_around_quote: false,
            line_spacing: true,
        }
    }
}

/// The size of a font on an image of `height`, in thousandths of a pixel: the
/// font ratio is the size at the reference height and the size grows with the
/// height.
pub open spec fn spec_font_size(height: int, font_ratio: int) -> int {
    (height * font_ratio * 1000) / (REFERENCE_HEIGHT as int)
}

/// The size of a font on an image of `height`, in thousandths of a pixel.
pub fn font_size(height: u32, font_ratio: u32) -> (r: u64)
    ensures
        r == spec_font_size(height as int, font_ratio as int),
{
    proof {
        assert(0 <= (height as int) * (font_ratio as int) <= 0xffff_ffff * 0xffff_ffff)
            by (nonlinear_arith)
            requires
                0 <= height <= 0xffff_ffff,
                0 <= font_ratio <= 0xffff_ffff,
        ;
        lemma_floor_div((height as int) * (font_ratio as int) * 1000, 5000);
    }
    let product: u128 = (height as u128) * (font_ratio as u128) * 1000;
    let size: u128 = product / (REFERENCE_HEIGHT as u128);
    size as u64
}

/// The default height of a field on an image of `height`: the position ratio,
/// in thousandths, of the height, rounded down and kept inside the range of a
/// length in pixels.
pub open spec fn spec_default_position(height: int, position_ratio: int) -> u32 {
    spec_clamp_u32((height * position_ratio) / 1000)
}

/// The default height of a field on an image of `height`. A ratio of up to a
/// thousand thousandths puts the field on the image.
pub fn default_position(height: u32, position_ratio: u32) -> (r: u32)
    ensures
        r == spec_default_position(height as int, position_ratio as int),
        position_ratio <= 1000 ==> r <= height,
{
    proof {
        assert(0 <= (height as int) * (position_ratio as int) <= 0xffff_ffff * 0xffff_ffff)
            by (nonlinear_arith)
            requires
                0 <= height <= 0xffff_ffff,
                0 <= position_ratio <= 0xffff_ffff,
        ;
        lemma_floor_div((height as int) * (position_ratio as int), 1000);
        if position_ratio <= 1000 {
            assert((height as int) * (position_ratio as int) <= (height as int) * 1000)
                by (nonlinear_arith)
                requires
                    0 <= height,
                    0 <= position_ratio <= 1000,
            ;
        }
    }
    let scaled: u64 = (height as u64 * position_ratio as u64) / 1000;
    if scaled > 0xffff_ffff {
        0xffff_ffff
    } else {
        scaled as u32
    }
}

/// The look of the editor's windows.
#[derive(Clone, Copy, Debug, PartialEq, Eq, PartialOrd, Ord, Structural)]
pub enum Themes {
    Classic,
    /// Windows 7
    Aero,
    /// Windows 8
    Metro,
    /// Classic MacOS
    AquaClassic,
    /// Xfce
    Greybird,
    /// Windows 2000
    Blue,
    /// Dark
    Dark,
    /// High Contrast
    HighContrast,
    /// The look that fits the system the editor runs on
    System,
}

/// The kind of system the editor runs on.
#[derive(Clone, Copy, Debug, PartialEq, Eq, Structural)]
pub enum Platform {
    Windows,
    Unix,
    Other,
}

/// The name under which a theme is given on the command line.
pub open spec fn spec_theme_name(theme: Themes) -> Seq<char> {
    match theme {
        Themes::Classic => "classic"@,
        Themes::Aero => "aero"@,
        Themes::Metro => "metro"@,
        Themes::AquaClassic => "aqua-classic"@,
        Themes::Greybird => "greybird"@,
        Themes::Blue => "blue"@,
        Themes::Dark => "dark"@,
        Themes::HighContrast => "high-contrast"@,
        Themes::System => "system"@,
    }
}

/// The theme that a name stands for, if it stands for one.
pub open spec fn spec_theme_named(name: Seq<char>) -> Option<Themes> {
    if name == "classic"@ {
        Some(Themes::Classic)
    } else if name == "aero"@ {
        Some(Themes::Aero)
    } else if name == "metro"@ {
        Some(Themes::Metro)
    } else if name == "aqua-classic"@ {
        Some(Themes::AquaClassic)
    } else if name == "greybird"@ {
        Some(Themes::Greybird)
    } else if name == "blue"@ {
        Some(Themes::Blue)
    } else if name == "dark"@ {
        Some(Themes::Dark)
    } else if name == "high-contrast"@ {
        Some(Themes::HighContrast)
    } else if name == "system"@ {
        Some(Themes::System)
    } else {
        None
    }
}

/// The theme that is shown for `theme` on a platform: `System` becomes the
/// look of the platform, every other theme is itself.
pub open spec fn spec_resolved(theme: Themes, platform: Platform) -> Themes {
    match theme {
        Themes::System => match platform {
            Platform::Windows => Themes::Metro,
            Platform::Unix => Themes::Greybird,
            Platform::Other => Themes::Classic,
        },
        other => other,
    }
}

impl Themes {
    /// The theme that `name` stands for on the command line.
    pub fn from_name(name: &str) -> (r: Option<Themes>)
        ensures
            r == spec_theme_named(name@),
    {
        if name.eq("classic") {
            Some(Themes::Classic)
        } else if name.eq("aero") {
            Some(Themes::Aero)
        } else if name.eq("metro") {
            Some(Themes::Metro)
        } else if name.eq("aqua-classic") {
            Some(Themes::AquaClassic)
        } else if name.eq("greybird") {
            Some(Themes::Greybird)
        } else if name.eq("blue") {
            Some(Themes::Blue)
        } else if name.eq("dark") {
            Some(Themes::Dark)
        } else if name.eq("high-contrast") {
            Some(Themes::HighContrast)
        } else if name.eq("system") {
            Some(Themes::System)
        } else {
            None
        }
    }

    /// The name of the theme on the command line.
    pub fn name(&self) -> (r: &'static str)
        ensures
            r@ == spec_theme_name(*self),
    {
        match self {
            Themes::Classic => "classic",
            Themes::Aero => "aero",
            Themes::Metro => "metro",
            Themes::AquaClassic => "aqua-classic",
            Themes::Greybird => "greybird",
            Themes::Blue => "blue",
            Themes::Dark => "dark",
            Themes::HighContrast => "high-contrast",
            Themes::System => "system",
        }
    }

    /// The theme that is shown on `platform`; it is never `System`.
    pub fn resolved(self, platform: Platform) -> (r: Themes)
        ensures
            r == spec_resolved(self, platform),
            r != Themes::System,
    {
        match self {
            Themes::System => match platform {
                Platform::Windows => Themes::Metro,
                Platform::Unix => Themes::Greybird,
                Platform::Other => Themes::Classic,
            },
            other => other,
        }
    }
}

/// What the command line asks for.
#[derive(Clone, Copy, Debug, PartialEq, Eq, Structural)]
pub struct Args {
    /// Theme to use for the windows.
    pub theme: Option<Themes>,
}

/// Why a command line gives no `Args`.
#[derive(Clone, Copy, Debug, PartialEq, Eq, Structural)]
pub enum ArgsError {
    /// `-h` or `--help` was given: the usage is to be shown.
    Help,
    /// `-V` or `--version` was given: the version is to be shown.
    Version,
    /// The argument at this index is not known.
    UnknownArgument(usize),
    /// The theme option is the last argument and has no value.
    MissingValue,
    /// The argument at this index is given as a theme and names none.
    InvalidTheme(usize),
    /// The theme is given a second time, by the argument at this index.
    Repeated(usize),
}

/// The name of the theme that an argument carries in itself, if it carries
/// one: what follows `--theme=`, or what follows `-t` or `-t=` where anything
/// follows.
pub open spec fn spec_attached_value(argument: Seq<char>) -> Option<Seq<char>> {
    if argument.len() >= 8 && argument.subrange(0, 8) == "--theme="@ {
        Some(argument.subrange(8, argument.len() as int))
    } else if argument.len() >= 3 && argument.subrange(0, 2) == "-t"@ {
        if argument[2] == '=' {
            Some(argument.subrange(3, argument.len() as int))
        } else {
            Some(argument.subrange(2, argument.len() as int))
        }
    } else {
        None
    }
}

/// What the arguments from index `at` on ask for, where the arguments before
/// have given `theme`. The arguments are read from left to right. `-h` and
/// `--help` ask for the usage, `-V` and `--version` for the version. `-t` and
/// `--theme` take the next argument as the name of the theme; `--theme=`,
/// `-t=` and `-t` may also be followed by the name at once. Anything else is
/// not known, and the theme is given once at most.
pub open spec fn spec_args_from(arguments: Seq<String>, at: int, theme: Option<Themes>) -> Result<
    Args,
    ArgsError,
>
    decreases arguments.len() - at,
{
    if at < 0 || at >= arguments.len() {
        Ok(Args { theme })
    } else {
        let argument = arguments[at]@;
        if argument == "-h"@ || argument == "--help"@ {
            Err(ArgsError::Help)
        } else if argument == "-V"@ || argument == "--version"@ {
            Err(ArgsError::Version)
        } else if argument == "-t"@ || argument == "--theme"@ {
            if theme is Some {
                Err(ArgsError::Repeated(at as usize))
            } else if at + 1 >= arguments.len() {
                Err(ArgsError::MissingValue)
            } else {
                match spec_theme_named(arguments[at + 1]@) {
                    Some(named) => spec_args_from(arguments, at + 2, Some(named)),
                    None => Err(ArgsError::InvalidTheme((at + 1) as usize)),
                }
            }
        } else {
            match spec_attached_value(argument) {
                Some(value) => {
                    if theme is Some {
                        Err(ArgsError::Repeated(at as usize))
                    } else {
                        match spec_theme_named(value) {
                            Some(named) => spec_args_from(arguments, at + 1, Some(named)),
                            None => Err(ArgsError::InvalidTheme(at as usize)),
                        }
                    }
                },
                None => Err(ArgsError::UnknownArgument(at as usize)),
            }
        }
    }
}

/// What a command line asks for.
pub open spec fn spec_args(arguments: Seq<String>) -> Result<Args, ArgsError> {
    spec_args_from(arguments, 0, None)
}

/// The name of the theme that an argument carries in itself.
fn attached_value(argument: &str) -> (r: Option<&str>)
    ensures
        r is Some == spec_attached_value(argument@) is Some,
        r is Some ==> r->0@ == spec_attached_value(argument@)->0,
{
    let length = argument.unicode_len();
    if length >= 8 && argument.substring_char(0, 8).eq("--theme=") {
        Some(argument.substring_char(8, length))
    } else if length >= 3 && argument.substring_char(0, 2).eq("-t") {
        if argument.get_char(2) == '=' {
            Some(argument.substring_char(3, length))
        } else {
            Some(argument.substring_char(2, length))
        }
    } else {
        None
    }
}

/// Reads the command line: `arguments` are the arguments after the program's
/// name. An empty command line asks for no theme.
pub fn args(arguments: &Vec<String>) -> (r: Result<Args, ArgsError>)
    ensures
        r == spec_args(arguments@),
{
    let mut theme: Option<Themes> = None;
    let mut at: usize = 0;
    while at < arguments.len()
        invariant
            0 <= at <= arguments.len(),
            spec_args(arguments@) == spec_args_from(arguments@, at as int, theme),
        decreases arguments.len() - at,
    {
        let argument = arguments[at].as_str();
        if argument.eq("-h") || argument.eq("--help") {
            return Err(ArgsError::Help);
        } else if argument.eq("-V") || argument.eq("--version") {
            return Err(ArgsError::Version);
        } else if argument.eq("-t") || argument.eq("--theme") {
            if theme.is_some() {
                return Err(ArgsError::Repeated(at));
            }
            if at + 1 >= arguments.len() {
                return Err(ArgsError::MissingValue);
            }
            match Themes::from_name(arguments[at + 1].as_str()) {
                Some(named) => {
                    theme = Some(named);
                    at = at + 2;
                },
                None => {
                    return Err(ArgsError::InvalidTheme(at + 1));
                },
            }
        } else {
            match attached_value(argument) {
                Some(value) => {
                    if theme.is_some() {
                        return Err(ArgsError::Repeated(at));
                    }
                    match Themes::from_name(value) {
                        Some(named) => {
                            theme = Some(named);
                            at = at + 1;
                        },
                        None => {
                            return Err(ArgsError::InvalidTheme(at));
                        },
                    }
                },
                None => {
                    return Err(ArgsError::UnknownArgument(at));
                },
            }
        }
    }
    Ok(Args { theme })
}

/// Which profile the editor starts with.
#[derive(Clone, Copy, Debug, PartialEq, Eq, Structural)]
pub enum ProfileChoice {
    /// Nothing is stored: the default profile is stored under the current name
    /// and used.
    Fresh,
    /// The current name is the one profile that is stored: it is used.
    Stored,
    /// Several profiles are stored, or one under another name: the user picks.
    Ask,
}

/// Which profile the editor starts with, given the names of the stored
/// profiles and the current name.
pub open spec fn spec_profile_choice(names: Seq<String>, current: Seq<char>) -> ProfileChoice {
    if names.len() == 0 {
        ProfileChoice::Fresh
    } else if names.len() > 1 || !spec_taken(names, current) {
        ProfileChoice::Ask
    } else {
        ProfileChoice::Stored
    }
}

/// Which profile the editor starts with.
pub fn profile_choice(names: &Vec<String>, current: &str) -> (r: ProfileChoice)
    ensures
        r == spec_profile_choice(names@, current@),
{
    if names.len() == 0 {
        ProfileChoice::Fresh
    } else if names.len() > 1 || !is_taken(names, current) {
        ProfileChoice::Ask
    } else {
        ProfileChoice::Stored
    }
}

} // verus!
