//! Pango-style font descriptions for title bars.
use vstd::prelude::*;
use vstd::string::StringExecFns;

use crate::render::{separated, spec_join, spec_opt_render, spec_renders, to_string_or_empty,
    Render};

verus! {

/// A font, with or without pango markup support.
pub enum Font {
    Pango(FontDescription),
    Normal(FontDescription),
}

impl Render for Font {
    open spec fn spec_render(&self) -> Seq<char> {
        match self {
            Font::Pango(description) => "pango:"@ + description.spec_render(),
            Font::Normal(description) => description.spec_render(),
        }
    }

    fn render(&self) -> (r: String) {
        match self {
            Font::Pango(description) => {
                let mut r = "pango:".to_owned();
                r.append(description.render().as_str());
                r
            },
            Font::Normal(description) => description.render(),
        }
    }
}

/// A pango font description: families, style options, size and variation
/// axes.
///
/// Variation axes are kept as ordered pairs in insertion order.
pub struct FontDescription {
    families: Vec<String>,
    style_options: FontStyleOptions,
    size: Option<FontSize>,
    variations: Vec<(String, String)>,
}

/// One variation axis renders as its name between backticks, an equals
/// sign, then its value.
impl Render for (String, String) {
    open spec fn spec_render(&self) -> Seq<char> {
        "`"@ + self.0@ + "`="@ + self.1@
    }

    fn render(&self) -> (r: String) {
        let mut r = "`".to_owned();
        r.append(self.0.as_str());
        r.append("`=");
        r.append(self.1.as_str());
        r
    }
}

impl FontDescription {
    /// The families, as specifications see them.
    pub closed spec fn spec_families(&self) -> Seq<String> {
        self.families@
    }

    /// The style options, as specifications see them.
    pub closed spec fn spec_style_options(&self) -> FontStyleOptions {
        self.style_options
    }

    /// The size, as specifications see it.
    pub closed spec fn spec_size(&self) -> Option<FontSize> {
        self.size
    }

    /// The variation axes, as specifications see them.
    pub closed spec fn spec_variations(&self) -> Seq<(String, String)> {
        self.variations@
    }

    /// Builds a description from its parts.
    pub fn new(
        families: Vec<String>,
        style_options: FontStyleOptions,
        size: Option<FontSize>,
        variations: Vec<(String, String)>,
    ) -> (r: FontDescription)
        ensures
            r.spec_families() == families@,
            r.spec_style_options() == style_options,
            r.spec_size() == size,
            r.spec_variations() == variations@,
    {
        FontDescription { families, style_options, size, variations }
    }
}

impl Render for FontDescription {
    open spec fn spec_render(&self) -> Seq<char> {
        spec_join(spec_renders(self.spec_families()), ","@) + " "@
            + self.spec_style_options().spec_render() + " "@ + spec_opt_render(self.spec_size())
            + " "@ + spec_join(spec_renders(self.spec_variations()), ","@)
    }

    fn render(&self) -> (r: String) {
        let mut r = separated(&self.families, ",");
        r.append(" ");
        r.append(self.style_options.render().as_str());
        r.append(" ");
        r.append(to_string_or_empty(&self.size).as_str());
        r.append(" ");
        r.append(separated(&self.variations, ",").as_str());
        r
    }
}

/// The optional style parts of a font description, each rendered as its
/// keyword or as the empty string when absent.
#[derive(Clone, Copy)]
pub struct FontStyleOptions {
    style: Option<FontStyle>,
    variant: Option<FontVariant>,
    weight: Option<FontWeight>,
    stretch: Option<FontStretch>,
    gravity: Option<FontGravity>,
}

impl Default for FontStyleOptions {
    /// No style option set.
    fn default() -> (r: FontStyleOptions)
        ensures
            r.spec_style() is None,
            r.spec_variant() is None,
            r.spec_weight() is None,
            r.spec_stretch() is None,
            r.spec_gravity() is None,
    {
        FontStyleOptions {
            style: Option::None,
            variant: Option::None,
            weight: Option::None,
            stretch: Option::None,
            gravity: Option::None,
        }
    }
}

impl FontStyleOptions {
    pub closed spec fn spec_style(&self) -> Option<FontStyle> {
        self.style
    }

    pub closed spec fn spec_variant(&self) -> Option<FontVariant> {
        self.variant
    }

    pub closed spec fn spec_weight(&self) -> Option<FontWeight> {
        self.weight
    }

    pub closed spec fn spec_stretch(&self) -> Option<FontStretch> {
        self.stretch
    }

    pub closed spec fn spec_gravity(&self) -> Option<FontGravity> {
        self.gravity
    }

    /// Builds style options from their parts.
    pub fn new(
        style: Option<FontStyle>,
        variant: Option<FontVariant>,
        weight: Option<FontWeight>,
        stretch: Option<FontStretch>,
        gravity: Option<FontGravity>,
    ) -> (r: FontStyleOptions)
        ensures
            r.spec_style() == style,
            r.spec_variant() == variant,
            r.spec_weight() == weight,
            r.spec_stretch() == stretch,
            r.spec_gravity() == gravity,
    {
        FontStyleOptions { style, variant, weight, stretch, gravity }
    }
}

impl Render for FontStyleOptions {
    open spec fn spec_render(&self) -> Seq<char> {
        spec_opt_render(self.spec_style()) + " "@ + spec_opt_render(self.spec_variant()) + " "@
            + spec_opt_render(self.spec_weight()) + " "@ + spec_opt_render(self.spec_stretch())
            + " "@ + spec_opt_render(self.spec_gravity())
    }

    fn render(&self) -> (r: String) {
        let mut r = to_string_or_empty(&self.style);
        r.append(" ");
        r.append(to_string_or_empty(&self.variant).as_str());
        r.append(" ");
        r.append(to_string_or_empty(&self.weight).as_str());
        r.append(" ");
        r.append(to_string_or_empty(&self.stretch).as_str());
        r.append(" ");
        r.append(to_string_or_empty(&self.gravity).as_str());
        r
    }
}

/// The slant of a font.
#[derive(Clone, Copy)]
pub enum FontStyle {
    Normal,
    Roman,
    Oblique,
    Italic,
}

impl Render for FontStyle {
    open spec fn spec_render(&self) -> Seq<char> {
        match self {
            FontStyle::Normal => "Normal"@,
            FontStyle::Roman => "Roman"@,
            FontStyle::Oblique => "Oblique"@,
            FontStyle::Italic => "Italic"@,
        }
    }

    fn render(&self) -> (r: String) {
        match self {
            FontStyle::Normal => "Normal".to_owned(),
            FontStyle::Roman => "Roman".to_owned(),
            FontStyle::Oblique => "Oblique".to_owned(),
            FontStyle::Italic => "Italic".to_owned(),
        }
    }
}

/// The capitalization variant of a font.
#[derive(Clone, Copy)]
pub enum FontVariant {
    SmallCaps,
    AllSmallCaps,
    PetiteCaps,
    AllPetiteCaps,
    Unicase,
    TitleCaps,
}

impl Render for FontVariant {
    open spec fn spec_render(&self) -> Seq<char> {
        match self {
            FontVariant::SmallCaps => "Small-Caps"@,
            FontVariant::AllSmallCaps => "All-Small-Caps"@,
            FontVariant::PetiteCaps => "Petite-Caps"@,
            FontVariant::AllPetiteCaps => "All-Petite-Caps"@,
            FontVariant::Unicase => "Unicase"@,
            FontVariant::TitleCaps => "Title-Caps"@,
        }
    }

    fn render(&self) -> (r: String) {
        match self {
            FontVariant::SmallCaps => "Small-Caps".to_owned(),
            FontVariant::AllSmallCaps => "All-Small-Caps".to_owned(),
            FontVariant::PetiteCaps => "Petite-Caps".to_owned(),
            FontVariant::AllPetiteCaps => "All-Petite-Caps".to_owned(),
            FontVariant::Unicase => "Unicase".to_owned(),
            FontVariant::TitleCaps => "Title-Caps".to_owned(),
        }
    }
}

/// The weight of a font.
#[derive(Clone, Copy)]
pub enum FontWeight {
    Thin,
    UltraLight,
    ExtraLight,
    Light,
    SemiLight,
    DemiLight,
    Book,
    Regular,
    Medium,
    SemiBold,
    DemiBold,
    Bold,
    UltraBold,
    ExtraBold,
    Heavy,
    Black,
    UltraBlack,
    ExtraBlack,
}

impl Render for FontWeight {
    open spec fn spec_render(&self) -> Seq<char> {
        match self {
            FontWeight::Thin => "Thin"@,
            FontWeight::UltraLight => "Ultra-Light"@,
            FontWeight::ExtraLight => "Extra-Light"@,
            FontWeight::Light => "Light"@,
            FontWeight::SemiLight => "Semi-Light"@,
            FontWeight::DemiLight => "Demi-Light"@,
            FontWeight::Book => "Book"@,
            FontWeight::Regular => "Regular"@,
            FontWeight::Medium => "Medium"@,
            FontWeight::SemiBold => "Semi-Bold"@,
            FontWeight::DemiBold => "Demi-Bold"@,
            FontWeight::Bold => "Bold"@,
            FontWeight::UltraBold => "Ultra-Bold"@,
            FontWeight::ExtraBold => "Extra-Bold"@,
            FontWeight::Heavy => "Heavy"@,
            FontWeight::Black => "Black"@,
            FontWeight::UltraBlack => "Ultra-Black"@,
            FontWeight::ExtraBlack => "Extra-Black"@,
        }
    }

    fn render(&self) -> (r: String) {
        match self {
            FontWeight::Thin => "Thin".to_owned(),
            FontWeight::UltraLight => "Ultra-Light".to_owned(),
            FontWeight::ExtraLight => "Extra-Light".to_owned(),
            FontWeight::Light => "Light".to_owned(),
            FontWeight::SemiLight => "Semi-Light".to_owned(),
            FontWeight::DemiLight => "Demi-Light".to_owned(),
            FontWeight::Book => "Book".to_owned(),
            FontWeight::Regular => "Regular".to_owned(),
            FontWeight::Medium => "Medium".to_owned(),
            FontWeight::SemiBold => "Semi-Bold".to_owned(),
            FontWeight::DemiBold => "Demi-Bold".to_owned(),
            FontWeight::Bold => "Bold".to_owned(),
            FontWeight::UltraBold => "Ultra-Bold".to_owned(),
            FontWeight::ExtraBold => "Extra-Bold".to_owned(),
            FontWeight::Heavy => "Heavy".to_owned(),
            FontWeight::Black => "Black".to_owned(),
            FontWeight::UltraBlack => "Ultra-Black".to_owned(),
            FontWeight::ExtraBlack => "Extra-Black".to_owned(),
        }
    }
}

/// The stretch of a font.
#[derive(Clone, Copy)]
pub enum FontStretch {
    UltraCondensed,
    ExtraCondensed,
    Condensed,
    SemiCondensed,
    SemiExpanded,
    Expanded,
    ExtraExpanded,
    UltraExpanded,
}

impl Render for FontStretch {
    open spec fn spec_render(&self) -> Seq<char> {
        match self {
            FontStretch::UltraCondensed => "Ultra-Condensed"@,
            FontStretch::ExtraCondensed => "Extra-Condensed"@,
            FontStretch::Condensed => "Condensed"@,
            FontStretch::SemiCondensed => "Semi-Condensed"@,
            FontStretch::SemiExpanded => "Semi-Expanded"@,
            FontStretch::Expanded => "Expanded"@,
            FontStretch::ExtraExpanded => "Extra-Expanded"@,
            FontStretch::UltraExpanded => "Ultra-Expanded"@,
        }
    }

    fn render(&self) -> (r: String) {
        match self {
            FontStretch::UltraCondensed => "Ultra-Condensed".to_owned(),
            FontStretch::ExtraCondensed => "Extra-Condensed".to_owned(),
            FontStretch::Condensed => "Condensed".to_owned(),
            FontStretch::SemiCondensed => "Semi-Condensed".to_owned(),
            FontStretch::SemiExpanded => "Semi-Expanded".to_owned(),
            FontStretch::Expanded => "Expanded".to_owned(),
            FontStretch::ExtraExpanded => "Extra-Expanded".to_owned(),
            FontStretch::UltraExpanded => "Ultra-Expanded".to_owned(),
        }
    }
}

/// The gravity of a font.
#[derive(Clone, Copy)]
pub enum FontGravity {
    NotRotated,
    South,
    UpsideDown,
    North,
    RotatedLeft,
    East,
    RotatedRight,
    West,
}

impl Render for FontGravity {
    open spec fn spec_render(&self) -> Seq<char> {
        match self {
            FontGravity::NotRotated => "Not-Rotated"@,
            FontGravity::South => "South"@,
            FontGravity::UpsideDown => "Upside-Down"@,
            FontGravity::North => "North"@,
            FontGravity::RotatedLeft => "Rotated-Left"@,
            FontGravity::East => "East"@,
            FontGravity::RotatedRight => "Rotated-Right"@,
            FontGravity::West => "West"@,
        }
    }

    fn render(&self) -> (r: String) {
        match self {
            FontGravity::NotRotated => "Not-Rotated".to_owned(),
            FontGravity::South => "South".to_owned(),
            FontGravity::UpsideDown => "Upside-Down".to_owned(),
            FontGravity::North => "North".to_owned(),
            FontGravity::RotatedLeft => "Rotated-Left".to_owned(),
            FontGravity::East => "East".to_owned(),
            FontGravity::RotatedRight => "Rotated-Right".to_owned(),
            FontGravity::West => "West".to_owned(),
        }
    }
}

/// A font size in points or pixels; the numeric value is kept as its
/// decimal text.
#[derive(Clone)]
pub enum FontSize {
    Pt(String),
    Px(String),
}

impl Render for FontSize {
    open spec fn spec_render(&self) -> Seq<char> {
        match self {
            FontSize::Pt(size) => size@,
            FontSize::Px(size) => size@ + " px"@,
        }
    }

    fn render(&self) -> (r: String) {
        match self {
            FontSize::Pt(size) => size.clone(),
            FontSize::Px(size) => {
                let mut r = size.clone();
                r.append(" px");
                r
            },
        }
    }
}

} // verus!
