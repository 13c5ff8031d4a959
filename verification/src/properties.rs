//! The properties of the image being edited, the partial form in which they
//! are stored beside the image, and the merge that brings a stored form back.

use crate::config::{default_position, spec_default_position, Config};
use crate::text::{has_text, spec_has_text};
use vstd::prelude::*;

verus! {

/// One of the five text fields of a card.
#[derive(Clone, Copy, Debug, PartialEq, Eq, Structural)]
pub enum Field {
    Quote,
    Subquote,
    Subquote2,
    Tag,
    Tag2,
}

/// The properties of the open image. Heights of the text fields and the corner
/// of the crop are measured on the original image, whatever the size of the
/// working copy.
#[derive(Debug, PartialEq, Eq)]
pub struct ImageProperties {
    /// Size of the working copy after the last crop or resize.
    pub dimension: (u32, u32),
    /// Size of the decoded source; set when the image is opened.
    pub original_dimension: (u32, u32),
    /// Top-left corner of the crop, on the original image.
    pub crop_position: Option<(u32, u32)>,
    /// What the exported file's name begins with.
    pub name_prefix: String,
    /// The primary quote.
    pub quote: String,
    /// The first secondary quote.
    pub subquote: String,
    /// The second secondary quote.
    pub subquote2: String,
    /// The first tag.
    pub tag: String,
    /// The second tag.
    pub tag2: String,
    /// Height of the primary quote's first line.
    pub quote_position: u32,
    /// Height of the first secondary quote's first line.
    pub subquote_position: u32,
    /// Height of the second secondary quote's first line.
    pub subquote2_position: u32,
    /// Height of the first tag's first line.
    pub tag_position: u32,
    /// Height of the second tag's first line.
    pub tag2_position: u32,
    /// Colour of the translucent layer, as red, green, blue, alpha.
    pub translucent_layer_color: [u8; 4],
    /// Whether the properties are as they were last stored.
    pub is_saved: bool,
}

/// The stored form of the properties: every field may be absent.
#[derive(Debug, PartialEq, Eq)]
pub struct ImagePropertiesFile {
    pub crop_position: Option<(u32, u32)>,
    pub name_prefix: Option<String>,
    pub quote: Option<String>,
    pub subquote: Option<String>,
    pub subquote2: Option<String>,
    pub tag: Option<String>,
    pub tag2: Option<String>,
    pub quote_position: Option<u32>,
    pub subquote_position: Option<u32>,
    pub subquote2_position: Option<u32>,
    pub tag_position: Option<u32>,
    pub tag2_position: Option<u32>,
    pub translucent_layer_color: Option<[u8; 4]>,
}

/// What an `ImageProperties` holds, with texts as sequences of characters.
pub ghost struct PropertiesView {
    pub dimension: (u32, u32),
    pub original_dimension: (u32, u32),
    pub crop_position: Option<(u32, u32)>,
    pub name_prefix: Seq<char>,
    pub quote: Seq<char>,
    pub subquote: Seq<char>,
    pub subquote2: Seq<char>,
    pub tag: Seq<char>,
    pub tag2: Seq<char>,
    pub quote_position: u32,
    pub subquote_position: u32,
    pub subquote2_position: u32,
    pub tag_position: u32,
    pub tag2_position: u32,
    pub translucent_layer_color: Seq<u8>,
    pub is_saved: bool,
}

/// What an `ImagePropertiesFile` holds, with texts as sequences of characters.
pub ghost struct FileView {
    pub crop_position: Option<(u32, u32)>,
    pub name_prefix: Option<Seq<char>>,
    pub quote: Option<Seq<char>>,
    pub subquote: Option<Seq<char>>,
    pub subquote2: Option<Seq<char>>,
    pub tag: Option<Seq<char>>,
    pub tag2: Option<Seq<char>>,
    pub quote_position: Option<u32>,
    pub subquote_position: Option<u32>,
    pub subquote2_position: Option<u32>,
    pub tag_position: Option<u32>,
    pub tag2_position: Option<u32>,
    pub translucent_layer_color: Option<Seq<u8>>,
}

/// The characters of a text that may be absent.
pub open spec fn text_view(text: Option<String>) -> Option<Seq<char>> {
    match text {
        Some(s) => Some(s@),
        None => None,
    }
}

/// The four parts of a colour that may be absent.
pub open spec fn color_view(color: Option<[u8; 4]>) -> Option<Seq<u8>> {
    match color {
        Some(c) => Some(c@),
        None => None,
    }
}

impl View for ImageProperties {
    type V = PropertiesView;

    open spec fn view(&self) -> PropertiesView {
        PropertiesView {
            dimension: self.dimension,
            original_dimension: self.original_dimension,
            crop_position: self.crop_position,
            name_prefix: self.name_prefix@,
            quote: self.quote@,
            subquote: self.subquote@,
            subquote2: self.subquote2@,
            tag: self.tag@,
            tag2: self.tag2@,
            quote_position: self.quote_position,
            subquote_position: self.subquote_position,
            subquote2_position: self.subquote2_position,
            tag_position: self.tag_position,
            tag2_position: self.tag2_position,
            translucent_layer_color: self.translucent_layer_color@,
            is_saved: self.is_saved,
        }
    }
}

impl View for ImagePropertiesFile {
    type V = FileView;

    open spec fn view(&self) -> FileView {
        FileView {
            crop_position: self.crop_position,
            name_prefix: text_view(self.name_prefix),
            quote: text_view(self.quote),
            subquote: text_view(self.subquote),
            subquote2: text_view(self.subquote2),
            tag: text_view(self.tag),
            tag2: text_view(self.tag2),
            quote_position: self.quote_position,
            subquote_position: self.subquote_position,
            subquote2_position: self.subquote2_position,
            tag_position: self.tag_position,
            tag2_position: self.tag2_position,
            translucent_layer_color: color_view(self.translucent_layer_color),
        }
    }
}

/// The stored text, or `fallback` where none was stored.
pub open spec fn text_or(stored: Option<Seq<char>>, fallback: Seq<char>) -> Seq<char> {
    match stored {
        Some(t) => t,
        None => fallback,
    }
}

/// The stored height, or `fallback` where none was stored.
pub open spec fn position_or(stored: Option<u32>, fallback: u32) -> u32 {
    match stored {
        Some(p) => p,
        None => fallback,
    }
}

/// The stored colour, or `fallback` where none was stored.
pub open spec fn color_or(stored: Option<Seq<u8>>, fallback: Seq<u8>) -> Seq<u8> {
    match stored {
        Some(c) => c,
        None => fallback,
    }
}

/// The properties after a stored form has been merged into them. A field that
/// was stored wins. Where none was stored, the crop is forgotten, the prefix
/// and the three quotes are empty, each tag is the default the caller gives,
/// each height stays as it is, and the layer takes the profile's colour. Sizes
/// and the saved mark are left alone.
pub open spec fn spec_merge(
    state: PropertiesView,
    file: FileView,
    tag_default: Seq<char>,
    tag2_default: Seq<char>,
    layer_default: Seq<u8>,
) -> PropertiesView {
    PropertiesView {
        dimension: state.dimension,
        original_dimension: state.original_dimension,
        crop_position: file.crop_position,
        name_prefix: text_or(file.name_prefix, Seq::empty()),
        quote: text_or(file.quote, Seq::empty()),
        subquote: text_or(file.subquote, Seq::empty()),
        subquote2: text_or(file.subquote2, Seq::empty()),
        tag: text_or(file.tag, tag_default),
        tag2: text_or(file.tag2, tag2_default),
        quote_position: position_or(file.quote_position, state.quote_position),
        subquote_position: position_or(file.subquote_position, state.subquote_position),
        subquote2_position: position_or(file.subquote2_position, state.subquote2_position),
        tag_position: position_or(file.tag_position, state.tag_position),
        tag2_position: position_or(file.tag2_position, state.tag2_position),
        translucent_layer_color: color_or(file.translucent_layer_color, layer_default),
        is_saved: state.is_saved,
    }
}

/// The stored form of a set of properties: every field present.
pub open spec fn spec_file_of(props: PropertiesView) -> FileView {
    FileView {
        crop_position: props.crop_position,
        name_prefix: Some(props.name_prefix),
        quote: Some(props.quote),
        subquote: Some(props.subquote),
        subquote2: Some(props.subquote2),
        tag: Some(props.tag),
        tag2: Some(props.tag2),
        quote_position: Some(props.quote_position),
        subquote_position: Some(props.subquote_position),
        subquote2_position: Some(props.subquote2_position),
        tag_position: Some(props.tag_position),
        tag2_position: Some(props.tag2_position),
        translucent_layer_color: Some(props.translucent_layer_color),
    }
}

/// The properties before any image was opened.
pub open spec fn spec_fresh() -> PropertiesView {
    PropertiesView {
        dimension: (0, 0),
        original_dimension: (0, 0),
        crop_position: None,
        name_prefix: Seq::empty(),
        quote: Seq::empty(),
        subquote: Seq::empty(),
        subquote2: Seq::empty(),
        tag: Seq::empty(),
        tag2: Seq::empty(),
        quote_position: 0,
        subquote_position: 0,
        subquote2_position: 0,
        tag_position: 0,
        tag2_position: 0,
        translucent_layer_color: seq![0u8, 0u8, 0u8, 0u8],
        is_saved: true,
    }
}

/// The stored form in which nothing is stored.
pub open spec fn spec_empty_file() -> FileView {
    FileView {
        crop_position: None,
        name_prefix: None,
        quote: None,
        subquote: None,
        subquote2: None,
        tag: None,
        tag2: None,
        quote_position: None,
        subquote_position: None,
        subquote2_position: None,
        tag_position: None,
        tag2_position: None,
        translucent_layer_color: None,
    }
}

/// The properties of an image of `width` x `height` that was just opened under
/// a profile: the original size is recorded and every field stands at the
/// height the profile gives it. Everything else is as it was.
pub open spec fn spec_opened(state: PropertiesView, width: u32, height: u32, config: Config) -> PropertiesView {
    PropertiesView {
        original_dimension: (width, height),
        quote_position: spec_default_position(height as int, config.quote_position_ratio as int),
        subquote_position: spec_default_position(
            height as int,
            config.subquote_position_ratio as int,
        ),
        subquote2_position: spec_default_position(
            height as int,
            config.subquote2_position_ratio as int,
        ),
        tag_position: spec_default_position(height as int, config.tag_position_ratio as int),
        tag2_position: spec_default_position(height as int, config.tag2_position_ratio as int),
        ..state
    }
}

impl Default for ImageProperties {
    /// The properties before any image was opened.
    fn default() -> (r: ImageProperties)
        ensures
            r@ == spec_fresh(),
    {
        let color: [u8; 4] = [0, 0, 0, 0];
        assert(color@ =~= seq![0u8, 0u8, 0u8, 0u8]);
        ImageProperties {
            dimension: (0, 0),
            original_dimension: (0, 0),
            crop_position: None,
            name_prefix: String::new(),
            quote: String::new(),
            subquote: String::new(),
            subquote2: String::new(),
            tag: String::new(),
            tag2: String::new(),
            quote_position: 0,
            subquote_position: 0,
            subquote2_position: 0,
            tag_position: 0,
            tag2_position: 0,
            translucent_layer_color: color,
            is_saved: true,
        }
    }
}

impl Default for ImagePropertiesFile {
    /// The stored form in which nothing is stored.
    fn default() -> (r: ImagePropertiesFile)
        ensures
            r@ == spec_empty_file(),
    {
        ImagePropertiesFile {
            crop_position: None,
            name_prefix: None,
            quote: None,
            subquote: None,
            subquote2: None,
            tag: None,
            tag2: None,
            quote_position: None,
            subquote_position: None,
            subquote2_position: None,
            tag_position: None,
            tag2_position: None,
            translucent_layer_color: None,
        }
    }
}

impl Clone for ImageProperties {
    fn clone(&self) -> (r: ImageProperties)
        ensures
            r@ == self@,
    {
        ImageProperties {
            dimension: self.dimension,
            original_dimension: self.original_dimension,
            crop_position: self.crop_position,
            name_prefix: self.name_prefix.clone(),
            quote: self.quote.clone(),
            subquote: self.subquote.clone(),
            subquote2: self.subquote2.clone(),
            tag: self.tag.clone(),
            tag2: self.tag2.clone(),
            quote_position: self.quote_position,
            subquote_position: self.subquote_position,
            subquote2_position: self.subquote2_position,
            tag_position: self.tag_position,
            tag2_position: self.tag2_position,
            translucent_layer_color: self.translucent_layer_color,
            is_saved: self.is_saved,
        }
    }
}

/// A copy of a text that may be absent.
fn copy_text(text: &Option<String>) -> (r: Option<String>)
    ensures
        text_view(r) == text_view(*text),
{
    match text {
        Some(s) => Some(s.clone()),
        None => None,
    }
}

impl Clone for ImagePropertiesFile {
    fn clone(&self) -> (r: ImagePropertiesFile)
        ensures
            r@ == self@,
    {
        ImagePropertiesFile {
            crop_position: self.crop_position,
            name_prefix: copy_text(&self.name_prefix),
            quote: copy_text(&self.quote),
            subquote: copy_text(&self.subquote),
            subquote2: copy_text(&self.subquote2),
            tag: copy_text(&self.tag),
            tag2: copy_text(&self.tag2),
            quote_position: self.quote_position,
            subquote_position: self.subquote_position,
            subquote2_position: self.subquote2_position,
            tag_position: self.tag_position,
            tag2_position: self.tag2_position,
            translucent_layer_color: self.translucent_layer_color,
        }
    }
}

impl From<&ImageProperties> for ImagePropertiesFile {
    /// The stored form of `props`: every field present.
    fn from(props: &ImageProperties) -> (r: ImagePropertiesFile)
        ensures
            r@ == spec_file_of(props@),
    {
        ImagePropertiesFile {
            crop_position: props.crop_position,
            name_prefix: Some(props.name_prefix.clone()),
            quote: Some(props.quote.clone()),
            subquote: Some(props.subquote.clone()),
            subquote2: Some(props.subquote2.clone()),
            tag: Some(props.tag.clone()),
            tag2: Some(props.tag2.clone()),
            quote_position: Some(props.quote_position),
            subquote_position: Some(props.subquote_position),
            subquote2_position: Some(props.subquote2_position),
            tag_position: Some(props.tag_position),
            tag2_position: Some(props.tag2_position),
            translucent_layer_color: Some(props.translucent_layer_color),
        }
    }
}

impl vstd::std_specs::convert::FromSpecImpl<&ImageProperties> for ImagePropertiesFile {
    open spec fn obeys_from_spec() -> bool {
        true
    }

    open spec fn from_spec(props: &ImageProperties) -> ImagePropertiesFile {
        ImagePropertiesFile {
            crop_position: props.crop_position,
            name_prefix: Some(props.name_prefix),
            quote: Some(props.quote),
            subquote: Some(props.subquote),
            subquote2: Some(props.subquote2),
            tag: Some(props.tag),
            tag2: Some(props.tag2),
            quote_position: Some(props.quote_position),
            subquote_position: Some(props.subquote_position),
            subquote2_position: Some(props.subquote2_position),
            tag_position: Some(props.tag_position),
            tag2_position: Some(props.tag2_position),
            translucent_layer_color: Some(props.translucent_layer_color),
        }
    }
}

/// The stored text, or a copy of `fallback` where none was stored.
fn stored_text_or(stored: Option<String>, fallback: &str) -> (r: String)
    ensures
        r@ == text_or(text_view(stored), fallback@),
{
    match stored {
        Some(s) => s,
        None => fallback.to_owned(),
    }
}

/// The stored text, or the empty text where none was stored.
fn stored_text_or_empty(stored: Option<String>) -> (r: String)
    ensures
        r@ == text_or(text_view(stored), Seq::empty()),
{
    match stored {
        Some(s) => s,
        None => String::new(),
    }
}

/// The stored height, or `fallback` where none was stored.
fn stored_position_or(stored: Option<u32>, fallback: u32) -> (r: u32)
    ensures
        r == position_or(stored, fallback),
{
    match stored {
        Some(p) => p,
        None => fallback,
    }
}

impl ImageProperties {
    /// Merges a stored form into the properties. A field that was stored wins;
    /// `tag_default` and `tag2_default` stand in for tags that were not stored,
    /// `layer_default`, the profile's colour, for a layer that was not.
    pub fn merge(
        &mut self,
        props: ImagePropertiesFile,
        tag_default: &str,
        tag2_default: &str,
        layer_default: [u8; 4],
    )
        ensures
            final(self)@ == spec_merge(
                old(self)@,
                props@,
                tag_default@,
                tag2_default@,
                layer_default@,
            ),
    {
        self.crop_position = props.crop_position;
        self.name_prefix = stored_text_or_empty(props.name_prefix);
        self.quote = stored_text_or_empty(props.quote);
        self.subquote = stored_text_or_empty(props.subquote);
        self.subquote2 = stored_text_or_empty(props.subquote2);
        self.tag = stored_text_or(props.tag, tag_default);
        self.tag2 = stored_text_or(props.tag2, tag2_default);
        self.quote_position = stored_position_or(props.quote_position, self.quote_position);
        self.subquote_position = stored_position_or(
            props.subquote_position,
            self.subquote_position,
        );
        self.subquote2_position = stored_position_or(
            props.subquote2_position,
            self.subquote2_position,
        );
        self.tag_position = stored_position_or(props.tag_position, self.tag_position);
        self.tag2_position = stored_position_or(props.tag2_position, self.tag2_position);
        self.translucent_layer_color = match props.translucent_layer_color {
            Some(c) => c,
            None => layer_default,
        };
    }

    /// Records the size of the image that was just opened and puts every field
    /// at the height the profile gives it.
    pub fn open(&mut self, width: u32, height: u32, config: &Config)
        ensures
            final(self)@ == spec_opened(old(self)@, width, height, *config),
    {
        self.original_dimension = (width, height);
        self.quote_position = default_position(height, config.quote_position_ratio);
        self.subquote_position = default_position(height, config.subquote_position_ratio);
        self.subquote2_position = default_position(height, config.subquote2_position_ratio);
        self.tag_position = default_position(height, config.tag_position_ratio);
        self.tag2_position = default_position(height, config.tag2_position_ratio);
    }
}

/// The height of a field's first line.
pub open spec fn spec_position(field: Field, props: PropertiesView) -> u32 {
    match field {
        Field::Quote => props.quote_position,
        Field::Subquote => props.subquote_position,
        Field::Subquote2 => props.subquote2_position,
        Field::Tag => props.tag_position,
        Field::Tag2 => props.tag2_position,
    }
}

/// The text of a field.
pub open spec fn spec_text(field: Field, props: PropertiesView) -> Seq<char> {
    match field {
        Field::Quote => props.quote,
        Field::Subquote => props.subquote,
        Field::Subquote2 => props.subquote2,
        Field::Tag => props.tag,
        Field::Tag2 => props.tag2,
    }
}

/// The ratio that gives a field its default height.
pub open spec fn spec_position_ratio(field: Field, config: Config) -> u32 {
    match field {
        Field::Quote => config.quote_position_ratio,
        Field::Subquote => config.subquote_position_ratio,
        Field::Subquote2 => config.subquote2_position_ratio,
        Field::Tag => config.tag_position_ratio,
        Field::Tag2 => config.tag2_position_ratio,
    }
}

/// The properties with one field's text replaced. They are no longer saved.
pub open spec fn spec_with_text(props: PropertiesView, field: Field, text: Seq<char>) -> PropertiesView {
    let edited = PropertiesView { is_saved: false, ..props };
    match field {
        Field::Quote => PropertiesView { quote: text, ..edited },
        Field::Subquote => PropertiesView { subquote: text, ..edited },
        Field::Subquote2 => PropertiesView { subquote2: text, ..edited },
        Field::Tag => PropertiesView { tag: text, ..edited },
        Field::Tag2 => PropertiesView { tag2: text, ..edited },
    }
}

/// The properties with one field's height replaced. They are no longer saved.
pub open spec fn spec_with_position(props: PropertiesView, field: Field, position: u32) -> PropertiesView {
    let edited = PropertiesView { is_saved: false, ..props };
    match field {
        Field::Quote => PropertiesView { quote_position: position, ..edited },
        Field::Subquote => PropertiesView { subquote_position: position, ..edited },
        Field::Subquote2 => PropertiesView { subquote2_position: position, ..edited },
        Field::Tag => PropertiesView { tag_position: position, ..edited },
        Field::Tag2 => PropertiesView { tag2_position: position, ..edited },
    }
}

impl ImageProperties {
    /// The text of a field.
    pub fn text(&self, field: Field) -> (r: &str)
        ensures
            r@ == spec_text(field, self@),
    {
        match field {
            Field::Quote => self.quote.as_str(),
            Field::Subquote => self.subquote.as_str(),
            Field::Subquote2 => self.subquote2.as_str(),
            Field::Tag => self.tag.as_str(),
            Field::Tag2 => self.tag2.as_str(),
        }
    }

    /// The height of a field's first line.
    pub fn position(&self, field: Field) -> (r: u32)
        ensures
            r == spec_position(field, self@),
    {
        match field {
            Field::Quote => self.quote_position,
            Field::Subquote => self.subquote_position,
            Field::Subquote2 => self.subquote2_position,
            Field::Tag => self.tag_position,
            Field::Tag2 => self.tag2_position,
        }
    }

    /// Replaces the text of a field.
    pub fn set_text(&mut self, field: Field, text: String)
        ensures
            final(self)@ == spec_with_text(old(self)@, field, text@),
    {
        match field {
            Field::Quote => {
                self.quote = text;
            },
            Field::Subquote => {
                self.subquote = text;
            },
            Field::Subquote2 => {
                self.subquote2 = text;
            },
            Field::Tag => {
                self.tag = text;
            },
            Field::Tag2 => {
                self.tag2 = text;
            },
        }
        self.is_saved = false;
    }

    /// Replaces the height of a field.
    pub fn set_position(&mut self, field: Field, position: u32)
        ensures
            final(self)@ == spec_with_position(old(self)@, field, position),
    {
        match field {
            Field::Quote => {
                self.quote_position = position;
            },
            Field::Subquote => {
                self.subquote_position = position;
            },
            Field::Subquote2 => {
                self.subquote2_position = position;
            },
            Field::Tag => {
                self.tag_position = position;
            },
            Field::Tag2 => {
                self.tag2_position = position;
            },
        }
        self.is_saved = false;
    }

    /// Puts a field back at the height the profile gives it on the original
    /// image, and returns that height.
    pub fn reset_position(&mut self, field: Field, config: &Config) -> (r: u32)
        ensures
            r == spec_default_position(
                old(self).original_dimension.1 as int,
                spec_position_ratio(field, *config) as int,
            ),
            final(self)@ == spec_with_position(old(self)@, field, r),
    {
        let ratio = match field {
            Field::Quote => config.quote_position_ratio,
            Field::Subquote => config.subquote_position_ratio,
            Field::Subquote2 => config.subquote2_position_ratio,
            Field::Tag => config.tag_position_ratio,
            Field::Tag2 => config.tag2_position_ratio,
        };
        let position = default_position(self.original_dimension.1, ratio);
        self.set_position(field, position);
        position
    }

    /// Replaces what the exported file's name begins with.
    pub fn set_name_prefix(&mut self, name_prefix: String)
        ensures
            final(self)@ == (PropertiesView {
                name_prefix: name_prefix@,
                is_saved: false,
                ..old(self)@
            }),
    {
        self.name_prefix = name_prefix;
        self.is_saved = false;
    }

    /// Gives the translucent layer a colour.
    pub fn set_layer_color(&mut self, color: [u8; 4])
        ensures
            final(self)@ == (PropertiesView {
                translucent_layer_color: color@,
                is_saved: false,
                ..old(self)@
            }),
    {
        self.translucent_layer_color = color;
        self.is_saved = false;
    }

    /// Gives the translucent layer the colour of the profile.
    pub fn reset_layer_color(&mut self, config: &Config)
        ensures
            final(self)@ == (PropertiesView {
                translucent_layer_color: config.color_layer@,
                is_saved: false,
                ..old(self)@
            }),
    {
        self.set_layer_color(config.color_layer);
    }

    /// Notes that the properties are stored as they are.
    pub fn mark_saved(&mut self)
        ensures
            final(self)@ == (PropertiesView { is_saved: true, ..old(self)@ }),
    {
        self.is_saved = true;
    }

    /// Whether the image has a primary quote that says anything; only such
    /// images are exported in bulk.
    pub fn has_quote(&self) -> (r: bool)
        ensures
            r == spec_has_text(self@.quote),
    {
        has_text(self.quote.as_str())
    }
}

/// The stored form of any properties holds every field; only the crop is
/// absent from it, and only where the properties have none.
pub proof fn lemma_stored_form_complete(props: PropertiesView)
    ensures
        ({
            let file = spec_file_of(props);
            &&& file.name_prefix is Some
            &&& file.quote is Some
            &&& file.subquote is Some
            &&& file.subquote2 is Some
            &&& file.tag is Some
            &&& file.tag2 is Some
            &&& file.quote_position is Some
            &&& file.subquote_position is Some
            &&& file.subquote2_position is Some
            &&& file.tag_position is Some
            &&& file.tag2_position is Some
            &&& file.translucent_layer_color is Some
            &&& file.crop_position is Some == props.crop_position is Some
        }),
{
}

/// Merging a stored form a second time changes nothing.
pub proof fn lemma_merge_idempotent(
    state: PropertiesView,
    file: FileView,
    tag_default: Seq<char>,
    tag2_default: Seq<char>,
    layer_default: Seq<u8>,
)
    ensures
        spec_merge(
            spec_merge(state, file, tag_default, tag2_default, layer_default),
            file,
            tag_default,
            tag2_default,
            layer_default,
        ) == spec_merge(state, file, tag_default, tag2_default, layer_default),
{
}

/// Storing properties and merging the stored form into any state brings back
/// every field that is stored. The two sizes and the saved mark are not
/// stored: they stay as they are in the state that is merged into.
pub proof fn lemma_store_then_merge(
    props: PropertiesView,
    state: PropertiesView,
    tag_default: Seq<char>,
    tag2_default: Seq<char>,
    layer_default: Seq<u8>,
)
    ensures
        spec_merge(state, spec_file_of(props), tag_default, tag2_default, layer_default) == (
        PropertiesView {
            dimension: state.dimension,
            original_dimension: state.original_dimension,
            is_saved: state.is_saved,
            ..props
        }),
{
}

/// Storing properties that were never sized and are saved, and merging the
/// stored form into fresh properties, brings back the properties themselves.
pub proof fn lemma_round_trip(
    props: PropertiesView,
    tag_default: Seq<char>,
    tag2_default: Seq<char>,
    layer_default: Seq<u8>,
)
    requires
        props.dimension == spec_fresh().dimension,
        props.original_dimension == spec_fresh().original_dimension,
        props.is_saved == spec_fresh().is_saved,
    ensures
        spec_merge(spec_fresh(), spec_file_of(props), tag_default, tag2_default, layer_default)
            == props,
{
}

} // verus!
