//! The card as a whole: the translucent layer and the five text fields, each
//! with its font size, its colour, its lines and, for the primary quote, its
//! panel.
//!
//! Planning a card takes two steps, because a line can only be measured once
//! the size of its font is known: `font_size_of` gives the size of each field's
//! font on the image that is drawn on; the caller measures the lines of each
//! field at that size; `plan_card` then says where everything is drawn.

use crate::config::{font_size, spec_font_size, Config};
use crate::layout::{
    bounding_box, place_lines, spec_bounding_box, spec_placement, Anchor, Canvas, LineMeasure,
    LinePlacement, TextBlock,
};
use crate::panel::{plan_panel, spec_panel_drawn, spec_panel_plan, PanelPlan};
use crate::properties::{spec_position, Field, ImageProperties, PropertiesView};
use vstd::prelude::*;

verus! {

/// The measures of the lines of each field, each at the size of its font.
#[derive(Debug, PartialEq, Eq)]
pub struct FieldMeasures {
    pub quote: Vec<LineMeasure>,
    pub subquote: Vec<LineMeasure>,
    pub subquote2: Vec<LineMeasure>,
    pub tag: Vec<LineMeasure>,
    pub tag2: Vec<LineMeasure>,
}

/// What is drawn for one field.
#[derive(Debug, PartialEq, Eq)]
pub struct FieldPlan {
    /// The field that is drawn.
    pub field: Field,
    /// The size of the field's font, in thousandths of a pixel.
    pub font_size: u64,
    /// The colour of the text, as red, green, blue, alpha.
    pub color: [u8; 4],
    /// The panel drawn before the text, where the field has one.
    pub panel: Option<PanelPlan>,
    /// The corner of each line, in the order of the lines.
    pub lines: Vec<LinePlacement>,
}

/// What is drawn on the image, in the order in which it is drawn: the layer
/// over the whole image, then the fields.
#[derive(Debug, PartialEq, Eq)]
pub struct CardPlan {
    /// The colour of the translucent layer.
    pub layer: [u8; 4],
    /// The fields, in drawing order.
    pub fields: Vec<FieldPlan>,
}

/// The order in which the fields are drawn.
pub open spec fn spec_drawing_order() -> Seq<Field> {
    seq![Field::Quote, Field::Subquote, Field::Subquote2, Field::Tag2, Field::Tag]
}

/// The quotes are centred, the tags end at the right margin.
pub open spec fn spec_anchor(field: Field) -> Anchor {
    match field {
        Field::Quote | Field::Subquote | Field::Subquote2 => Anchor::Center,
        Field::Tag | Field::Tag2 => Anchor::Right,
    }
}

/// The size of a field's font at the reference height.
pub open spec fn spec_font_ratio(field: Field, config: Config) -> u32 {
    match field {
        Field::Quote => config.quote_font_ratio,
        Field::Subquote => config.subquote_font_ratio,
        Field::Subquote2 => config.subquote2_font_ratio,
        Field::Tag => config.tag_font_ratio,
        Field::Tag2 => config.tag2_font_ratio,
    }
}

/// The file of a field's font.
pub open spec fn spec_font(field: Field, config: Config) -> Seq<char> {
    match field {
        Field::Quote => config.quote_font@,
        Field::Subquote => config.subquote_font@,
        Field::Subquote2 => config.subquote2_font@,
        Field::Tag => config.tag_font@,
        Field::Tag2 => config.tag2_font@,
    }
}

/// The lines of a field among the measures of all fields.
pub open spec fn spec_lines(field: Field, measures: FieldMeasures) -> Seq<LineMeasure> {
    match field {
        Field::Quote => measures.quote@,
        Field::Subquote => measures.subquote@,
        Field::Subquote2 => measures.subquote2@,
        Field::Tag => measures.tag@,
        Field::Tag2 => measures.tag2@,
    }
}

/// How the lines of a field are set.
pub open spec fn spec_block(field: Field, props: PropertiesView, config: Config) -> TextBlock {
    TextBlock {
        position: spec_position(field, props),
        anchor: spec_anchor(field),
        right_margin: config.tag_x_position_ratio,
        line_spacing: config.line_spacing,
    }
}

/// The colour of a field's text: white, opaque for the tags.
pub open spec fn spec_text_color(field: Field) -> Seq<u8> {
    match spec_anchor(field) {
        Anchor::Center => seq![255u8, 255u8, 255u8, 100u8],
        Anchor::Right => seq![255u8, 255u8, 255u8, 255u8],
    }
}

/// Only the primary quote has a panel, and only where the profile asks for it.
pub open spec fn spec_has_panel(field: Field, config: Config) -> bool {
    field == Field::Quote && config.draw_box_around_quote
}

/// The panel of a field whose lines have the given measures, where one is
/// drawn.
pub open spec fn spec_field_panel(
    field: Field,
    canvas: Canvas,
    props: PropertiesView,
    config: Config,
    lines: Seq<LineMeasure>,
) -> Option<PanelPlan> {
    let text_box = spec_bounding_box(lines, spec_anchor(field), config.line_spacing);
    if spec_has_panel(field, config) && spec_panel_drawn(
        canvas,
        spec_position(field, props),
        text_box,
    ) {
        Some(spec_panel_plan(canvas, spec_position(field, props), text_box))
    } else {
        None
    }
}

/// Whether `plan` is what is drawn for `field`, given the measures of its
/// lines.
pub open spec fn spec_is_field_plan(
    plan: FieldPlan,
    field: Field,
    canvas: Canvas,
    props: PropertiesView,
    config: Config,
    lines: Seq<LineMeasure>,
) -> bool {
    &&& plan.field == field
    &&& plan.font_size == spec_font_size(
        canvas.height as int,
        spec_font_ratio(field, config) as int,
    )
    &&& plan.color@ == spec_text_color(field)
    &&& plan.panel == spec_field_panel(field, canvas, props, config, lines)
    &&& plan.lines@.len() == lines.len()
    &&& forall|i: int|
        0 <= i < lines.len() ==> plan.lines@[i] == spec_placement(
            canvas,
            spec_block(field, props, config),
            i,
            lines[i],
        )
}

/// The fields in the order in which they are drawn.
pub fn drawing_order() -> (r: [Field; 5])
    ensures
        r@ == spec_drawing_order(),
{
    let order = [Field::Quote, Field::Subquote, Field::Subquote2, Field::Tag2, Field::Tag];
    assert(order@ =~= spec_drawing_order());
    order
}

/// How a field is anchored.
pub fn anchor_of(field: Field) -> (r: Anchor)
    ensures
        r == spec_anchor(field),
{
    match field {
        Field::Quote | Field::Subquote | Field::Subquote2 => Anchor::Center,
        Field::Tag | Field::Tag2 => Anchor::Right,
    }
}

/// The file of a field's font.
pub fn font_of(field: Field, config: &Config) -> (r: &str)
    ensures
        r@ == spec_font(field, *config),
{
    match field {
        Field::Quote => config.quote_font.as_str(),
        Field::Subquote => config.subquote_font.as_str(),
        Field::Subquote2 => config.subquote2_font.as_str(),
        Field::Tag => config.tag_font.as_str(),
        Field::Tag2 => config.tag2_font.as_str(),
    }
}

/// The size of a field's font on an image of `height`, in thousandths of a
/// pixel.
pub fn font_size_of(field: Field, height: u32, config: &Config) -> (r: u64)
    ensures
        r == spec_font_size(height as int, spec_font_ratio(field, *config) as int),
{
    let ratio = match field {
        Field::Quote => config.quote_font_ratio,
        Field::Subquote => config.subquote_font_ratio,
        Field::Subquote2 => config.subquote2_font_ratio,
        Field::Tag => config.tag_font_ratio,
        Field::Tag2 => config.tag2_font_ratio,
    };
    font_size(height, ratio)
}

/// How the lines of a field are set.
pub fn block_of(field: Field, props: &ImageProperties, config: &Config) -> (r: TextBlock)
    ensures
        r == spec_block(field, props@, *config),
{
    let position = match field {
        Field::Quote => props.quote_position,
        Field::Subquote => props.subquote_position,
        Field::Subquote2 => props.subquote2_position,
        Field::Tag => props.tag_position,
        Field::Tag2 => props.tag2_position,
    };
    TextBlock {
        position,
        anchor: anchor_of(field),
        right_margin: config.tag_x_position_ratio,
        line_spacing: config.line_spacing,
    }
}

/// What is drawn for one field whose lines have the given measures. A field
/// without lines has no placements; the primary quote has a panel where the
/// profile asks for one and one can be drawn, and its text is drawn on top.
pub fn plan_field(
    field: Field,
    canvas: &Canvas,
    props: &ImageProperties,
    config: &Config,
    lines: &Vec<LineMeasure>,
) -> (r: FieldPlan)
    requires
        canvas.wf(),
        lines.len() <= u32::MAX,
    ensures
        spec_is_field_plan(r, field, *canvas, props@, *config, lines@),
{
    let block = block_of(field, props, config);
    let panel = match field {
        Field::Quote => {
            if config.draw_box_around_quote {
                let text_box = bounding_box(lines, block.anchor, block.line_spacing);
                plan_panel(canvas, block.position, text_box)
            } else {
                None
            }
        },
        _ => None,
    };
    let color: [u8; 4] = match block.anchor {
        Anchor::Center => [255, 255, 255, 100],
        Anchor::Right => [255, 255, 255, 255],
    };
    proof {
        assert(color@ =~= spec_text_color(field));
    }
    FieldPlan {
        field,
        font_size: font_size_of(field, canvas.height, config),
        color,
        panel,
        lines: place_lines(canvas, &block, lines),
    }
}

/// The lines of a field among the measures of all fields.
pub fn lines_of(field: Field, measures: &FieldMeasures) -> (r: &Vec<LineMeasure>)
    ensures
        r@ == spec_lines(field, *measures),
{
    match field {
        Field::Quote => &measures.quote,
        Field::Subquote => &measures.subquote,
        Field::Subquote2 => &measures.subquote2,
        Field::Tag => &measures.tag,
        Field::Tag2 => &measures.tag2,
    }
}

impl FieldMeasures {
    /// No field has more lines than can be numbered.
    pub open spec fn wf(&self) -> bool {
        &&& self.quote.len() <= u32::MAX
        &&& self.subquote.len() <= u32::MAX
        &&& self.subquote2.len() <= u32::MAX
        &&& self.tag.len() <= u32::MAX
        &&& self.tag2.len() <= u32::MAX
    }
}

/// Plans the whole card: the layer has the colour that the properties give
/// it, and the five fields follow in drawing order, each planned from the
/// measures of its own lines.
pub fn plan_card(
    canvas: &Canvas,
    props: &ImageProperties,
    config: &Config,
    measures: &FieldMeasures,
) -> (r: CardPlan)
    requires
        canvas.wf(),
        measures.wf(),
    ensures
        r.layer@ == props@.translucent_layer_color,
        r.fields.len() == 5,
        forall|i: int|
            0 <= i < 5 ==> spec_is_field_plan(
                #[trigger] r.fields[i],
                spec_drawing_order()[i],
                *canvas,
                props@,
                *config,
                spec_lines(spec_drawing_order()[i], *measures),
            ),
{
    let order = drawing_order();
    let mut fields: Vec<FieldPlan> = Vec::new();
    let mut i: usize = 0;
    while i < 5
        invariant
            canvas.wf(),
            measures.wf(),
            order@ == spec_drawing_order(),
            0 <= i <= 5,
            fields.len() == i,
            forall|k: int|
                0 <= k < i ==> spec_is_field_plan(
                    #[trigger] fields[k],
                    spec_drawing_order()[k],
                    *canvas,
                    props@,
                    *config,
                    spec_lines(spec_drawing_order()[k], *measures),
                ),
        decreases 5 - i,
    {
        let field = order[i];
        let lines = lines_of(field, measures);
        let planned = plan_field(field, canvas, props, config, lines);
        fields.push(planned);
        i = i + 1;
    }
    CardPlan { layer: props.translucent_layer_color, fields }
}

} // verus!
