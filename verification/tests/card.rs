use post_maker::card::{
    anchor_of, block_of, drawing_order, font_of, font_size_of, lines_of, plan_card, plan_field,
    FieldMeasures,
};
use post_maker::config::Config;
use post_maker::layout::{Anchor, Canvas, LineMeasure, LinePlacement, TextBlock};
use post_maker::properties::{Field, ImageProperties};

fn preview() -> Canvas {
    Canvas { width: 400, height: 500, original_width: 4000, original_height: 5000 }
}

fn opened() -> ImageProperties {
    let mut props = ImageProperties::default();
    props.open(4000, 5000, &Config::default());
    props.translucent_layer_color = [20, 22, 25, 197];
    props
}

fn measures() -> FieldMeasures {
    FieldMeasures {
        quote: vec![
            LineMeasure { width: 100_500, height: 30_500 },
            LineMeasure { width: 120_250, height: 30_500 },
        ],
        subquote: vec![LineMeasure { width: 50_000, height: 28_000 }],
        subquote2: Vec::new(),
        tag: vec![LineMeasure { width: 40_000, height: 18_000 }],
        tag2: vec![LineMeasure { width: 30_000, height: 18_000 }],
    }
}

#[test]
fn the_fields_are_drawn_in_their_order() {
    assert_eq!(
        drawing_order(),
        [Field::Quote, Field::Subquote, Field::Subquote2, Field::Tag2, Field::Tag]
    );
}

#[test]
fn quotes_are_centred_and_tags_right_anchored() {
    assert_eq!(anchor_of(Field::Quote), Anchor::Center);
    assert_eq!(anchor_of(Field::Subquote), Anchor::Center);
    assert_eq!(anchor_of(Field::Subquote2), Anchor::Center);
    assert_eq!(anchor_of(Field::Tag), Anchor::Right);
    assert_eq!(anchor_of(Field::Tag2), Anchor::Right);
}

#[test]
fn each_field_has_its_font_and_size() {
    let mut config = Config::default();
    config.quote_font = "q.ttf".to_string();
    config.subquote_font = "s.ttf".to_string();
    config.subquote2_font = "s2.ttf".to_string();
    config.tag_font = "t.ttf".to_string();
    config.tag2_font = "t2.ttf".to_string();
    config.subquote2_font_ratio = 231;
    config.tag2_font_ratio = 151;
    assert_eq!(font_of(Field::Quote, &config), "q.ttf");
    assert_eq!(font_of(Field::Subquote, &config), "s.ttf");
    assert_eq!(font_of(Field::Subquote2, &config), "s2.ttf");
    assert_eq!(font_of(Field::Tag, &config), "t.ttf");
    assert_eq!(font_of(Field::Tag2, &config), "t2.ttf");
    assert_eq!(font_size_of(Field::Quote, 500, &config), 25_000);
    assert_eq!(font_size_of(Field::Subquote, 500, &config), 23_000);
    assert_eq!(font_size_of(Field::Subquote2, 500, &config), 23_100);
    assert_eq!(font_size_of(Field::Tag, 500, &config), 15_000);
    assert_eq!(font_size_of(Field::Tag2, 500, &config), 15_100);
    assert_eq!(font_size_of(Field::Quote, 1350, &config), 67_500);
}

#[test]
fn a_field_is_set_as_properties_and_profile_say() {
    let mut config = Config::default();
    config.tag_x_position_ratio = 900;
    config.line_spacing = false;
    let props = opened();
    assert_eq!(
        block_of(Field::Quote, &props, &config),
        TextBlock { position: 3500, anchor: Anchor::Center, right_margin: 900, line_spacing: false }
    );
    assert_eq!(
        block_of(Field::Tag2, &props, &config),
        TextBlock { position: 4750, anchor: Anchor::Right, right_margin: 900, line_spacing: false }
    );
    assert_eq!(block_of(Field::Subquote, &props, &config).position, 4000);
    assert_eq!(block_of(Field::Subquote2, &props, &config).position, 4500);
    assert_eq!(block_of(Field::Tag, &props, &config).position, 2500);
}

#[test]
fn the_lines_of_a_field_are_its_own() {
    let all = measures();
    assert_eq!(lines_of(Field::Quote, &all), &all.quote);
    assert_eq!(lines_of(Field::Subquote, &all), &all.subquote);
    assert_eq!(lines_of(Field::Subquote2, &all), &all.subquote2);
    assert_eq!(lines_of(Field::Tag, &all), &all.tag);
    assert_eq!(lines_of(Field::Tag2, &all), &all.tag2);
}

#[test]
fn a_quote_without_a_panel_is_only_text() {
    let config = Config::default();
    let plan = plan_field(Field::Quote, &preview(), &opened(), &config, &measures().quote);
    assert_eq!(plan.field, Field::Quote);
    assert_eq!(plan.font_size, 25_000);
    assert_eq!(plan.color, [255, 255, 255, 100]);
    assert_eq!(plan.panel, None);
    assert_eq!(
        plan.lines,
        vec![LinePlacement { x: 149, y: 350 }, LinePlacement { x: 139, y: 384 }]
    );
}

#[test]
fn the_quote_has_a_panel_where_the_profile_asks_for_one() {
    let mut config = Config::default();
    config.draw_box_around_quote = true;
    let plan = plan_field(Field::Quote, &preview(), &opened(), &config, &measures().quote);
    let panel = plan.panel.unwrap();
    // box 120.25 x (30.5 + 30.5 * 1.12) = 120.25 x 64.66
    assert_eq!((panel.panel.x, panel.panel.y), (136, 349));
    assert_eq!((panel.panel.width, panel.panel.height), (126, 66));
    assert_eq!(
        plan.lines,
        vec![LinePlacement { x: 149, y: 350 }, LinePlacement { x: 139, y: 384 }]
    );
}

#[test]
fn no_other_field_has_a_panel() {
    let mut config = Config::default();
    config.draw_box_around_quote = true;
    for field in [Field::Subquote, Field::Subquote2, Field::Tag, Field::Tag2] {
        let plan = plan_field(field, &preview(), &opened(), &config, &measures().quote);
        assert_eq!(plan.panel, None);
        assert_eq!(plan.lines.len(), 2);
    }
}

#[test]
fn an_empty_quote_has_neither_panel_nor_lines() {
    let mut config = Config::default();
    config.draw_box_around_quote = true;
    let plan = plan_field(Field::Quote, &preview(), &opened(), &config, &Vec::new());
    assert_eq!(plan.panel, None);
    assert_eq!(plan.lines, Vec::<LinePlacement>::new());
}

#[test]
fn the_card_has_the_layer_and_the_five_fields() {
    let config = Config::default();
    let plan = plan_card(&preview(), &opened(), &config, &measures());
    assert_eq!(plan.layer, [20, 22, 25, 197]);
    assert_eq!(plan.fields.len(), 5);
    let fields: Vec<Field> = plan.fields.iter().map(|f| f.field).collect();
    assert_eq!(
        fields,
        vec![Field::Quote, Field::Subquote, Field::Subquote2, Field::Tag2, Field::Tag]
    );
    assert_eq!(plan.fields[0].lines.len(), 2);
    assert_eq!(plan.fields[1].lines, vec![LinePlacement { x: 175, y: 400 }]);
    assert_eq!(plan.fields[1].font_size, 23_000);
    assert_eq!(plan.fields[2].lines, Vec::<LinePlacement>::new());
    assert_eq!(plan.fields[3].lines, vec![LinePlacement { x: 350, y: 475 }]);
    assert_eq!(plan.fields[3].color, [255, 255, 255, 255]);
    assert_eq!(plan.fields[3].font_size, 15_000);
    assert_eq!(plan.fields[4].lines, vec![LinePlacement { x: 340, y: 250 }]);
    assert_eq!(plan.fields[4].color, [255, 255, 255, 255]);
    for field in &plan.fields {
        assert_eq!(field.panel, None);
    }
}
