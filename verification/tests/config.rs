use post_maker::config::{
    args, default_position, font_size, profile_choice, Args, ArgsError, Config, Platform,
    ProfileChoice, Themes, REFERENCE_HEIGHT,
};
use post_maker::geometry::AspectRatio;
use post_maker::image_info::ImageType;

fn strings(items: &[&str]) -> Vec<String> {
    items.iter().map(|s| s.to_string()).collect()
}

#[test]
fn default_profile_has_the_documented_values() {
    let config = Config::default();
    assert_eq!(config.quote_font, "");
    assert_eq!(config.subquote_font, "");
    assert_eq!(config.subquote2_font, "");
    assert_eq!(config.tag_font, "");
    assert_eq!(config.tag2_font, "");
    assert_eq!(config.quote_font_ratio, 250);
    assert_eq!(config.subquote_font_ratio, 230);
    assert_eq!(config.subquote2_font_ratio, 230);
    assert_eq!(config.tag_font_ratio, 150);
    assert_eq!(config.tag2_font_ratio, 150);
    assert_eq!(config.quote_position_ratio, 700);
    assert_eq!(config.subquote_position_ratio, 800);
    assert_eq!(config.subquote2_position_ratio, 900);
    assert_eq!(config.tag_position_ratio, 500);
    assert_eq!(config.tag2_position_ratio, 950);
    assert_eq!(config.image_ratio, AspectRatio { width: 4, height: 5 });
    assert_eq!(config.color_layer, [20, 22, 25, 197]);
    assert_eq!(config.minimum_width_limit, 650);
    assert_eq!(config.maximum_width_limit, 1080);
    assert_eq!(config.image_format, ImageType::Png);
    assert!(config.is_valid());
}

#[test]
fn a_profile_without_a_ratio_is_not_valid() {
    let mut config = Config::default();
    config.image_ratio = AspectRatio { width: 0, height: 5 };
    assert!(!config.is_valid());
    config.image_ratio = AspectRatio { width: 4, height: 0 };
    assert!(!config.is_valid());
}

#[test]
fn a_profile_without_an_export_width_is_not_valid() {
    let mut config = Config::default();
    config.maximum_width_limit = 0;
    assert!(!config.is_valid());
}

#[test]
fn a_profile_may_put_a_field_below_the_image() {
    let mut config = Config::default();
    config.tag2_position_ratio = 1200;
    config.tag_x_position_ratio = 1001;
    assert!(config.is_valid());
    assert_eq!(default_position(5000, 1200), 6000);
    assert_eq!(default_position(u32::MAX, 1001), u32::MAX);
    assert_eq!(default_position(u32::MAX, u32::MAX), u32::MAX);
}

#[test]
fn font_size_is_the_ratio_at_the_reference_height() {
    assert_eq!(REFERENCE_HEIGHT, 5000);
    assert_eq!(font_size(5000, 250), 250_000);
    assert_eq!(font_size(500, 250), 25_000);
    assert_eq!(font_size(1350, 250), 67_500);
    assert_eq!(font_size(1, 1), 0);
    assert_eq!(font_size(7, 3), 4);
    assert_eq!(font_size(0, 250), 0);
    assert_eq!(font_size(u32::MAX, u32::MAX), 3689348813023923405);
}

#[test]
fn default_position_is_the_ratio_of_the_height() {
    assert_eq!(default_position(5000, 700), 3500);
    assert_eq!(default_position(5000, 950), 4750);
    assert_eq!(default_position(1333, 700), 933);
    assert_eq!(default_position(1333, 1000), 1333);
    assert_eq!(default_position(1333, 0), 0);
    assert_eq!(default_position(u32::MAX, 1000), u32::MAX);
}

#[test]
fn themes_are_named_in_kebab_case() {
    let all = [
        (Themes::Classic, "classic"),
        (Themes::Aero, "aero"),
        (Themes::Metro, "metro"),
        (Themes::AquaClassic, "aqua-classic"),
        (Themes::Greybird, "greybird"),
        (Themes::Blue, "blue"),
        (Themes::Dark, "dark"),
        (Themes::HighContrast, "high-contrast"),
        (Themes::System, "system"),
    ];
    for (theme, name) in all {
        assert_eq!(theme.name(), name);
        assert_eq!(Themes::from_name(name), Some(theme));
    }
    assert_eq!(Themes::from_name("Dark"), None);
    assert_eq!(Themes::from_name(""), None);
    assert_eq!(Themes::from_name("dark "), None);
}

#[test]
fn the_system_theme_follows_the_platform() {
    assert_eq!(Themes::System.resolved(Platform::Windows), Themes::Metro);
    assert_eq!(Themes::System.resolved(Platform::Unix), Themes::Greybird);
    assert_eq!(Themes::System.resolved(Platform::Other), Themes::Classic);
    assert_eq!(Themes::Dark.resolved(Platform::Windows), Themes::Dark);
    assert_eq!(Themes::Aero.resolved(Platform::Unix), Themes::Aero);
}

#[test]
fn an_empty_command_line_asks_for_no_theme() {
    assert_eq!(args(&strings(&[])), Ok(Args { theme: None }));
}

#[test]
fn the_theme_is_read_in_each_of_its_forms() {
    assert_eq!(args(&strings(&["-t", "dark"])), Ok(Args { theme: Some(Themes::Dark) }));
    assert_eq!(args(&strings(&["--theme", "aero"])), Ok(Args { theme: Some(Themes::Aero) }));
    assert_eq!(
        args(&strings(&["--theme=high-contrast"])),
        Ok(Args { theme: Some(Themes::HighContrast) })
    );
    assert_eq!(args(&strings(&["-tblue"])), Ok(Args { theme: Some(Themes::Blue) }));
    assert_eq!(args(&strings(&["-t=metro"])), Ok(Args { theme: Some(Themes::Metro) }));
}

#[test]
fn help_and_version_are_asked_for() {
    assert_eq!(args(&strings(&["-h"])), Err(ArgsError::Help));
    assert_eq!(args(&strings(&["--help"])), Err(ArgsError::Help));
    assert_eq!(args(&strings(&["-V"])), Err(ArgsError::Version));
    assert_eq!(args(&strings(&["--version"])), Err(ArgsError::Version));
    assert_eq!(args(&strings(&["-t", "dark", "--help"])), Err(ArgsError::Help));
}

#[test]
fn a_wrong_command_line_is_refused() {
    assert_eq!(args(&strings(&["dark"])), Err(ArgsError::UnknownArgument(0)));
    assert_eq!(args(&strings(&["-t", "dark", "x"])), Err(ArgsError::UnknownArgument(2)));
    assert_eq!(args(&strings(&["--theme"])), Err(ArgsError::MissingValue));
    assert_eq!(args(&strings(&["-t"])), Err(ArgsError::MissingValue));
    assert_eq!(args(&strings(&["-t", "night"])), Err(ArgsError::InvalidTheme(1)));
    assert_eq!(args(&strings(&["--theme=night"])), Err(ArgsError::InvalidTheme(0)));
    assert_eq!(args(&strings(&["--theme="])), Err(ArgsError::InvalidTheme(0)));
    assert_eq!(args(&strings(&["-t", "dark", "-t", "aero"])), Err(ArgsError::Repeated(2)));
    assert_eq!(args(&strings(&["-t", "dark", "--theme=aero"])), Err(ArgsError::Repeated(2)));
    assert_eq!(args(&strings(&["--Theme", "dark"])), Err(ArgsError::UnknownArgument(0)));
    assert_eq!(args(&strings(&["-tnight"])), Err(ArgsError::InvalidTheme(0)));
    assert_eq!(args(&strings(&["-t="])), Err(ArgsError::InvalidTheme(0)));
    assert_eq!(args(&strings(&["-x"])), Err(ArgsError::UnknownArgument(0)));
    assert_eq!(args(&strings(&["--themes=dark"])), Err(ArgsError::UnknownArgument(0)));
    assert_eq!(args(&strings(&["-tdark", "-taero"])), Err(ArgsError::Repeated(1)));
}

#[test]
fn the_value_of_the_theme_is_not_read_as_an_option() {
    assert_eq!(args(&strings(&["-t", "-h"])), Err(ArgsError::InvalidTheme(1)));
}

#[test]
fn the_first_profile_is_made_where_none_is_stored() {
    assert_eq!(profile_choice(&strings(&[]), "default"), ProfileChoice::Fresh);
}

#[test]
fn the_one_stored_profile_is_used_under_the_current_name() {
    assert_eq!(profile_choice(&strings(&["default"]), "default"), ProfileChoice::Stored);
}

#[test]
fn the_user_picks_among_several_profiles_or_another_name() {
    assert_eq!(profile_choice(&strings(&["square"]), "default"), ProfileChoice::Ask);
    assert_eq!(profile_choice(&strings(&["default", "square"]), "default"), ProfileChoice::Ask);
    assert_eq!(profile_choice(&strings(&["a", "b"]), "default"), ProfileChoice::Ask);
}
