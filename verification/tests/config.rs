use spotifatius::config::{
    default_format, default_liked_text, default_paused_text, default_playing_text,
    default_polybar_config, Config, PolybarConfig, TemplateConfig,
};

#[test]
fn default_format_shows_artist_separator_and_title() {
    assert_eq!(default_format(), "{artist} {separator} {title}");
}

#[test]
fn default_texts_are_an_icon_and_a_space() {
    assert_eq!(default_playing_text(), "\u{f144} ");
    assert_eq!(default_paused_text(), "\u{f28b} ");
    assert_eq!(default_liked_text(), "\u{f164} ");
}

#[test]
fn default_polybar_config_has_no_colours() {
    let polybar = default_polybar_config();
    assert!(polybar.color("playing").is_none());
    assert!(PolybarConfig::default().color("liked").is_none());
}

#[test]
fn colours_are_looked_up_by_class() {
    let mut polybar = default_polybar_config();
    polybar.set_color("playing".to_string(), "#fff".to_string());
    polybar.set_color("paused".to_string(), "#888".to_string());
    assert_eq!(polybar.color("playing"), Some(&"#fff".to_string()));
    assert_eq!(polybar.color("paused"), Some(&"#888".to_string()));
    assert_eq!(polybar.color("liked"), None);
    polybar.set_color("playing".to_string(), "#000".to_string());
    assert_eq!(polybar.color("playing"), Some(&"#000".to_string()));
}

#[test]
fn default_values_are_empty() {
    let template = TemplateConfig::default();
    assert_eq!(template.playing, "");
    assert_eq!(template.paused, "");
    assert_eq!(template.liked, "");
    let config = Config::default();
    assert_eq!(config.format, "");
    assert_eq!(config.text_template.playing, "");
    assert!(config.polybar.color("playing").is_none());
}

#[test]
fn template_takes_defaults_for_what_is_left_out() {
    let all = TemplateConfig::from_parts(None, None, None);
    assert_eq!(all.playing, "\u{f144} ");
    assert_eq!(all.paused, "\u{f28b} ");
    assert_eq!(all.liked, "\u{f164} ");
    let some = TemplateConfig::from_parts(Some("play".to_string()), None, Some("".to_string()));
    assert_eq!(some.playing, "play");
    assert_eq!(some.paused, "\u{f28b} ");
    assert_eq!(some.liked, "");
}

#[test]
fn empty_file_stands_for_the_default_format_and_an_empty_template() {
    let config = Config::from_parts(None, None, None);
    assert_eq!(config.format, "{artist} {separator} {title}");
    assert_eq!(config.text_template.playing, "");
    assert_eq!(config.text_template.paused, "");
    assert_eq!(config.text_template.liked, "");
    assert!(config.polybar.color("playing").is_none());
}

#[test]
fn configured_parts_are_taken_as_they_are() {
    let mut polybar = PolybarConfig::default();
    polybar.set_color("liked".to_string(), "#f00".to_string());
    let template = TemplateConfig::from_parts(Some("a".to_string()), Some("b".to_string()), None);
    let config = Config::from_parts(Some(polybar), Some("{title}".to_string()), Some(template));
    assert_eq!(config.format, "{title}");
    assert_eq!(config.text_template.playing, "a");
    assert_eq!(config.text_template.paused, "b");
    assert_eq!(config.text_template.liked, "\u{f164} ");
    assert_eq!(config.polybar.color("liked"), Some(&"#f00".to_string()));
}
