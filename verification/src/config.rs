//! What the user can configure about the output, and what holds where
//! nothing is configured.

use vstd::hash_map::StringHashMap;
use vstd::prelude::*;

verus! {

/// The format that is used where none is configured.
pub open spec fn spec_default_format() -> Seq<char> {
    "{artist} {separator} {title}"@
}

/// Colours for polybar, by class of output.
pub struct PolybarConfig {
    pub colors: StringHashMap<String>,
}

/// The texts that stand for the states of a track.
#[derive(Debug)]
pub struct TemplateConfig {
    pub playing: String,
    pub paused: String,
    pub liked: String,
}

/// The whole configuration.
pub struct Config {
    pub polybar: PolybarConfig,
    pub format: String,
    pub text_template: TemplateConfig,
}

/// The polybar settings where none are configured: no colours.
pub fn default_polybar_config() -> (polybar: PolybarConfig)
    ensures
        polybar.colors@ == Map::<Seq<char>, String>::empty(),
{
    PolybarConfig { colors: StringHashMap::new() }
}

/// The format where none is configured: artist, separator and title.
pub fn default_format() -> (format: String)
    ensures
        format@ == spec_default_format(),
{
    "{artist} {separator} {title}".to_owned()
}

/// The text for a playing track where a template leaves it out.
pub fn default_playing_text() -> (text: String)
    ensures
        text@ == "\u{f144} "@,
{
    "\u{f144} ".to_owned()
}

/// The text for a paused track where a template leaves it out.
pub fn default_paused_text() -> (text: String)
    ensures
        text@ == "\u{f28b} "@,
{
    "\u{f28b} ".to_owned()
}

/// The text for a liked track where a template leaves it out.
pub fn default_liked_text() -> (text: String)
    ensures
        text@ == "\u{f164} "@,
{
    "\u{f164} ".to_owned()
}

impl PolybarConfig {
    /// Sets the colour for a class of output, in place of any that was set
    /// for it before.
    pub fn set_color(&mut self, class: String, color: String)
        ensures
            final(self).colors@ == old(self).colors@.insert(class@, color),
    {
        self.colors.insert(class, color);
    }

    /// The colour that is set for a class of output.
    pub fn color<'a>(&'a self, class: &str) -> (color: Option<&'a String>)
        ensures
            match color {
                Some(c) => self.colors@.contains_key(class@) && *c == self.colors@[class@],
                None => !self.colors@.contains_key(class@),
            },
    {
        self.colors.get(class)
    }
}

impl Default for PolybarConfig {
    fn default() -> (polybar: Self)
        ensures
            polybar.colors@ == Map::<Seq<char>, String>::empty(),
    {
        default_polybar_config()
    }
}

impl Default for TemplateConfig {
    /// A template without any text: every state is shown by nothing.
    fn default() -> (template: Self)
        ensures
            template.playing@ == Seq::<char>::empty(),
            template.paused@ == Seq::<char>::empty(),
            template.liked@ == Seq::<char>::empty(),
    {
        TemplateConfig { playing: String::new(), paused: String::new(), liked: String::new() }
    }
}

impl Default for Config {
    /// The configuration that holds nothing: no colours, an empty format,
    /// and a template without any text.
    fn default() -> (config: Self)
        ensures
            config.polybar.colors@ == Map::<Seq<char>, String>::empty(),
            config.format@ == Seq::<char>::empty(),
            config.text_template.playing@ == Seq::<char>::empty(),
            config.text_template.paused@ == Seq::<char>::empty(),
            config.text_template.liked@ == Seq::<char>::empty(),
    {
        Config {
            polybar: default_polybar_config(),
            format: String::new(),
            text_template: TemplateConfig::default(),
        }
    }
}

impl TemplateConfig {
    /// The template that a configured table stands for: each text as it is
    /// given, and its default where the table leaves it out.
    pub fn from_parts(
        playing: Option<String>,
        paused: Option<String>,
        liked: Option<String>,
    ) -> (template: Self)
        ensures
            template.playing@ == match playing {
                Some(text) => text@,
                None => "\u{f144} "@,
            },
            template.paused@ == match paused {
                Some(text) => text@,
                None => "\u{f28b} "@,
            },
            template.liked@ == match liked {
                Some(text) => text@,
                None => "\u{f164} "@,
            },
    {
        TemplateConfig {
            playing: match playing {
                Some(text) => text,
                None => default_playing_text(),
            },
            paused: match paused {
                Some(text) => text,
                None => default_paused_text(),
            },
            liked: match liked {
                Some(text) => text,
                None => default_liked_text(),
            },
        }
    }
}

impl Config {
    /// The configuration that a file stands for: each part as the file
    /// gives it; without colours, with the default format and with a
    /// template without any text where the file leaves the part out.
    pub fn from_parts(
        polybar: Option<PolybarConfig>,
        format: Option<String>,
        text_template: Option<TemplateConfig>,
    ) -> (config: Self)
        ensures
            config.polybar.colors@ == match polybar {
                Some(p) => p.colors@,
                None => Map::<Seq<char>, String>::empty(),
            },
            config.format@ == match format {
                Some(f) => f@,
                None => spec_default_format(),
            },
            match text_template {
                Some(t) => config.text_template == t,
                None => config.text_template.playing@ == Seq::<char>::empty()
                    && config.text_template.paused@ == Seq::<char>::empty()
                    && config.text_template.liked@ == Seq::<char>::empty(),
            },
    {
        Config {
            polybar: match polybar {
                Some(p) => p,
                None => default_polybar_config(),
            },
            format: match format {
                Some(f) => f,
                None => default_format(),
            },
            text_template: match text_template {
                Some(t) => t,
                None => TemplateConfig::default(),
            },
        }
    }
}

} // verus!
