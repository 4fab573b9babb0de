//! Turning a published snapshot into the text that a status bar shows.

use crate::api::{status_name, MonitorResponse, MonitorResponseView, TrackStatus};
use crate::config::{Config, TemplateConfig};
use crate::text::{replace, replace_all};
use vstd::prelude::*;
use vstd::string::StringExecFns;

verus! {

/// What a status bar is given: a text, a tooltip, and the classes by which
/// the bar styles the text.
#[derive(Debug)]
pub struct Output {
    pub text: String,
    pub tooltip: Option<String>,
    pub class: Option<Vec<String>>,
}

/// The mathematical value of an [`Output`].
pub struct OutputView {
    pub text: Seq<char>,
    pub tooltip: Option<Seq<char>>,
    pub class: Option<Seq<Seq<char>>>,
}

/// The texts of a list of strings.
pub open spec fn texts(items: Seq<String>) -> Seq<Seq<char>> {
    Seq::new(items.len(), |i: int| items[i]@)
}

impl View for Output {
    type V = OutputView;

    open spec fn view(&self) -> OutputView {
        OutputView {
            text: self.text@,
            tooltip: match self.tooltip {
                Some(t) => Some(t@),
                None => None,
            },
            class: match self.class {
                Some(c) => Some(texts(c@)),
                None => None,
            },
        }
    }
}

impl Default for Output {
    /// The output that shows nothing.
    fn default() -> (output: Self)
        ensures
            output@ == (OutputView { text: Seq::empty(), tooltip: None, class: None }),
    {
        Output { text: String::new(), tooltip: None, class: None }
    }
}

/// The status bar that the output is written for.
#[derive(Clone, Copy, Debug, PartialEq, Eq, Structural)]
pub enum OutputType {
    Waybar,
    Polybar,
}

/// Formats snapshots for one kind of status bar, after one configuration.
pub struct OutputFormatter {
    pub output_type: OutputType,
    pub config: Config,
}

/// The text that shows the status of a track that has an artist and a
/// title: the template's text for a playing or a paused track, and nothing
/// for any other status.
pub open spec fn status_icon(template: TemplateConfig, status: TrackStatus) -> Seq<char> {
    match status {
        TrackStatus::Playing => template.playing@,
        TrackStatus::Paused => template.paused@,
        _ => Seq::empty(),
    }
}

/// A format with its five placeholders filled in, in this order: artist,
/// title, separator, status, liked. A placeholder that a value brings in is
/// filled by the values after it.
pub open spec fn fill(
    format: Seq<char>,
    artist: Seq<char>,
    title: Seq<char>,
    separator: Seq<char>,
    status: Seq<char>,
    liked: Seq<char>,
) -> Seq<char> {
    replace_all(
        replace_all(
            replace_all(
                replace_all(replace_all(format, "{artist}"@, artist), "{title}"@, title),
                "{separator}"@,
                separator,
            ),
            "{status}"@,
            status,
        ),
        "{liked}"@,
        liked,
    )
}

/// What is shown for a snapshot.
///
/// A snapshot with a track shows the filled-in format if the track has both
/// artist and title, else whichever of the two it has; the album is the
/// tooltip; the classes are "liked", if the track is known to be liked, and
/// the name of the status. A snapshot without a track shows a message if the
/// status says that a track was added or removed, and nothing otherwise.
pub open spec fn formatted(
    template: TemplateConfig,
    response: MonitorResponseView,
    status: TrackStatus,
    format: Seq<char>,
) -> OutputView {
    match response.track {
        Some(track) => {
            let liked = response.is_liked == Some(true);
            OutputView {
                text: match (track.artist, track.title) {
                    (Some(artist), Some(title)) => fill(
                        format,
                        artist,
                        title,
                        if liked {
                            "+"@
                        } else {
                            "-"@
                        },
                        status_icon(template, status),
                        if liked {
                            template.liked@
                        } else {
                            Seq::empty()
                        },
                    ),
                    (Some(artist), None) => artist,
                    (None, Some(title)) => title,
                    (None, None) => Seq::empty(),
                },
                tooltip: track.album,
                class: Some(
                    if liked {
                        seq!["liked"@, status_name(status)]
                    } else {
                        seq![status_name(status)]
                    },
                ),
            }
        },
        None => if status == TrackStatus::Added {
            OutputView {
                text: "Added to library!"@,
                tooltip: None,
                class: Some(seq![status_name(status)]),
            }
        } else if status == TrackStatus::Removed {
            OutputView {
                text: "Removed from library!"@,
                tooltip: None,
                class: Some(seq![status_name(status)]),
            }
        } else {
            OutputView { text: Seq::empty(), tooltip: None, class: None }
        },
    }
}

/// What the user is told after a toggle: that the track was added, or that
/// it was removed.
pub fn toggle_message(is_liked: bool) -> (message: String)
    ensures
        message@ == if is_liked {
            "Added to library!"@
        } else {
            "Removed from library!"@
        },
{
    if is_liked {
        "Added to library!".to_owned()
    } else {
        "Removed from library!".to_owned()
    }
}

impl OutputFormatter {
    /// Formats one snapshot. `status` is the status to show and
    /// `output_format` the format to fill in.
    pub fn format_output(
        &self,
        response: MonitorResponse,
        status: TrackStatus,
        output_format: &str,
    ) -> (output: Output)
        ensures
            output@ == formatted(self.config.text_template, response@, status, output_format@),
    {
        let text_template = &self.config.text_template;
        let liked = match response.is_liked {
            Some(l) => l,
            None => false,
        };
        if let Some(track) = response.track {
            let mut class: Vec<String> = Vec::new();
            let mut separator = "-";
            if liked {
                class.push("liked".to_owned());
                separator = "+";
            }
            class.push(status.name());
            let text = match (track.artist, track.title) {
                (Some(artist), Some(title)) => {
                    let status_text = match status {
                        TrackStatus::Playing => text_template.playing.as_str(),
                        TrackStatus::Paused => text_template.paused.as_str(),
                        _ => "",
                    };
                    let liked_text = if liked {
                        text_template.liked.as_str()
                    } else {
                        ""
                    };
                    proof {
                        reveal_strlit("");
                        assert(""@ == Seq::<char>::empty());
                    }
                    let with_artist = replace(output_format, "{artist}", artist.as_str());
                    let with_title = replace(with_artist.as_str(), "{title}", title.as_str());
                    let with_separator = replace(with_title.as_str(), "{separator}", separator);
                    let with_status = replace(with_separator.as_str(), "{status}", status_text);
                    replace(with_status.as_str(), "{liked}", liked_text)
                },
                (Some(artist), None) => artist,
                (None, Some(title)) => title,
                (None, None) => String::new(),
            };
            assert(texts(class@) == if liked {
                seq!["liked"@, status_name(status)]
            } else {
                seq![status_name(status)]
            });
            Output { text, tooltip: track.album, class: Some(class) }
        } else if status == TrackStatus::Added {
            let mut class: Vec<String> = Vec::new();
            class.push(status.name());
            assert(texts(class@) == seq![status_name(status)]);
            Output { text: "Added to library!".to_owned(), tooltip: None, class: Some(class) }
        } else if status == TrackStatus::Removed {
            let mut class: Vec<String> = Vec::new();
            class.push(status.name());
            assert(texts(class@) == seq![status_name(status)]);
            Output { text: "Removed from library!".to_owned(), tooltip: None, class: Some(class) }
        } else {
            Output { text: String::new(), tooltip: None, class: None }
        }
    }
}

/// What stands for one character in HTML text: `&`, `<` and `>` are
/// written as entities, every other character as itself.
pub open spec fn escaped_char(c: char) -> Seq<char> {
    if c == '&' {
        seq!['&', 'a', 'm', 'p', ';']
    } else if c == '<' {
        seq!['&', 'l', 't', ';']
    } else if c == '>' {
        seq!['&', 'g', 't', ';']
    } else {
        seq![c]
    }
}

/// A text as it is written inside HTML text.
pub open spec fn html_escaped(text: Seq<char>) -> Seq<char>
    decreases text.len(),
{
    if text.len() == 0 {
        Seq::empty()
    } else {
        escaped_char(text[0]) + html_escaped(text.drop_first())
    }
}

/// `html_escape::encode_text` writes `&` as `&amp;`, `<` as `&lt;` and `>`
/// as `&gt;`, and copies every other character.
#[verifier::external_body]
fn encode_text(text: &str) -> (out: String)
    ensures
        out@ == html_escaped(text@),
{
    html_escape::encode_text(text).into_owned()
}

/// The colour of the first class that has one; no colour if none has.
pub open spec fn first_color(colors: Map<Seq<char>, String>, classes: Seq<Seq<char>>) -> Seq<char>
    decreases classes.len(),
{
    if classes.len() == 0 {
        Seq::empty()
    } else if colors.contains_key(classes[0]) {
        colors[classes[0]]@
    } else {
        first_color(colors, classes.drop_first())
    }
}

/// A text in a colour, in polybar's notation.
pub open spec fn polybar_line(color: Seq<char>, text: Seq<char>) -> Seq<char> {
    "%{F"@ + color + "}"@ + text + "%{F-}"@
}

/// An output made ready for its status bar.
#[derive(Debug)]
pub enum Rendered {
    /// For waybar: the output, to be written as one JSON object.
    Json(Output),
    /// For polybar: the line, to be written as it is.
    Line(String),
}

/// What is written for an output.
///
/// For waybar it is the output itself, its text escaped for HTML. For
/// polybar it is the text in the colour of the first of its classes for
/// which a colour is configured.
pub open spec fn rendered(
    output_type: OutputType,
    colors: Map<Seq<char>, String>,
    output: OutputView,
) -> RenderedView {
    match output_type {
        OutputType::Waybar => RenderedView::Json(
            OutputView { text: html_escaped(output.text), ..output },
        ),
        OutputType::Polybar => RenderedView::Line(
            polybar_line(
                first_color(
                    colors,
                    match output.class {
                        Some(classes) => classes,
                        None => Seq::empty(),
                    },
                ),
                output.text,
            ),
        ),
    }
}

/// The mathematical value of a [`Rendered`].
pub enum RenderedView {
    Json(OutputView),
    Line(Seq<char>),
}

impl View for Rendered {
    type V = RenderedView;

    open spec fn view(&self) -> RenderedView {
        match self {
            Rendered::Json(output) => RenderedView::Json(output@),
            Rendered::Line(line) => RenderedView::Line(line@),
        }
    }
}

impl OutputFormatter {
    /// The colour of the first class that has one; no colour if none has.
    fn color_of(&self, classes: &Vec<String>) -> (color: String)
        ensures
            color@ == first_color(self.config.polybar.colors@, texts(classes@)),
    {
        let mut i: usize = 0;
        assert(texts(classes@).skip(0) == texts(classes@));
        while i < classes.len()
            invariant
                i <= classes.len(),
                first_color(self.config.polybar.colors@, texts(classes@)) == first_color(
                    self.config.polybar.colors@,
                    texts(classes@).skip(i as int),
                ),
            decreases classes.len() - i,
        {
            assert(texts(classes@).skip(i as int)[0] == classes@[i as int]@);
            if let Some(color) = self.config.polybar.color(classes[i].as_str()) {
                return color.clone();
            }
            assert(texts(classes@).skip(i as int).drop_first() == texts(classes@).skip(i + 1));
            i += 1;
        }
        String::new()
    }

    /// Makes an output ready to be written for the formatter's status bar.
    pub fn render(&self, output: Output) -> (out: Rendered)
        ensures
            out@ == rendered(self.output_type, self.config.polybar.colors@, output@),
    {
        match self.output_type {
            OutputType::Waybar => {
                let text = encode_text(output.text.as_str());
                Rendered::Json(Output { text, tooltip: output.tooltip, class: output.class })
            },
            OutputType::Polybar => {
                let color = match &output.class {
                    Some(classes) => self.color_of(classes),
                    None => {
                        assert(texts(Seq::<String>::empty()) == Seq::<Seq<char>>::empty());
                        String::new()
                    },
                };
                let mut line = "%{F".to_owned();
                line.append(color.as_str());
                line.append("}");
                line.append(output.text.as_str());
                line.append("%{F-}");
                Rendered::Line(line)
            },
        }
    }
}

} // verus!
