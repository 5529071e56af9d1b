//! The settings of a capture session: their defaults, their text form and
//! how they are read from it.

use vstd::prelude::*;
use vstd::string::*;
use crate::text::{decimal, decimal_text};

verus! {

/// How often an encoded clip plays.
#[derive(Debug, Clone, Copy, PartialEq, Eq, Structural)]
pub enum Repeat {
    /// This many times after the first.
    Finite(u16),
    /// Without end.
    Infinite,
}

/// The settings of a session.
#[derive(Debug, Clone)]
pub struct Config {
    /// Quality of the encoded clip, 0 to 100.
    pub quality: u8,
    /// Whether the encoder trades quality for speed.
    pub fast: bool,
    /// How often the clip plays.
    pub repeat: Repeat,
    /// Frames per second aimed at.
    pub fps: u32,
    /// Length of the rolling window in seconds.
    pub duration: usize,
    /// Width of the encoded clip.
    pub width: u32,
    /// Height of the encoded clip.
    pub height: u32,
    /// Directory that clips are written to, with its trailing separator.
    pub path: String,
    /// Which display is captured: 0 the primary, 1 the second, and so on.
    pub display: usize,
}

/// A setting that a settings file gives.
#[derive(Debug, Clone, Copy, PartialEq, Eq, Structural)]
pub enum Field {
    Quality,
    Fast,
    Repeat,
    Fps,
    Duration,
    Width,
    Height,
    Path,
    Display,
}

/// Why settings could not be read.
#[derive(Debug, Clone, Copy, PartialEq, Eq, Structural)]
pub enum ConfigError {
    /// The text is not YAML.
    Malformed,
    /// The text holds no document.
    NoDocument,
    /// The document lacks the setting, or gives it another type. The speed
    /// and the repeat mode may be left out, so for them it is the type.
    Missing(Field),
    /// The setting is negative, beyond its range, or a word that it does
    /// not know.
    OutOfRange(Field),
}

/// What a session starts from: the settings, and the text of a settings
/// file to write where none was found.
#[derive(Debug)]
pub struct Loaded {
    pub config: Config,
    pub write_back: Option<String>,
}

/// What a settings file holds under a key, as far as settings go.
#[derive(Debug)]
pub enum Entry {
    Integer(i64),
    Text(String),
    Boolean(bool),
    /// Nothing: the key is not there.
    Absent,
    /// Something that no setting is made of.
    Other,
}

/// An `Entry` as a plain value.
pub enum EntryView {
    Integer(i64),
    Text(Seq<char>),
    Boolean(bool),
    Absent,
    Other,
}

impl View for Entry {
    type V = EntryView;

    open spec fn view(&self) -> EntryView {
        match *self {
            Entry::Integer(value) => EntryView::Integer(value),
            Entry::Text(text) => EntryView::Text(text@),
            Entry::Boolean(value) => EntryView::Boolean(value),
            Entry::Absent => EntryView::Absent,
            Entry::Other => EntryView::Other,
        }
    }
}

/// What is wrong with a number read for `field`, if anything.
pub open spec fn field_fault(value: Option<i64>, max: int, field: Field) -> Option<ConfigError> {
    match value {
        None => Some(ConfigError::Missing(field)),
        Some(v) => if 0 <= v <= max {
            None
        } else {
            Some(ConfigError::OutOfRange(field))
        },
    }
}

/// Whether the encoder trades quality for speed, as an entry states it. It
/// does where nothing is stated.
pub open spec fn fast_of(entry: EntryView) -> Result<bool, ConfigError> {
    match entry {
        EntryView::Boolean(fast) => Ok(fast),
        EntryView::Absent => Ok(true),
        _ => Err(ConfigError::Missing(Field::Fast)),
    }
}

/// The repeat mode that an entry states: a count of repetitions, the word
/// `infinite`, or the word `once` for no repetition. A clip repeats without
/// end where nothing is stated.
pub open spec fn repeat_of(entry: EntryView) -> Result<Repeat, ConfigError> {
    match entry {
        EntryView::Absent => Ok(Repeat::Infinite),
        EntryView::Integer(count) => if 0 <= count <= u16::MAX {
            Ok(Repeat::Finite(count as u16))
        } else {
            Err(ConfigError::OutOfRange(Field::Repeat))
        },
        EntryView::Text(word) => if word == "infinite"@ {
            Ok(Repeat::Infinite)
        } else if word == "once"@ {
            Ok(Repeat::Finite(0))
        } else {
            Err(ConfigError::OutOfRange(Field::Repeat))
        },
        _ => Err(ConfigError::Missing(Field::Repeat)),
    }
}

/// The first fault among the settings read, in the order of the file.
pub open spec fn first_fault(
    quality: Option<i64>,
    fast: EntryView,
    repeat: EntryView,
    fps: Option<i64>,
    duration: Option<i64>,
    width: Option<i64>,
    height: Option<i64>,
    has_path: bool,
    display: Option<i64>,
) -> Option<ConfigError> {
    if field_fault(quality, 100, Field::Quality) is Some {
        field_fault(quality, 100, Field::Quality)
    } else if fast_of(fast) is Err {
        Some(fast_of(fast)->Err_0)
    } else if repeat_of(repeat) is Err {
        Some(repeat_of(repeat)->Err_0)
    } else if field_fault(fps, u32::MAX as int, Field::Fps) is Some {
        field_fault(fps, u32::MAX as int, Field::Fps)
    } else if field_fault(duration, usize::MAX as int, Field::Duration) is Some {
        field_fault(duration, usize::MAX as int, Field::Duration)
    } else if field_fault(width, u32::MAX as int, Field::Width) is Some {
        field_fault(width, u32::MAX as int, Field::Width)
    } else if field_fault(height, u32::MAX as int, Field::Height) is Some {
        field_fault(height, u32::MAX as int, Field::Height)
    } else if !has_path {
        Some(ConfigError::Missing(Field::Path))
    } else {
        field_fault(display, usize::MAX as int, Field::Display)
    }
}

/// Whether `made` is what the settings read amount to: their first fault,
/// or the settings themselves.
pub open spec fn is_config_of(
    made: Result<Config, ConfigError>,
    quality: Option<i64>,
    fast: EntryView,
    repeat: EntryView,
    fps: Option<i64>,
    duration: Option<i64>,
    width: Option<i64>,
    height: Option<i64>,
    path: Option<Seq<char>>,
    display: Option<i64>,
) -> bool {
    match first_fault(quality, fast, repeat, fps, duration, width, height, path is Some, display) {
        Some(fault) => made == Err::<Config, ConfigError>(fault),
        None => {
            &&& made matches Ok(c)
            &&& c.quality == quality.unwrap()
            &&& Ok::<bool, ConfigError>(c.fast) == fast_of(fast)
            &&& Ok::<Repeat, ConfigError>(c.repeat) == repeat_of(repeat)
            &&& c.fps == fps.unwrap()
            &&& c.duration == duration.unwrap()
            &&& c.width == width.unwrap()
            &&& c.height == height.unwrap()
            &&& c.path@ == path.unwrap()
            &&& c.display == display.unwrap()
        },
    }
}

/// A repeat mode as a settings file states it.
pub open spec fn repeat_text(repeat: Repeat) -> Seq<char> {
    match repeat {
        Repeat::Finite(count) => decimal_text(count as nat),
        Repeat::Infinite => "infinite"@,
    }
}

/// A yes or no as a settings file states it.
pub open spec fn bool_text(value: bool) -> Seq<char> {
    if value {
        "true"@
    } else {
        "false"@
    }
}

/// The text of a settings file: one line for each setting.
pub open spec fn yaml_text(
    quality: nat,
    fast: bool,
    repeat: Repeat,
    fps: nat,
    duration: nat,
    width: nat,
    height: nat,
    path: Seq<char>,
    display: nat,
) -> Seq<char> {
    "quality: "@ + decimal_text(quality) + "\nfast: "@ + bool_text(fast) + "\nrepeat: "@
        + repeat_text(repeat) + "\nfps: "@ + decimal_text(fps) + "\nduration: "@ + decimal_text(
        duration,
    ) + "\nwidth: "@ + decimal_text(width) + "\nheight: "@ + decimal_text(height) + "\npath: "@
        + path + "\ndisplay: "@ + decimal_text(display) + "\n"@
}

fn check_field(value: Option<i64>, max: u64, field: Field) -> (checked: Result<u64, ConfigError>)
    ensures
        checked is Ok <==> field_fault(value, max as int, field) is None,
        checked matches Ok(v) ==> value is Some && value.unwrap() == v && v <= max,
        checked matches Err(e) ==> field_fault(value, max as int, field) == Some(e),
{
    match value {
        None => Err(ConfigError::Missing(field)),
        Some(v) => {
            if v >= 0 && v as u64 <= max {
                Ok(v as u64)
            } else {
                Err(ConfigError::OutOfRange(field))
            }
        },
    }
}

/// Whether the encoder trades quality for speed, as an entry states it.
pub fn fast_from(entry: &Entry) -> (made: Result<bool, ConfigError>)
    ensures
        made == fast_of(entry@),
{
    match entry {
        Entry::Boolean(fast) => Ok(*fast),
        Entry::Absent => Ok(true),
        _ => Err(ConfigError::Missing(Field::Fast)),
    }
}

/// The repeat mode that an entry states.
pub fn repeat_from(entry: &Entry) -> (made: Result<Repeat, ConfigError>)
    ensures
        made == repeat_of(entry@),
{
    match entry {
        Entry::Absent => Ok(Repeat::Infinite),
        Entry::Integer(count) => {
            if 0 <= *count && *count <= 65535 {
                Ok(Repeat::Finite(*count as u16))
            } else {
                Err(ConfigError::OutOfRange(Field::Repeat))
            }
        },
        Entry::Text(word) => {
            let infinite = String::from_str("infinite");
            let once = String::from_str("once");
            if *word == infinite {
                Ok(Repeat::Infinite)
            } else if *word == once {
                Ok(Repeat::Finite(0))
            } else {
                Err(ConfigError::OutOfRange(Field::Repeat))
            }
        },
        _ => Err(ConfigError::Missing(Field::Repeat)),
    }
}

impl Config {
    /// The settings of a session for which nothing was configured: best
    /// quality, fast, repeating without end, 60 frames per second kept for
    /// 3 seconds, 640 by 360, written to `./tmp/`, from the primary display.
    pub fn defaults() -> (config: Config)
        ensures
            config.quality == 100,
            config.fast,
            config.repeat == Repeat::Infinite,
            config.fps == 60,
            config.duration == 3,
            config.width == 640,
            config.height == 360,
            config.path@ == "./tmp/"@,
            config.display == 0,
    {
        Config {
            quality: 100,
            fast: true,
            repeat: Repeat::Infinite,
            fps: 60,
            duration: 3,
            width: 640,
            height: 360,
            path: String::from_str("./tmp/"),
            display: 0,
        }
    }

    /// The settings as the text of a settings file.
    pub fn to_yaml(&self) -> (text: String)
        ensures
            text@ == yaml_text(
                self.quality as nat,
                self.fast,
                self.repeat,
                self.fps as nat,
                self.duration as nat,
                self.width as nat,
                self.height as nat,
                self.path@,
                self.display as nat,
            ),
    {
        let mut text = String::from_str("quality: ");
        text.append(decimal(self.quality as u128).as_str());
        text.append("\nfast: ");
        if self.fast {
            text.append("true");
        } else {
            text.append("false");
        }
        text.append("\nrepeat: ");
        match self.repeat {
            Repeat::Finite(count) => text.append(decimal(count as u128).as_str()),
            Repeat::Infinite => text.append("infinite"),
        }
        text.append("\nfps: ");
        text.append(decimal(self.fps as u128).as_str());
        text.append("\nduration: ");
        text.append(decimal(self.duration as u128).as_str());
        text.append("\nwidth: ");
        text.append(decimal(self.width as u128).as_str());
        text.append("\nheight: ");
        text.append(decimal(self.height as u128).as_str());
        text.append("\npath: ");
        text.append(self.path.as_str());
        text.append("\ndisplay: ");
        text.append(decimal(self.display as u128).as_str());
        text.append("\n");
        text
    }
}

/// Makes settings of the values read from a file. Every setting must be
/// of its type and within its range, and all but the speed and the repeat
/// mode must be there; the first that is not, in the order of the file, is
/// the error.
pub fn config_from_fields(
    quality: Option<i64>,
    fast: Entry,
    repeat: Entry,
    fps: Option<i64>,
    duration: Option<i64>,
    width: Option<i64>,
    height: Option<i64>,
    path: Option<String>,
    display: Option<i64>,
) -> (made: Result<Config, ConfigError>)
    ensures
        is_config_of(
            made,
            quality,
            fast@,
            repeat@,
            fps,
            duration,
            width,
            height,
            match path {
                Some(p) => Some(p@),
                None => None,
            },
            display,
        ),
{
    let quality = match check_field(quality, 100, Field::Quality) {
        Ok(v) => v as u8,
        Err(e) => { return Err(e); },
    };
    let fast = match fast_from(&fast) {
        Ok(fast) => fast,
        Err(e) => { return Err(e); },
    };
    let repeat = match repeat_from(&repeat) {
        Ok(repeat) => repeat,
        Err(e) => { return Err(e); },
    };
    let fps = match check_field(fps, u32::MAX as u64, Field::Fps) {
        Ok(v) => v as u32,
        Err(e) => { return Err(e); },
    };
    let duration = match check_field(duration, usize::MAX as u64, Field::Duration) {
        Ok(v) => v as usize,
        Err(e) => { return Err(e); },
    };
    let width = match check_field(width, u32::MAX as u64, Field::Width) {
        Ok(v) => v as u32,
        Err(e) => { return Err(e); },
    };
    let height = match check_field(height, u32::MAX as u64, Field::Height) {
        Ok(v) => v as u32,
        Err(e) => { return Err(e); },
    };
    let path = match path {
        Some(p) => p,
        None => { return Err(ConfigError::Missing(Field::Path)); },
    };
    let display = match check_field(display, usize::MAX as u64, Field::Display) {
        Ok(v) => v as usize,
        Err(e) => { return Err(e); },
    };
    Ok(Config { quality, fast, repeat, fps, duration, width, height, path, display })
}

/// `yaml_rust::Yaml`, a node of a parsed document; nothing is known of what
/// is inside a value but through `yaml_entries`.
#[verifier::external_type_specification]
#[verifier::external_body]
pub struct ExYaml(yaml_rust::Yaml);

/// `yaml_rust::ScanError`, why a text is not YAML; only told apart from
/// success.
#[verifier::external_type_specification]
#[verifier::external_body]
pub struct ExScanError(yaml_rust::ScanError);

/// The documents that a text holds as YAML, in order; `None` where the text
/// is not YAML.
pub uninterp spec fn yaml_documents(source: Seq<char>) -> Option<Seq<yaml_rust::Yaml>>;

/// What a mapping holds under each of its string keys. Anything that is
/// neither an integer, a string nor a boolean counts as `Other`, but for the
/// bad value, which counts as `Absent`; a node that is no mapping has no
/// keys.
pub uninterp spec fn yaml_entries(node: yaml_rust::Yaml) -> Map<Seq<char>, EntryView>;

/// Calls `yaml_rust::YamlLoader::load_from_str`. Trusted: the outcome
/// depends on the text alone; it is the documents parsed, or the scanner's
/// error where the text is not YAML.
#[verifier::external_body]
fn load_yaml(source: &str) -> (loaded: Result<Vec<yaml_rust::Yaml>, yaml_rust::ScanError>)
    ensures
        loaded matches Ok(docs) ==> yaml_documents(source@) == Some(docs@),
        loaded is Err ==> yaml_documents(source@) is None,
{
    yaml_rust::YamlLoader::load_from_str(source)
}

/// Indexes a node by a string key, through `Index<&str>` of
/// `yaml_rust::Yaml`, and copies what is found into an `Entry`. Trusted: the
/// entry is what the mapping holds under that key; it is `Absent` where the
/// node is no mapping or lacks the key, for which the index gives the bad
/// value.
#[verifier::external_body]
fn yaml_entry(node: &yaml_rust::Yaml, key: &str) -> (entry: Entry)
    ensures
        entry@ == if yaml_entries(*node).contains_key(key@) {
            yaml_entries(*node)[key@]
        } else {
            EntryView::Absent
        },
{
    match &node[key] {
        yaml_rust::Yaml::Integer(value) => Entry::Integer(*value),
        yaml_rust::Yaml::String(text) => Entry::Text(text.clone()),
        yaml_rust::Yaml::Boolean(value) => Entry::Boolean(*value),
        yaml_rust::Yaml::BadValue => Entry::Absent,
        _ => Entry::Other,
    }
}

/// What a node holds under `key`.
pub open spec fn entry_at(node: yaml_rust::Yaml, key: Seq<char>) -> EntryView {
    if yaml_entries(node).contains_key(key) {
        yaml_entries(node)[key]
    } else {
        EntryView::Absent
    }
}

/// The integer under `key` in a mapping, if there is one.
pub open spec fn integer_at(node: yaml_rust::Yaml, key: Seq<char>) -> Option<i64> {
    match entry_at(node, key) {
        EntryView::Integer(value) => Some(value),
        _ => None,
    }
}

/// The string under `key` in a mapping, if there is one.
pub open spec fn string_at(node: yaml_rust::Yaml, key: Seq<char>) -> Option<Seq<char>> {
    match entry_at(node, key) {
        EntryView::Text(text) => Some(text),
        _ => None,
    }
}

/// Reads the integer under `key`, if there is one.
fn yaml_integer(node: &yaml_rust::Yaml, key: &str) -> (found: Option<i64>)
    ensures
        found == integer_at(*node, key@),
{
    match yaml_entry(node, key) {
        Entry::Integer(value) => Some(value),
        _ => None,
    }
}

/// Reads the string under `key`, if there is one.
fn yaml_string(node: &yaml_rust::Yaml, key: &str) -> (found: Option<String>)
    ensures
        found is Some <==> string_at(*node, key@) is Some,
        found matches Some(text) ==> Some(text@) == string_at(*node, key@),
{
    match yaml_entry(node, key) {
        Entry::Text(text) => Some(text),
        _ => None,
    }
}

/// Whether `made` is what the text of a settings file amounts to: an error
/// for a text that is not YAML or holds no document, else the settings that
/// the first document gives under their names.
pub open spec fn is_config_of_text(made: Result<Config, ConfigError>, source: Seq<char>) -> bool {
    match yaml_documents(source) {
        None => made == Err::<Config, ConfigError>(ConfigError::Malformed),
        Some(docs) => if docs.len() == 0 {
            made == Err::<Config, ConfigError>(ConfigError::NoDocument)
        } else {
            is_config_of(
                made,
                integer_at(docs[0], "quality"@),
                entry_at(docs[0], "fast"@),
                entry_at(docs[0], "repeat"@),
                integer_at(docs[0], "fps"@),
                integer_at(docs[0], "duration"@),
                integer_at(docs[0], "width"@),
                integer_at(docs[0], "height"@),
                string_at(docs[0], "path"@),
                integer_at(docs[0], "display"@),
            )
        },
    }
}

/// Reads settings from the text of a settings file.
pub fn parse_config(source: &str) -> (made: Result<Config, ConfigError>)
    ensures
        is_config_of_text(made, source@),
{
    let docs = match load_yaml(source) {
        Ok(docs) => docs,
        Err(_) => { return Err(ConfigError::Malformed); },
    };
    if docs.len() == 0 {
        return Err(ConfigError::NoDocument);
    }
    let doc = &docs[0];
    config_from_fields(
        yaml_integer(doc, "quality"),
        yaml_entry(doc, "fast"),
        yaml_entry(doc, "repeat"),
        yaml_integer(doc, "fps"),
        yaml_integer(doc, "duration"),
        yaml_integer(doc, "width"),
        yaml_integer(doc, "height"),
        yaml_string(doc, "path"),
        yaml_integer(doc, "display"),
    )
}

/// The settings of a session, given the text of the settings file where
/// there is one. Without a file the defaults hold, and the text of a file
/// that states them is handed back to be written.
pub fn get(file: Option<&str>) -> (loaded: Result<Loaded, ConfigError>)
    ensures
        match file {
            Some(source) => match loaded {
                Ok(l) => l.write_back is None && is_config_of_text(Ok(l.config), source@),
                Err(e) => is_config_of_text(Err(e), source@),
            },
            None => match loaded {
                Ok(l) => is_config_of(
                    Ok(l.config),
                    Some(100),
                    EntryView::Boolean(true),
                    EntryView::Text("infinite"@),
                    Some(60),
                    Some(3),
                    Some(640),
                    Some(360),
                    Some("./tmp/"@),
                    Some(0),
                ) && match l.write_back {
                    Some(text) => text@ == yaml_text(
                        100,
                        true,
                        Repeat::Infinite,
                        60,
                        3,
                        640,
                        360,
                        "./tmp/"@,
                        0,
                    ),
                    None => false,
                },
                Err(_) => false,
            },
        },
{
    match file {
        Some(source) => match parse_config(source) {
            Ok(config) => Ok(Loaded { config, write_back: None }),
            Err(e) => Err(e),
        },
        None => {
            let config = Config::defaults();
            let text = config.to_yaml();
            Ok(Loaded { config, write_back: Some(text) })
        },
    }
}

/// Which display a session captures.
#[derive(Debug, Clone, Copy, PartialEq, Eq, Structural)]
pub enum DisplayChoice {
    /// The primary display.
    Primary,
    /// The display at this place in the list of all displays.
    Listed(usize),
}

/// Picks the display for an index from the settings: 0 is the primary
/// display whatever is listed; any other index must be that of one of the
/// `available` displays listed.
pub fn select_display(display_index: usize, available: usize) -> (choice: Option<DisplayChoice>)
    ensures
        display_index == 0 ==> choice == Some(DisplayChoice::Primary),
        display_index != 0 ==> choice == if display_index < available {
            Some(DisplayChoice::Listed(display_index))
        } else {
            None
        },
{
    if display_index == 0 {
        Some(DisplayChoice::Primary)
    } else if available <= display_index {
        None
    } else {
        Some(DisplayChoice::Listed(display_index))
    }
}

/// The line that tells which display was selected.
pub fn display_message(width: usize, height: usize, primary: bool) -> (message: String)
    ensures
        message@ == "Selected display: "@ + decimal_text(width as nat) + "x"@ + decimal_text(
            height as nat,
        ) + (if primary {
            " (primary)"@
        } else {
            Seq::<char>::empty()
        }),
{
    let mut message = String::from_str("Selected display: ");
    message.append(decimal(width as u128).as_str());
    message.append("x");
    message.append(decimal(height as u128).as_str());
    if primary {
        message.append(" (primary)");
    } else {
        assert(message@ + Seq::<char>::empty() =~= message@);
    }
    message
}

} // verus!
