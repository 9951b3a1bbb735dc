use vstd::prelude::*;

use crate::text::{after_mark, before_mark, find_mark, has_mark, same_text, split_at_mark};

verus! {

/// A text that is set once and read from then on.
#[derive(Debug, Clone, PartialEq, Eq)]
pub struct ConstStr(String);

impl View for ConstStr {
    type V = Seq<char>;

    closed spec fn view(&self) -> Seq<char> {
        self.0@
    }
}

impl ConstStr {
    /// The value that holds `text`.
    pub fn new(text: &str) -> (value: ConstStr)
        ensures
            value@ == text@,
    {
        ConstStr(text.to_owned())
    }

    /// The text that the value holds.
    pub fn as_str(&self) -> (text: &str)
        ensures
            text@ == self@,
    {
        self.0.as_str()
    }
}

/// Why the settings could not be read.
#[derive(Debug, Clone, PartialEq, Eq)]
pub enum SettingsReadError {
    MissingField(String),
    DuplicateField(String),
    UnknownField(String),
    BadFile(String),
    BadFormatting(String),
}

/// What a [`SettingsReadError`] holds, as sequences of characters.
pub enum SettingsReadErrorView {
    MissingField(Seq<char>),
    DuplicateField(Seq<char>),
    UnknownField(Seq<char>),
    BadFile(Seq<char>),
    BadFormatting(Seq<char>),
}

impl View for SettingsReadError {
    type V = SettingsReadErrorView;

    open spec fn view(&self) -> SettingsReadErrorView {
        match self {
            SettingsReadError::MissingField(name) => SettingsReadErrorView::MissingField(name@),
            SettingsReadError::DuplicateField(name) => SettingsReadErrorView::DuplicateField(
                name@,
            ),
            SettingsReadError::UnknownField(name) => SettingsReadErrorView::UnknownField(name@),
            SettingsReadError::BadFile(reason) => SettingsReadErrorView::BadFile(reason@),
            SettingsReadError::BadFormatting(reason) => SettingsReadErrorView::BadFormatting(
                reason@,
            ),
        }
    }
}

/// The line that tells the user of an error.
pub open spec fn error_line(error: SettingsReadErrorView) -> Seq<char> {
    match error {
        SettingsReadErrorView::MissingField(name) => "Field missing from env file: "@ + name,
        SettingsReadErrorView::DuplicateField(name) => "Duplicate field in env file: "@ + name,
        SettingsReadErrorView::UnknownField(name) => "Unknown field provided: "@ + name,
        SettingsReadErrorView::BadFile(reason) => "Error in reading file: "@ + reason,
        SettingsReadErrorView::BadFormatting(reason) => "Error in parsing file: "@ + reason,
    }
}

impl SettingsReadError {
    /// The error as a line for the user.
    pub fn message(&self) -> (line: String)
        ensures
            line@ == error_line(self@),
    {
        let (mut line, detail) = match self {
            SettingsReadError::MissingField(name) => (
                "Field missing from env file: ".to_owned(),
                name,
            ),
            SettingsReadError::DuplicateField(name) => (
                "Duplicate field in env file: ".to_owned(),
                name,
            ),
            SettingsReadError::UnknownField(name) => ("Unknown field provided: ".to_owned(), name),
            SettingsReadError::BadFile(reason) => ("Error in reading file: ".to_owned(), reason),
            SettingsReadError::BadFormatting(reason) => (
                "Error in parsing file: ".to_owned(),
                reason,
            ),
        };
        line.append(detail.as_str());
        line
    }
}

/// The settings of the program, each read from a line `NAME=value`.
#[derive(Debug, Clone, PartialEq, Eq)]
#[allow(non_snake_case)]
pub struct Settings {
    pub APPSYNC_HTTP_DOMAIN: ConstStr,
    pub APPSYNC_PUBLISH_URL: ConstStr,
    pub APPSYNC_API_KEY: ConstStr,
    pub APPSYNC_WEBSOCKET_URL: ConstStr,
}

/// What [`Settings`] hold, as sequences of characters.
pub struct SettingsView {
    pub http_domain: Seq<char>,
    pub publish_url: Seq<char>,
    pub api_key: Seq<char>,
    pub websocket_url: Seq<char>,
}

impl View for Settings {
    type V = SettingsView;

    open spec fn view(&self) -> SettingsView {
        SettingsView {
            http_domain: self.APPSYNC_HTTP_DOMAIN@,
            publish_url: self.APPSYNC_PUBLISH_URL@,
            api_key: self.APPSYNC_API_KEY@,
            websocket_url: self.APPSYNC_WEBSOCKET_URL@,
        }
    }
}

/// The fields that were read so far.
pub struct ReadValues {
    pub http_domain: Option<Seq<char>>,
    pub publish_url: Option<Seq<char>>,
    pub api_key: Option<Seq<char>>,
    pub websocket_url: Option<Seq<char>>,
}

#[allow(non_snake_case)]
struct SettingsReadValues {
    APPSYNC_HTTP_DOMAIN: Option<ConstStr>,
    APPSYNC_PUBLISH_URL: Option<ConstStr>,
    APPSYNC_API_KEY: Option<ConstStr>,
    APPSYNC_WEBSOCKET_URL: Option<ConstStr>,
}

spec fn shown(value: Option<ConstStr>) -> Option<Seq<char>> {
    match value {
        Some(text) => Some(text@),
        None => None,
    }
}

impl View for SettingsReadValues {
    type V = ReadValues;

    closed spec fn view(&self) -> ReadValues {
        ReadValues {
            http_domain: shown(self.APPSYNC_HTTP_DOMAIN),
            publish_url: shown(self.APPSYNC_PUBLISH_URL),
            api_key: shown(self.APPSYNC_API_KEY),
            websocket_url: shown(self.APPSYNC_WEBSOCKET_URL),
        }
    }
}

/// No field read yet.
pub open spec fn nothing_read() -> ReadValues {
    ReadValues { http_domain: None, publish_url: None, api_key: None, websocket_url: None }
}

/// The name and the value that a line holds: what stands before its first `=`, and what
/// stands behind it. A line without `=` is badly formed.
pub open spec fn parts_of(line: Seq<char>) -> Result<
    (Seq<char>, Seq<char>),
    SettingsReadErrorView,
> {
    if has_mark(line, '=') {
        Ok((before_mark(line, '='), after_mark(line, '=')))
    } else {
        Err(SettingsReadErrorView::BadFormatting("bad line formatting: \""@ + line + "\""@))
    }
}

/// A field takes its value once: a second value for it is refused.
pub open spec fn set_once(
    field: Option<Seq<char>>,
    name: Seq<char>,
    value: Seq<char>,
) -> Result<Option<Seq<char>>, SettingsReadErrorView> {
    match field {
        None => Ok(Some(value)),
        Some(_) => Err(SettingsReadErrorView::DuplicateField(name)),
    }
}

/// `values` with `value` in the field called `name`. A name that no field has is refused.
pub open spec fn filled(values: ReadValues, name: Seq<char>, value: Seq<char>) -> Result<
    ReadValues,
    SettingsReadErrorView,
> {
    if name == "APPSYNC_HTTP_DOMAIN"@ {
        match set_once(values.http_domain, name, value) {
            Ok(field) => Ok(ReadValues { http_domain: field, ..values }),
            Err(error) => Err(error),
        }
    } else if name == "APPSYNC_PUBLISH_URL"@ {
        match set_once(values.publish_url, name, value) {
            Ok(field) => Ok(ReadValues { publish_url: field, ..values }),
            Err(error) => Err(error),
        }
    } else if name == "APPSYNC_API_KEY"@ {
        match set_once(values.api_key, name, value) {
            Ok(field) => Ok(ReadValues { api_key: field, ..values }),
            Err(error) => Err(error),
        }
    } else if name == "APPSYNC_WEBSOCKET_URL"@ {
        match set_once(values.websocket_url, name, value) {
            Ok(field) => Ok(ReadValues { websocket_url: field, ..values }),
            Err(error) => Err(error),
        }
    } else {
        Err(SettingsReadErrorView::UnknownField(name))
    }
}

/// `values` after one more line: the line itself where it was read, or the reason why it
/// could not be read.
pub open spec fn after_line(values: ReadValues, line: Result<Seq<char>, Seq<char>>) -> Result<
    ReadValues,
    SettingsReadErrorView,
> {
    match line {
        Err(reason) => Err(SettingsReadErrorView::BadFile(reason)),
        Ok(text) => match parts_of(text) {
            Err(error) => Err(error),
            Ok((name, value)) => filled(values, name, value),
        },
    }
}

/// `values` after `lines`, in order. The first line that is refused ends the reading.
pub open spec fn after_lines(
    values: ReadValues,
    lines: Seq<Result<Seq<char>, Seq<char>>>,
) -> Result<ReadValues, SettingsReadErrorView>
    decreases lines.len(),
{
    if lines.len() == 0 {
        Ok(values)
    } else {
        match after_line(values, lines[0]) {
            Err(error) => Err(error),
            Ok(next) => after_lines(next, lines.drop_first()),
        }
    }
}

/// The settings that `values` make up. Every field must have been read: the first that
/// was not, in the order of the fields, is reported.
pub open spec fn completed(values: ReadValues) -> Result<SettingsView, SettingsReadErrorView> {
    match (values.http_domain, values.publish_url, values.api_key, values.websocket_url) {
        (None, _, _, _) => Err(SettingsReadErrorView::MissingField("APPSYNC_HTTP_DOMAIN"@)),
        (_, None, _, _) => Err(SettingsReadErrorView::MissingField("APPSYNC_PUBLISH_URL"@)),
        (_, _, None, _) => Err(SettingsReadErrorView::MissingField("APPSYNC_API_KEY"@)),
        (_, _, _, None) => Err(SettingsReadErrorView::MissingField("APPSYNC_WEBSOCKET_URL"@)),
        (Some(http_domain), Some(publish_url), Some(api_key), Some(websocket_url)) => Ok(
            SettingsView { http_domain, publish_url, api_key, websocket_url },
        ),
    }
}

/// The settings that the lines of a file hold.
pub open spec fn settings_of(lines: Seq<Result<Seq<char>, Seq<char>>>) -> Result<
    SettingsView,
    SettingsReadErrorView,
> {
    match after_lines(nothing_read(), lines) {
        Err(error) => Err(error),
        Ok(values) => completed(values),
    }
}

/// The lines as sequences of characters.
pub open spec fn lines_view(lines: Seq<Result<String, String>>) -> Seq<
    Result<Seq<char>, Seq<char>>,
> {
    Seq::new(
        lines.len(),
        |i: int|
            match lines[i] {
                Ok(text) => Ok(text@),
                Err(reason) => Err(reason@),
            },
    )
}

/// Whether `outcome` is `expected`, text for text.
pub open spec fn agrees<T: View, V>(
    outcome: Result<T, SettingsReadError>,
    expected: Result<V, SettingsReadErrorView>,
) -> bool where T: View<V = V> {
    match outcome {
        Ok(value) => expected == Ok::<V, SettingsReadErrorView>(value@),
        Err(error) => expected == Err::<V, SettingsReadErrorView>(error@),
    }
}

fn fill_once(field: &mut Option<ConstStr>, name: &str, value: &str) -> (outcome: Result<
    (),
    SettingsReadError,
>)
    ensures
        match outcome {
            Ok(_) => set_once(shown(*old(field)), name@, value@) == Ok::<
                Option<Seq<char>>,
                SettingsReadErrorView,
            >(shown(*final(field))),
            Err(error) => *final(field) == *old(field) && set_once(
                shown(*old(field)),
                name@,
                value@,
            ) == Err::<Option<Seq<char>>, SettingsReadErrorView>(error@),
        },
{
    match field {
        None => {
            *field = Some(ConstStr::new(value));
            Ok(())
        },
        Some(_) => Err(SettingsReadError::DuplicateField(name.to_owned())),
    }
}

impl Settings {
    /// Reads the settings from the lines of a file. Each line is the text that was read,
    /// or the reason why it could not be read. The first line that is refused ends the
    /// reading with its error; after the last line every field must have its value.
    pub fn from_lines(lines: &Vec<Result<String, String>>) -> (settings: Result<
        Settings,
        SettingsReadError,
    >)
        ensures
            agrees(settings, settings_of(lines_view(lines@))),
    {
        let mut read_values = SettingsReadValues {
            APPSYNC_HTTP_DOMAIN: None,
            APPSYNC_PUBLISH_URL: None,
            APPSYNC_API_KEY: None,
            APPSYNC_WEBSOCKET_URL: None,
        };
        let ghost all = lines_view(lines@);
        let mut i: usize = 0;
        assert(all.skip(0) =~= all);
        while i < lines.len()
            invariant
                i <= lines.len(),
                all == lines_view(lines@),
                after_lines(nothing_read(), all) == after_lines(read_values@, all.skip(i as int)),
            decreases lines.len() - i,
        {
            let ghost rest = all.skip(i as int);
            assert(rest.drop_first() =~= all.skip(i + 1));
            match &lines[i] {
                Err(reason) => {
                    return Err(SettingsReadError::BadFile(reason.clone()));
                },
                Ok(line_value) => {
                    let (field_name, field_value) = match Self::line_parts(line_value.as_str()) {
                        Ok(parts) => parts,
                        Err(error) => {
                            return Err(error);
                        },
                    };
                    match Self::try_fill_field(
                        &mut read_values,
                        field_name.as_str(),
                        field_value.as_str(),
                    ) {
                        Ok(_) => {},
                        Err(error) => {
                            return Err(error);
                        },
                    }
                },
            }
            i = i + 1;
        }
        Self::try_fill_settings(read_values)
    }

    /// Cuts a line into the name of a field and its value.
    pub fn line_parts(line: &str) -> (parts: Result<(String, String), SettingsReadError>)
        ensures
            match parts {
                Ok((name, value)) => parts_of(line@) == Ok::<
                    (Seq<char>, Seq<char>),
                    SettingsReadErrorView,
                >((name@, value@)),
                Err(error) => parts_of(line@) == Err::<
                    (Seq<char>, Seq<char>),
                    SettingsReadErrorView,
                >(error@),
            },
    {
        let at: usize = find_mark(line, '=');
        if at < line.unicode_len() {
            Ok(split_at_mark(line, '='))
        } else {
            let mut reason = "bad line formatting: \"".to_owned();
            reason.append(line);
            reason.append("\"");
            Err(SettingsReadError::BadFormatting(reason))
        }
    }

    fn try_fill_field(
        read_values: &mut SettingsReadValues,
        field_name: &str,
        field_value: &str,
    ) -> (outcome: Result<(), SettingsReadError>)
        ensures
            match outcome {
                Ok(_) => filled(old(read_values)@, field_name@, field_value@) == Ok::<
                    ReadValues,
                    SettingsReadErrorView,
                >(final(read_values)@),
                Err(error) => filled(old(read_values)@, field_name@, field_value@) == Err::<
                    ReadValues,
                    SettingsReadErrorView,
                >(error@),
            },
    {
        if same_text("APPSYNC_HTTP_DOMAIN", field_name) {
            fill_once(&mut read_values.APPSYNC_HTTP_DOMAIN, field_name, field_value)
        } else if same_text("APPSYNC_PUBLISH_URL", field_name) {
            fill_once(&mut read_values.APPSYNC_PUBLISH_URL, field_name, field_value)
        } else if same_text("APPSYNC_API_KEY", field_name) {
            fill_once(&mut read_values.APPSYNC_API_KEY, field_name, field_value)
        } else if same_text("APPSYNC_WEBSOCKET_URL", field_name) {
            fill_once(&mut read_values.APPSYNC_WEBSOCKET_URL, field_name, field_value)
        } else {
            Err(SettingsReadError::UnknownField(field_name.to_owned()))
        }
    }

    fn try_fill_settings(read_values: SettingsReadValues) -> (settings: Result<
        Settings,
        SettingsReadError,
    >)
        ensures
            agrees(settings, completed(read_values@)),
    {
        let http_domain = match read_values.APPSYNC_HTTP_DOMAIN {
            Some(value) => value,
            None => {
                return Err(SettingsReadError::MissingField("APPSYNC_HTTP_DOMAIN".to_owned()));
            },
        };
        let publish_url = match read_values.APPSYNC_PUBLISH_URL {
            Some(value) => value,
            None => {
                return Err(SettingsReadError::MissingField("APPSYNC_PUBLISH_URL".to_owned()));
            },
        };
        let api_key = match read_values.APPSYNC_API_KEY {
            Some(value) => value,
            None => {
                return Err(SettingsReadError::MissingField("APPSYNC_API_KEY".to_owned()));
            },
        };
        let websocket_url = match read_values.APPSYNC_WEBSOCKET_URL {
            Some(value) => value,
            None => {
                return Err(SettingsReadError::MissingField("APPSYNC_WEBSOCKET_URL".to_owned()));
            },
        };
        Ok(
            Settings {
                APPSYNC_HTTP_DOMAIN: http_domain,
                APPSYNC_PUBLISH_URL: publish_url,
                APPSYNC_API_KEY: api_key,
                APPSYNC_WEBSOCKET_URL: websocket_url,
            },
        )
    }
}

} // verus!
