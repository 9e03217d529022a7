//! Severities, colours and the log message with its template engine.

use vstd::prelude::*;
use vstd::string::StringExecFns;

use crate::text::{decimal, push_char, push_decimal};
use crate::time::Timestamp;

verus! {

/// How urgent a message is. The variants are listed from least to most
/// urgent, which is also how `<` orders them.
#[derive(PartialEq, Eq, Structural, Debug, Clone, Copy, PartialOrd, Ord)]
pub enum LogIntensity {
    Trace,
    Debug,
    Info,
    Warn,
    Error,
    Fatal,
}

impl LogIntensity {
    /// The position of the severity on the scale; `Info` is zero.
    pub open spec fn level(self) -> int {
        match self {
            LogIntensity::Trace => -2,
            LogIntensity::Debug => -1,
            LogIntensity::Info => 0,
            LogIntensity::Warn => 1,
            LogIntensity::Error => 2,
            LogIntensity::Fatal => 3,
        }
    }

    /// The label of the severity, padded with a blank to five characters.
    pub open spec fn label(self) -> Seq<char> {
        match self {
            LogIntensity::Trace => seq!['T', 'r', 'a', 'c', 'e'],
            LogIntensity::Debug => seq!['D', 'e', 'b', 'u', 'g'],
            LogIntensity::Info => seq!['I', 'n', 'f', 'o', ' '],
            LogIntensity::Warn => seq!['W', 'a', 'r', 'n', ' '],
            LogIntensity::Error => seq!['E', 'r', 'r', 'o', 'r'],
            LogIntensity::Fatal => seq!['F', 'a', 't', 'a', 'l'],
        }
    }

    /// The colour of a message of this severity that names no colour of its
    /// own.
    pub open spec fn default_color(self) -> Color {
        match self {
            LogIntensity::Trace => Color::Grey,
            LogIntensity::Debug => Color::Blue,
            LogIntensity::Info => Color::Default,
            LogIntensity::Warn => Color::Orange,
            LogIntensity::Error => Color::Red,
            LogIntensity::Fatal => Color::DarkRed,
        }
    }

    /// The colour of a message of this severity that names no colour of its
    /// own.
    pub fn color(&self) -> (c: Color)
        ensures
            c == self.default_color(),
    {
        match self {
            LogIntensity::Trace => Color::Grey,
            LogIntensity::Debug => Color::Blue,
            LogIntensity::Info => Color::Default,
            LogIntensity::Warn => Color::Orange,
            LogIntensity::Error => Color::Red,
            LogIntensity::Fatal => Color::DarkRed,
        }
    }

    /// The position of the severity on the scale, as a number to compare by.
    pub fn rank(&self) -> (r: i8)
        ensures
            r == self.level(),
    {
        match self {
            LogIntensity::Trace => -2,
            LogIntensity::Debug => -1,
            LogIntensity::Info => 0,
            LogIntensity::Warn => 1,
            LogIntensity::Error => 2,
            LogIntensity::Fatal => 3,
        }
    }

    /// The fixed-width label of the severity.
    pub fn to_string(&self) -> (s: String)
        ensures
            s@ == self.label(),
            s@.len() == 5,
    {
        proof {
            reveal_strlit("Trace");
            reveal_strlit("Debug");
            reveal_strlit("Info ");
            reveal_strlit("Warn ");
            reveal_strlit("Error");
            reveal_strlit("Fatal");
        }
        let s = match self {
            LogIntensity::Trace => String::from_str("Trace"),
            LogIntensity::Debug => String::from_str("Debug"),
            LogIntensity::Info => String::from_str("Info "),
            LogIntensity::Warn => String::from_str("Warn "),
            LogIntensity::Error => String::from_str("Error"),
            LogIntensity::Fatal => String::from_str("Fatal"),
        };
        assert(s@ =~= self.label());
        s
    }
}

/// The colour a message is shown in; each maps to one ANSI escape sequence.
#[derive(PartialEq, Eq, Structural, Debug, Clone, Copy)]
pub enum Color {
    Default,
    Grey,
    Blue,
    White,
    Orange,
    Red,
    DarkRed,
}

impl Color {
    /// The ANSI escape sequence of the colour. That of `Default` resets the
    /// terminal's colour.
    pub open spec fn code(self) -> Seq<char> {
        match self {
            Color::Default => seq!['\x1b', '[', '0', 'm'],
            Color::Grey => seq!['\x1b', '[', '9', '0', 'm'],
            Color::Blue => seq!['\x1b', '[', '3', '4', 'm'],
            Color::White => seq!['\x1b', '[', '9', '7', 'm'],
            Color::Orange => seq!['\x1b', '[', '3', '3', 'm'],
            Color::Red => seq!['\x1b', '[', '3', '1', 'm'],
            Color::DarkRed => seq!['\x1b', '[', '9', '1', 'm'],
        }
    }

    /// The ANSI escape sequence of the colour.
    pub fn ansi(&self) -> (s: String)
        ensures
            s@ == self.code(),
    {
        proof {
            reveal_strlit("\x1b[0m");
            reveal_strlit("\x1b[90m");
            reveal_strlit("\x1b[34m");
            reveal_strlit("\x1b[97m");
            reveal_strlit("\x1b[33m");
            reveal_strlit("\x1b[31m");
            reveal_strlit("\x1b[91m");
        }
        let s = match self {
            Color::Default => String::from_str("\x1b[0m"),
            Color::Grey => String::from_str("\x1b[90m"),
            Color::Blue => String::from_str("\x1b[34m"),
            Color::White => String::from_str("\x1b[97m"),
            Color::Orange => String::from_str("\x1b[33m"),
            Color::Red => String::from_str("\x1b[31m"),
            Color::DarkRed => String::from_str("\x1b[91m"),
        };
        assert(s@ =~= self.code());
        s
    }
}

/// One logging event: when, on which thread and where it was emitted, its
/// text, its severity and its colour.
#[derive(PartialEq, Eq, Debug, Clone, Copy)]
pub struct LogMessage<'a> {
    pub time: Timestamp,
    /// The label of the thread that emitted the message.
    pub thread: &'a str,
    pub scope: &'a str,
    pub file: &'a str,
    pub line: u32,
    pub msg: &'a str,
    pub intensity: LogIntensity,
    pub color: Color,
}

/// A message as contracts see it: each text as a sequence of characters.
pub struct MessageView {
    pub time: Timestamp,
    pub thread: Seq<char>,
    pub scope: Seq<char>,
    pub file: Seq<char>,
    pub line: u32,
    pub text: Seq<char>,
    pub intensity: LogIntensity,
    pub color: Color,
}

impl<'a> View for LogMessage<'a> {
    type V = MessageView;

    open spec fn view(&self) -> MessageView {
        MessageView {
            time: self.time,
            thread: self.thread@,
            scope: self.scope@,
            file: self.file@,
            line: self.line,
            text: self.msg@,
            intensity: self.intensity,
            color: self.color,
        }
    }
}

impl MessageView {
    /// What the directive `%code` stands for, where `time` is the text that
    /// stands for the message's time. A code that names nothing stands for
    /// the empty text.
    pub open spec fn expansion(self, code: char, time: Seq<char>) -> Seq<char> {
        match code {
            't' => time,
            'c' => self.thread,
            'i' => self.intensity.label(),
            'm' => self.text,
            'f' => self.file,
            'l' => decimal(self.line as nat),
            's' => self.scope,
            '[' => self.color.code(),
            ']' => Color::Default.code(),
            _ => Seq::empty(),
        }
    }

    /// The text of `pattern` for this message, where `time` is the text that
    /// stands for the message's time. The pattern is read from the left, one
    /// item at a time: `\` and the character behind it give that character,
    /// `%` and the character behind it give the directive's expansion, any
    /// other character gives itself. A `\` or `%` that ends the pattern gives
    /// nothing.
    pub open spec fn rendered_with(self, pattern: Seq<char>, time: Seq<char>) -> Seq<char>
        decreases pattern.len(),
    {
        if pattern.len() == 0 {
            Seq::empty()
        } else if pattern[0] == '\\' {
            if pattern.len() == 1 {
                Seq::empty()
            } else {
                seq![pattern[1]] + self.rendered_with(pattern.skip(2), time)
            }
        } else if pattern[0] == '%' {
            if pattern.len() == 1 {
                Seq::empty()
            } else {
                self.expansion(pattern[1], time) + self.rendered_with(pattern.skip(2), time)
            }
        } else {
            seq![pattern[0]] + self.rendered_with(pattern.skip(1), time)
        }
    }

    /// The text of `pattern` for this message, with the RFC 3339 text of the
    /// message's time for `%t`.
    pub open spec fn rendered(self, pattern: Seq<char>) -> Seq<char> {
        self.rendered_with(pattern, self.time.rfc3339())
    }

    /// What is still to come when the scan stands before `rest`, with the
    /// given flags set by the character before it.
    spec fn resumed(self, escaped: bool, directive: bool, rest: Seq<char>, time: Seq<char>) -> Seq<
        char,
    > {
        if rest.len() == 0 {
            Seq::empty()
        } else if escaped {
            seq![rest[0]] + self.rendered_with(rest.skip(1), time)
        } else if directive {
            self.expansion(rest[0], time) + self.rendered_with(rest.skip(1), time)
        } else {
            self.rendered_with(rest, time)
        }
    }

    /// The text for `%t`: the one given, or else that of the message's time.
    spec fn time_text(self, given: Option<&str>) -> Seq<char> {
        match given {
            Some(t) => t@,
            None => self.time.rfc3339(),
        }
    }
}

impl<'a> LogMessage<'a> {
    /// Appends to `parsed` what the directive `%c` stands for.
    fn replace(&self, c: char, parsed: String, time: Option<&str>) -> (out: String)
        ensures
            out@ == parsed@ + self@.expansion(c, self@.time_text(time)),
    {
        let mut parsed = parsed;
        match c {
            '[' => parsed.append(self.color.ansi().as_str()),
            ']' => parsed.append(Color::Default.ansi().as_str()),
            's' => parsed.append(self.scope),
            'f' => parsed.append(self.file),
            'l' => push_decimal(&mut parsed, self.line),
            'm' => parsed.append(self.msg),
            'i' => parsed.append(self.intensity.to_string().as_str()),
            't' => match time {
                Some(t) => parsed.append(t),
                None => parsed.append(self.time.to_rfc3339().as_str()),
            },
            'c' => parsed.append(self.thread),
            _ => (),
        };
        parsed
    }

    /// One pass over the pattern from the left, with two flags: `escaped`
    /// after a `\`, `replace` after a `%`.
    fn scan(&self, pattern: &str, time: Option<&str>) -> (parsed: String)
        ensures
            parsed@ == self@.rendered_with(pattern@, self@.time_text(time)),
    {
        let ghost text = self@.time_text(time);
        let ghost view = self@;
        let mut parsed = String::new();

        let mut escaped = false;
        let mut replace = false;

        assert(pattern@.skip(0) == pattern@);
        assert(parsed@ + view.rendered_with(pattern@, text) == view.rendered_with(pattern@, text));
        for c in it: pattern.chars()
            invariant
                it.seq() == pattern@,
                view == self@,
                text == view.time_text(time),
                !(escaped && replace),
                view.rendered_with(pattern@, text) == parsed@ + view.resumed(
                    escaped,
                    replace,
                    pattern@.skip(it.index() as int),
                    text,
                ),
        {
            let ghost rest = pattern@.skip(it.index() as int);
            let ghost next = pattern@.skip(it.index() + 1);
            let ghost before = parsed@;
            assert(rest[0] == c);
            assert(rest.skip(1) == next);
            assert(rest.len() >= 2 ==> rest.skip(2) == next.skip(1));
            if escaped {
                escaped = false;
                push_char(&mut parsed, c);
                assert(before + (seq![c] + view.rendered_with(next, text)) == parsed@
                    + view.rendered_with(next, text));
            } else if replace {
                replace = false;
                parsed = self.replace(c, parsed, time);
                assert(before + (view.expansion(c, text) + view.rendered_with(next, text))
                    == parsed@ + view.rendered_with(next, text));
            } else if c == '\\' {
                escaped = true;
            } else if c == '%' {
                replace = true;
            } else {
                push_char(&mut parsed, c);
                assert(before + (seq![c] + view.rendered_with(next, text)) == parsed@
                    + view.rendered_with(next, text));
            }
        }

        parsed
    }

    /// Renders `pattern` for this message.
    pub fn parse(&self, pattern: &str) -> (parsed: String)
        ensures
            parsed@ == self@.rendered(pattern@),
    {
        self.scan(pattern, None)
    }

    /// Renders `pattern` for this message with `time` in place of the RFC 3339
    /// text of the message's time.
    pub fn render_with(&self, pattern: &str, time: &str) -> (parsed: String)
        ensures
            parsed@ == self@.rendered_with(pattern@, time@),
    {
        self.scan(pattern, Some(time))
    }
}

/// `text` with a `\` before each of its characters.
pub open spec fn escaped(text: Seq<char>) -> Seq<char>
    decreases text.len(),
{
    if text.len() == 0 {
        Seq::empty()
    } else {
        seq!['\\', text[0]] + escaped(text.skip(1))
    }
}

/// A text without `\` and `%`.
pub open spec fn plain(text: Seq<char>) -> bool {
    forall|i: int| 0 <= i < text.len() ==> text[i] != '\\' && text[i] != '%'
}

/// An escaped text is rendered as the text itself, whatever the text and the
/// message are.
pub proof fn lemma_escaped_text_is_rendered_verbatim(
    msg: MessageView,
    time: Seq<char>,
    text: Seq<char>,
)
    ensures
        msg.rendered_with(escaped(text), time) == text,
    decreases text.len(),
{
    if text.len() > 0 {
        let pattern = escaped(text);
        lemma_escaped_text_is_rendered_verbatim(msg, time, text.skip(1));
        assert(pattern.skip(2) =~= escaped(text.skip(1)));
        assert(seq![text[0]] + text.skip(1) =~= text);
    }
}

/// The pattern `\%\%` is rendered as `%%`, whatever the message is.
pub proof fn lemma_escaped_markers(msg: MessageView)
    ensures
        msg.rendered(seq!['\\', '%', '\\', '%']) == seq!['%', '%'],
{
    let text = seq!['%', '%'];
    assert(text.skip(1) =~= seq!['%']);
    assert(text.skip(1).skip(1) =~= Seq::<char>::empty());
    assert(escaped(text.skip(1).skip(1)) =~= Seq::<char>::empty());
    assert(escaped(text.skip(1)) =~= seq!['\\', '%']);
    assert(escaped(text) =~= seq!['\\', '%', '\\', '%']);
    lemma_escaped_text_is_rendered_verbatim(msg, msg.time.rfc3339(), text);
}

/// A pattern without `\` and `%` is rendered as itself.
pub proof fn lemma_plain_text_is_rendered_verbatim(
    msg: MessageView,
    time: Seq<char>,
    text: Seq<char>,
)
    requires
        plain(text),
    ensures
        msg.rendered_with(text, time) == text,
    decreases text.len(),
{
    if text.len() > 0 {
        assert(plain(text.skip(1)));
        lemma_plain_text_is_rendered_verbatim(msg, time, text.skip(1));
        assert(seq![text[0]] + text.skip(1) =~= text);
    }
}

/// A pattern that ends in a lone `\` or `%` is rendered as the pattern
/// without it: the marker at the end gives nothing.
pub proof fn lemma_marker_at_the_end_gives_nothing(
    msg: MessageView,
    time: Seq<char>,
    text: Seq<char>,
    marker: char,
)
    requires
        plain(text),
        marker == '\\' || marker == '%',
    ensures
        msg.rendered_with(text.push(marker), time) == text,
    decreases text.len(),
{
    let pattern = text.push(marker);
    if text.len() > 0 {
        assert(plain(text.skip(1)));
        lemma_marker_at_the_end_gives_nothing(msg, time, text.skip(1), marker);
        assert(pattern.skip(1) =~= text.skip(1).push(marker));
        assert(seq![text[0]] + text.skip(1) =~= text);
    } else {
        assert(msg.rendered_with(pattern, time) =~= text);
    }
}

} // verus!
