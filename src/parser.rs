//! Reads one line of G-code into a command, the fields it names, and an
//! optional feed speed.
use crate::decimal::{decimal_value, parse_decimal};
use crate::text::{chars_of, split_words, string_of, words_of};
use vstd::prelude::*;

verus! {

/// The commands that a line may start with.
#[derive(Clone, Copy, Debug, PartialEq, Eq, Structural)]
pub enum Command {
    /// `G0` or `G00`: move as fast as configured.
    RapidMove,
    /// `G1` or `G01`: move at the given or the default speed.
    LinearMove,
    /// `G90`: targets are positions.
    SetAbsoluteMode,
    /// `G91`: targets are displacements.
    SetRelativeMode,
}

/// The axes that a line mentions, each with its value in millionths.
#[derive(Clone, Copy, Debug, PartialEq, Eq, Structural)]
pub struct VectorToken {
    pub x: Option<i64>,
    pub y: Option<i64>,
    pub z: Option<i64>,
}

impl VectorToken {
    pub open spec fn is_empty(self) -> bool {
        self.x is None && self.y is None && self.z is None
    }
}

/// What one line asks for.
#[derive(Clone, Copy, Debug, PartialEq, Eq, Structural)]
pub struct GcodeData {
    pub command: Command,
    /// Fields `X`, `Y`, `Z`.
    pub target_tokens: VectorToken,
    /// Fields `I`, `J`, `K`.
    pub rotation_center_tokens: VectorToken,
    /// Field `F`.
    pub speed: Option<i64>,
}

/// Why a line could not be read.
#[derive(Clone, Debug)]
pub enum ParseError {
    /// The line holds no word.
    EmptyLine,
    /// The first word names no supported command.
    UnknownCommand(String),
    /// A field's value is no decimal number: its letter and the text after it.
    InvalidFieldValue(char, String),
}

pub enum ParseErrorView {
    EmptyLine,
    UnknownCommand(Seq<char>),
    InvalidFieldValue(char, Seq<char>),
}

impl View for ParseError {
    type V = ParseErrorView;

    open spec fn view(&self) -> ParseErrorView {
        match self {
            ParseError::EmptyLine => ParseErrorView::EmptyLine,
            ParseError::UnknownCommand(w) => ParseErrorView::UnknownCommand(w@),
            ParseError::InvalidFieldValue(c, t) => ParseErrorView::InvalidFieldValue(*c, t@),
        }
    }
}

/// The command that a word names.
pub open spec fn command_of(w: Seq<char>) -> Option<Command> {
    if w == seq!['G', '0'] || w == seq!['G', '0', '0'] {
        Some(Command::RapidMove)
    } else if w == seq!['G', '1'] || w == seq!['G', '0', '1'] {
        Some(Command::LinearMove)
    } else if w == seq!['G', '9', '0'] {
        Some(Command::SetAbsoluteMode)
    } else if w == seq!['G', '9', '1'] {
        Some(Command::SetRelativeMode)
    } else {
        None
    }
}

/// The command of a line: the one that its first word names.
pub open spec fn line_command(line: Seq<char>) -> Result<Command, ParseErrorView> {
    let words = words_of(line);
    if words.len() == 0 {
        Err(ParseErrorView::EmptyLine)
    } else {
        match command_of(words[0]) {
            Some(c) => Ok(c),
            None => Err(ParseErrorView::UnknownCommand(words[0])),
        }
    }
}

/// The letters that start a field.
pub open spec fn is_selector(c: char) -> bool {
    c == 'X' || c == 'Y' || c == 'Z' || c == 'I' || c == 'J' || c == 'K' || c == 'F'
}

/// `d` with the field of letter `c` set to `v`. An axis takes the last value
/// given for it; the speed keeps the first.
pub open spec fn with_field(d: GcodeData, c: char, v: i64) -> GcodeData {
    if c == 'X' {
        GcodeData { target_tokens: VectorToken { x: Some(v), ..d.target_tokens }, ..d }
    } else if c == 'Y' {
        GcodeData { target_tokens: VectorToken { y: Some(v), ..d.target_tokens }, ..d }
    } else if c == 'Z' {
        GcodeData { target_tokens: VectorToken { z: Some(v), ..d.target_tokens }, ..d }
    } else if c == 'I' {
        GcodeData { rotation_center_tokens: VectorToken { x: Some(v), ..d.rotation_center_tokens }, ..d }
    } else if c == 'J' {
        GcodeData { rotation_center_tokens: VectorToken { y: Some(v), ..d.rotation_center_tokens }, ..d }
    } else if c == 'K' {
        GcodeData { rotation_center_tokens: VectorToken { z: Some(v), ..d.rotation_center_tokens }, ..d }
    } else if c == 'F' && d.speed is None {
        GcodeData { speed: Some(v), ..d }
    } else {
        d
    }
}

/// Takes one word into `d`. A word that starts with no field letter is
/// passed over.
pub open spec fn field_step(d: GcodeData, w: Seq<char>) -> Result<GcodeData, ParseErrorView> {
    if w.len() > 0 && is_selector(w[0]) {
        match decimal_value(w.drop_first()) {
            Some(v) => Ok(with_field(d, w[0], v as i64)),
            None => Err(ParseErrorView::InvalidFieldValue(w[0], w.drop_first())),
        }
    } else {
        Ok(d)
    }
}

/// Takes the words from index `i` on into `d`, stopping at the first bad one.
pub open spec fn fields_from(words: Seq<Seq<char>>, i: int, d: GcodeData) -> Result<
    GcodeData,
    ParseErrorView,
>
    decreases words.len() - i,
{
    if i < 0 || i >= words.len() {
        Ok(d)
    } else {
        match field_step(d, words[i]) {
            Ok(d2) => fields_from(words, i + 1, d2),
            Err(e) => Err(e),
        }
    }
}

pub open spec fn no_fields(c: Command) -> GcodeData {
    GcodeData {
        command: c,
        target_tokens: VectorToken { x: None, y: None, z: None },
        rotation_center_tokens: VectorToken { x: None, y: None, z: None },
        speed: None,
    }
}

/// What a line means: its command, then every later word in order.
pub open spec fn parse_line(line: Seq<char>) -> Result<GcodeData, ParseErrorView> {
    match line_command(line) {
        Ok(c) => fields_from(words_of(line), 1, no_fields(c)),
        Err(e) => Err(e),
    }
}

fn command_from(s: &Vec<char>, from: usize, to: usize) -> (r: Option<Command>)
    requires
        from <= to <= s@.len(),
    ensures
        r == command_of(s@.subrange(from as int, to as int)),
{
    let ghost w = s@.subrange(from as int, to as int);
    let n = to - from;
    if n == 2 && s[from] == 'G' && s[from + 1] == '0' {
        assert(w =~= seq!['G', '0']);
        Some(Command::RapidMove)
    } else if n == 3 && s[from] == 'G' && s[from + 1] == '0' && s[from + 2] == '0' {
        assert(w =~= seq!['G', '0', '0']);
        Some(Command::RapidMove)
    } else if n == 2 && s[from] == 'G' && s[from + 1] == '1' {
        assert(w =~= seq!['G', '1']);
        Some(Command::LinearMove)
    } else if n == 3 && s[from] == 'G' && s[from + 1] == '0' && s[from + 2] == '1' {
        assert(w =~= seq!['G', '0', '1']);
        Some(Command::LinearMove)
    } else if n == 3 && s[from] == 'G' && s[from + 1] == '9' && s[from + 2] == '0' {
        assert(w =~= seq!['G', '9', '0']);
        Some(Command::SetAbsoluteMode)
    } else if n == 3 && s[from] == 'G' && s[from + 1] == '9' && s[from + 2] == '1' {
        assert(w =~= seq!['G', '9', '1']);
        Some(Command::SetRelativeMode)
    } else {
        assert(w.len() == 2 ==> w[0] == s@[from as int] && w[1] == s@[from + 1]);
        assert(w.len() == 3 ==> w[0] == s@[from as int] && w[1] == s@[from + 1] && w[2] == s@[from
            + 2]);
        None
    }
}

fn selector(c: char) -> (r: bool)
    ensures
        r == is_selector(c),
{
    c == 'X' || c == 'Y' || c == 'Z' || c == 'I' || c == 'J' || c == 'K' || c == 'F'
}

fn apply_field(d: GcodeData, c: char, v: i64) -> (r: GcodeData)
    ensures
        r == with_field(d, c, v),
{
    let mut r = d;
    if c == 'X' {
        r.target_tokens.x = Some(v);
    } else if c == 'Y' {
        r.target_tokens.y = Some(v);
    } else if c == 'Z' {
        r.target_tokens.z = Some(v);
    } else if c == 'I' {
        r.rotation_center_tokens.x = Some(v);
    } else if c == 'J' {
        r.rotation_center_tokens.y = Some(v);
    } else if c == 'K' {
        r.rotation_center_tokens.z = Some(v);
    } else if c == 'F' && d.speed.is_none() {
        r.speed = Some(v);
    }
    r
}

/// Reads G-code lines.
#[derive(Clone, Copy, Debug, Default)]
pub struct GcodeParser;

impl GcodeParser {
    /// The command that the first word of `gcode_line` names.
    pub fn parse_cmd(gcode_line: &str) -> (r: Result<Command, ParseError>)
        ensures
            match r {
                Ok(c) => line_command(gcode_line@) == Ok::<Command, ParseErrorView>(c),
                Err(e) => line_command(gcode_line@) == Err::<Command, ParseErrorView>(e@),
            },
    {
        let chars = chars_of(gcode_line);
        let words = split_words(&chars);
        Self::command_of_words(&chars, &words)
    }

    fn command_of_words(chars: &Vec<char>, words: &Vec<crate::text::Span>) -> (r: Result<
        Command,
        ParseError,
    >)
        requires
            words@.len() == words_of(chars@).len(),
            forall|i: int|
                0 <= i < words@.len() ==> (#[trigger] words@[i]).start <= words@[i].end
                    <= chars@.len(),
            forall|i: int|
                0 <= i < words@.len() ==> chars@.subrange(words@[i].start as int, words@[i].end as int)
                    == #[trigger] words_of(chars@)[i],
        ensures
            match r {
                Ok(c) => line_command(chars@) == Ok::<Command, ParseErrorView>(c),
                Err(e) => line_command(chars@) == Err::<Command, ParseErrorView>(e@),
            },
    {
        if words.len() == 0 {
            return Err(ParseError::EmptyLine);
        }
        let first = words[0];
        assert(chars@.subrange(first.start as int, first.end as int) == words_of(chars@)[0]);
        match command_from(chars, first.start, first.end) {
            Some(c) => Ok(c),
            None => Err(ParseError::UnknownCommand(string_of(chars, first.start, first.end))),
        }
    }

    /// Reads a whole line: its command, then each later word that starts
    /// with a field letter.
    pub fn parse(&self, gcode_line: &str) -> (r: Result<GcodeData, ParseError>)
        ensures
            match r {
                Ok(d) => parse_line(gcode_line@) == Ok::<GcodeData, ParseErrorView>(d),
                Err(e) => parse_line(gcode_line@) == Err::<GcodeData, ParseErrorView>(e@),
            },
    {
        let chars = chars_of(gcode_line);
        let words = split_words(&chars);
        let ghost ws = words_of(chars@);
        let command = match Self::command_of_words(&chars, &words) {
            Ok(c) => c,
            Err(e) => return Err(e),
        };
        let mut data = GcodeData {
            command,
            target_tokens: VectorToken { x: None, y: None, z: None },
            rotation_center_tokens: VectorToken { x: None, y: None, z: None },
            speed: None,
        };
        assert(data == no_fields(command));
        assert(parse_line(gcode_line@) == fields_from(ws, 1, no_fields(command)));
        let mut i: usize = 1;
        while i < words.len()
            invariant
                1 <= i <= words@.len(),
                parse_line(gcode_line@) == fields_from(ws, 1, no_fields(command)),
                ws == words_of(chars@),
                words@.len() == ws.len(),
                forall|k: int|
                    0 <= k < words@.len() ==> (#[trigger] words@[k]).start <= words@[k].end
                        <= chars@.len(),
                forall|k: int|
                    0 <= k < words@.len() ==> chars@.subrange(
                        words@[k].start as int,
                        words@[k].end as int,
                    ) == #[trigger] ws[k],
                fields_from(ws, 1, no_fields(command)) == fields_from(ws, i as int, data),
            decreases words@.len() - i,
        {
            let w = words[i];
            let ghost word = ws[i as int];
            assert(chars@.subrange(w.start as int, w.end as int) == word);
            if w.start < w.end && selector(chars[w.start]) {
                let c = chars[w.start];
                assert(word[0] == c);
                assert(word.drop_first() =~= chars@.subrange(w.start + 1, w.end as int));
                match parse_decimal(&chars, w.start + 1, w.end) {
                    Some(v) => {
                        data = apply_field(data, c, v);
                    },
                    None => {
                        let text = string_of(&chars, w.start + 1, w.end);
                        let e = ParseError::InvalidFieldValue(c, text);
                        assert(field_step(data, word) == Err::<GcodeData, ParseErrorView>(e@));
                        assert(fields_from(ws, i as int, data) == Err::<GcodeData, ParseErrorView>(
                            e@,
                        ));
                        return Err(e);
                    },
                }
            }
            i = i + 1;
        }
        Ok(data)
    }
}

} // verus!
