//! Picks the lines of a G-code program that carry a G command.
use vstd::prelude::*;

verus! {

/// A `G` word of one to three digits, in either case, standing alone.
pub const GCODE_WORD_PATTERN: &'static str = "(?i)\\bg\\d{1,3}\\b";

/// Whether `pattern` is a regular expression that can be compiled.
pub uninterp spec fn regex_compiles(pattern: Seq<char>) -> bool;

/// Whether the regular expression `pattern` matches anywhere in `text`.
pub uninterp spec fn regex_finds(pattern: Seq<char>, text: Seq<char>) -> bool;

/// Relies on `regex::Regex::new`, which fails exactly on patterns it cannot
/// compile, and on `Regex::is_match`, which tells whether the expression
/// matches anywhere in the text.
#[verifier::external_body]
fn regex_is_match(pattern: &str, text: &str) -> (r: Option<bool>)
    ensures
        r is Some <==> regex_compiles(pattern@),
        r matches Some(b) ==> b == regex_finds(pattern@, text@),
{
    match regex::Regex::new(pattern) {
        Ok(re) => Some(re.is_match(text)),
        Err(_) => None,
    }
}

/// Whether a line carries a G command.
pub open spec fn is_gcode_text(line: Seq<char>) -> bool {
    regex_compiles(GCODE_WORD_PATTERN@) && regex_finds(GCODE_WORD_PATTERN@, line)
}

/// The lines of `lines` that carry a G command, in order.
pub open spec fn gcode_lines_of(lines: Seq<Seq<char>>) -> Seq<Seq<char>>
    decreases lines.len(),
{
    if lines.len() == 0 {
        Seq::empty()
    } else {
        let rest = gcode_lines_of(lines.drop_last());
        if is_gcode_text(lines.last()) {
            rest.push(lines.last())
        } else {
            rest
        }
    }
}

pub open spec fn texts(lines: Seq<String>) -> Seq<Seq<char>> {
    lines.map_values(|s: String| s@)
}

/// Whether `line` carries a G command.
pub fn is_gcode_line(line: &str) -> (r: bool)
    ensures
        r == is_gcode_text(line@),
{
    match regex_is_match(GCODE_WORD_PATTERN, line) {
        Some(b) => b,
        None => false,
    }
}

/// Keeps the lines that carry a G command, in their order.
pub fn select_gcode_lines(lines: &Vec<String>) -> (r: Vec<String>)
    ensures
        texts(r@) == gcode_lines_of(texts(lines@)),
{
    let mut out: Vec<String> = Vec::new();
    let mut i: usize = 0;
    while i < lines.len()
        invariant
            i <= lines@.len(),
            texts(out@) == gcode_lines_of(texts(lines@).take(i as int)),
        decreases lines@.len() - i,
    {
        let ghost taken = texts(lines@).take(i as int + 1);
        assert(taken.drop_last() =~= texts(lines@).take(i as int));
        assert(taken.last() == lines@[i as int]@);
        let line = &lines[i];
        if is_gcode_line(line.as_str()) {
            let ghost before = out@;
            out.push(line.clone());
            assert(texts(out@) =~= texts(before).push(line@));
        }
        i = i + 1;
    }
    assert(texts(lines@).take(lines@.len() as int) =~= texts(lines@));
    out
}

} // verus!
