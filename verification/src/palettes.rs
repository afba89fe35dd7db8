//! Cycling through the static color palettes, and reading palette files
//! (JASC-PAL, or plain text with one RGB color per line).

use vstd::prelude::*;
use crate::text::{fields, field_views, seq_eq, spec_fields, Separator};
use crate::tools::{decimal, parse_unsigned, spec_parse_unsigned};

verus! {

/// The palette after `index` among `count` palettes, wrapping to the first.
pub fn next_palette_index(index: usize, count: usize) -> (r: usize)
    requires
        count > 0,
        index < count,
    ensures
        r == (index + 1) % (count as int),
        r < count,
{
    if index + 1 == count {
        proof {
            vstd::arithmetic::div_mod::lemma_mod_self_0(count as int);
        }
        0
    } else {
        proof {
            vstd::arithmetic::div_mod::lemma_small_mod((index + 1) as nat, count as nat);
        }
        index + 1
    }
}

/// The palette before `index` among `count` palettes, wrapping to the last.
pub fn prev_palette_index(index: usize, count: usize) -> (r: usize)
    requires
        count > 0,
        index < count,
    ensures
        r == (if index == 0 { count - 1 } else { index - 1 }),
        r < count,
{
    if index == 0 {
        count - 1
    } else {
        index - 1
    }
}

/// Stepping forward then back (or back then forward) returns to the same
/// palette.
pub proof fn lemma_palette_steps_inverse(index: int, count: int)
    requires
        count > 0,
        0 <= index < count,
    ensures
        ({
            let n = (index + 1) % count;
            (if n == 0 { count - 1 } else { n - 1 }) == index
        }),
        ({
            let p = if index == 0 { count - 1 } else { index - 1 };
            (p + 1) % count == index
        }),
{
    if index + 1 == count {
        vstd::arithmetic::div_mod::lemma_mod_self_0(count);
    } else {
        vstd::arithmetic::div_mod::lemma_small_mod((index + 1) as nat, count as nat);
    }
    if index == 0 {
        vstd::arithmetic::div_mod::lemma_mod_self_0(count);
    } else {
        vstd::arithmetic::div_mod::lemma_small_mod(index as nat, count as nat);
    }
}

/// Why a palette file was refused.
#[derive(Debug, Clone, Copy, PartialEq, Eq, Structural)]
pub enum PalError {
    /// A JASC-PAL file with fewer than three non-blank lines.
    TooFewLines,
    /// The JASC-PAL color count is not an unsigned integer.
    InvalidColorCount,
    /// The JASC-PAL color count is below two.
    TooFewColors,
    /// A JASC-PAL color line whose red component is not a byte.
    InvalidRed,
    /// A JASC-PAL color line whose green component is not a byte.
    InvalidGreen,
    /// A JASC-PAL color line whose blue component is not a byte.
    InvalidBlue,
    /// A JASC-PAL file with fewer than two color lines.
    TooFewValidColors,
    /// A plain-text file with fewer than two usable colors.
    TooFewRgbColors,
}

impl PalError {
    pub open spec fn spec_message(self) -> Seq<char> {
        match self {
            PalError::TooFewLines => "Invalid JASC-PAL file: too few lines"@,
            PalError::InvalidColorCount => "Invalid color count"@,
            PalError::TooFewColors => "Need at least 2 colors"@,
            PalError::InvalidRed => "Invalid R value"@,
            PalError::InvalidGreen => "Invalid G value"@,
            PalError::InvalidBlue => "Invalid B value"@,
            PalError::TooFewValidColors => "Need at least 2 valid colors"@,
            PalError::TooFewRgbColors => "Need at least 2 valid RGB colors (format: R G B per line, 0-255 or 0.0-1.0)"@,
        }
    }

    /// The message shown to the user.
    pub fn message(&self) -> (m: &'static str)
        ensures
            m@ == self.spec_message(),
    {
        match self {
            PalError::TooFewLines => "Invalid JASC-PAL file: too few lines",
            PalError::InvalidColorCount => "Invalid color count",
            PalError::TooFewColors => "Need at least 2 colors",
            PalError::InvalidRed => "Invalid R value",
            PalError::InvalidGreen => "Invalid G value",
            PalError::InvalidBlue => "Invalid B value",
            PalError::TooFewValidColors => "Need at least 2 valid colors",
            PalError::TooFewRgbColors => "Need at least 2 valid RGB colors (format: R G B per line, 0-255 or 0.0-1.0)",
        }
    }
}

/// A color line of a plain-text palette: three bytes, or three other
/// fields that may still be fractions between 0 and 1.
pub enum PalEntry {
    Bytes(u8, u8, u8),
    Decimal(Vec<char>, Vec<char>, Vec<char>),
}

/// A plain-text color line, by its characters.
pub enum PalEntrySpec {
    Bytes(u8, u8, u8),
    Decimal(Seq<char>, Seq<char>, Seq<char>),
}

impl View for PalEntry {
    type V = PalEntrySpec;

    open spec fn view(&self) -> PalEntrySpec {
        match self {
            PalEntry::Bytes(r, g, b) => PalEntrySpec::Bytes(*r, *g, *b),
            PalEntry::Decimal(r, g, b) => PalEntrySpec::Decimal(r@, g@, b@),
        }
    }
}

/// The colors a palette file lists.
pub enum PalContent {
    /// The color lines of a JASC-PAL file.
    Jasc(Vec<(u8, u8, u8)>),
    /// The color lines of a plain-text file.
    Plain(Vec<PalEntry>),
}

/// The colors of a palette file, by their characters.
pub enum PalContentSpec {
    Jasc(Seq<(u8, u8, u8)>),
    Plain(Seq<PalEntrySpec>),
}

impl View for PalContent {
    type V = PalContentSpec;

    open spec fn view(&self) -> PalContentSpec {
        match self {
            PalContent::Jasc(v) => PalContentSpec::Jasc(v@),
            PalContent::Plain(v) => PalContentSpec::Plain(v@.map_values(|e: PalEntry| e@)),
        }
    }
}

/// The header line of a JASC-PAL file.
pub open spec fn jasc_header() -> Seq<char> {
    seq!['J', 'A', 'S', 'C', '-', 'P', 'A', 'L']
}

/// A byte component: an unsigned integer no larger than 255.
pub open spec fn spec_parse_byte(s: Seq<char>) -> Option<u8> {
    match spec_parse_unsigned(s, 255) {
        Some(v) => Some(v as u8),
        None => None,
    }
}

/// A JASC-PAL color line split into words: lines of fewer than three
/// words are skipped, otherwise the first three must be bytes.
pub open spec fn spec_jasc_line(parts: Seq<Seq<char>>) -> Result<Option<(u8, u8, u8)>, PalError> {
    if parts.len() < 3 {
        Ok(None)
    } else {
        match (spec_parse_byte(parts[0]), spec_parse_byte(parts[1]), spec_parse_byte(parts[2])) {
            (None, _, _) => Err(PalError::InvalidRed),
            (Some(_), None, _) => Err(PalError::InvalidGreen),
            (Some(_), Some(_), None) => Err(PalError::InvalidBlue),
            (Some(r), Some(g), Some(b)) => Ok(Some((r, g, b))),
        }
    }
}

/// The colors of the JASC-PAL color lines, in order; the first refused
/// line decides the error.
pub open spec fn spec_jasc_colors(lines: Seq<Seq<char>>) -> Result<Seq<(u8, u8, u8)>, PalError>
    decreases lines.len(),
{
    if lines.len() == 0 {
        Ok(seq![])
    } else {
        match spec_jasc_colors(lines.drop_last()) {
            Err(e) => Err(e),
            Ok(prev) => match spec_jasc_line(spec_fields(lines.last(), Separator::Whitespace)) {
                Err(e) => Err(e),
                Ok(None) => Ok(prev),
                Ok(Some(c)) => Ok(prev.push(c)),
            },
        }
    }
}

/// A plain-text color line split at white space and commas.
pub open spec fn spec_plain_entry(parts: Seq<Seq<char>>) -> PalEntrySpec {
    match (spec_parse_byte(parts[0]), spec_parse_byte(parts[1]), spec_parse_byte(parts[2])) {
        (Some(r), Some(g), Some(b)) => PalEntrySpec::Bytes(r, g, b),
        _ => PalEntrySpec::Decimal(parts[0], parts[1], parts[2]),
    }
}

/// The entries of the plain-text color lines, in order; lines of fewer
/// than three fields are skipped.
pub open spec fn spec_plain_entries(lines: Seq<Seq<char>>) -> Seq<PalEntrySpec>
    decreases lines.len(),
{
    if lines.len() == 0 {
        seq![]
    } else {
        let parts = spec_fields(lines.last(), Separator::WhitespaceOrComma);
        if parts.len() < 3 {
            spec_plain_entries(lines.drop_last())
        } else {
            spec_plain_entries(lines.drop_last()).push(spec_plain_entry(parts))
        }
    }
}

/// What a palette file holds. Its lines are the non-blank lines, trimmed.
/// A file whose first line is `JASC-PAL` needs at least three lines, a
/// color count of at least two on the third, and at least two color lines
/// after it; any other file is read as plain text.
pub open spec fn spec_parse_pal(s: Seq<char>) -> Result<PalContentSpec, PalError> {
    let lines = spec_fields(s, Separator::Newline);
    if lines.len() > 0 && lines[0] == jasc_header() {
        if lines.len() < 3 {
            Err(PalError::TooFewLines)
        } else {
            match spec_parse_unsigned(lines[2], usize::MAX as int) {
                None => Err(PalError::InvalidColorCount),
                Some(n) => if n < 2 {
                    Err(PalError::TooFewColors)
                } else {
                    match spec_jasc_colors(lines.skip(3)) {
                        Err(e) => Err(e),
                        Ok(c) => if c.len() < 2 {
                            Err(PalError::TooFewValidColors)
                        } else {
                            Ok(PalContentSpec::Jasc(c))
                        },
                    }
                },
            }
        }
    } else {
        Ok(PalContentSpec::Plain(spec_plain_entries(lines)))
    }
}

/// Parses one byte component.
fn parse_byte(v: &Vec<char>) -> (r: Option<u8>)
    ensures
        r == spec_parse_byte(v@),
{
    match parse_unsigned(v, 255) {
        Some(x) => Some(x as u8),
        None => None,
    }
}

/// The colors of the JASC-PAL color lines `lines[3..]`.
fn jasc_colors(lines: &Vec<Vec<char>>) -> (r: Result<Vec<(u8, u8, u8)>, PalError>)
    requires
        lines@.len() >= 3,
    ensures
        match r {
            Ok(c) => spec_jasc_colors(field_views(lines@).skip(3)) == Ok::<Seq<(u8, u8, u8)>, PalError>(c@),
            Err(e) => spec_jasc_colors(field_views(lines@).skip(3)) == Err::<Seq<(u8, u8, u8)>, PalError>(e),
        },
{
    let ghost all = field_views(lines@).skip(3);
    let mut out: Vec<(u8, u8, u8)> = Vec::new();
    let n = lines.len();
    let mut i: usize = 3;
    assert(all.take(0) =~= Seq::<Seq<char>>::empty());
    while i < n
        invariant
            n == lines@.len(),
            3 <= i <= n,
            all == field_views(lines@).skip(3),
            spec_jasc_colors(all.take(i - 3)) == Ok::<Seq<(u8, u8, u8)>, PalError>(out@),
        decreases n - i,
    {
        let parts = fields(&lines[i], Separator::Whitespace);
        let ghost pre = all.take(i - 3);
        let ghost post = all.take(i - 2);
        assert(post.drop_last() =~= pre);
        assert(post.last() == lines@[i as int]@);
        if parts.len() >= 3 {
            let r = parse_byte(&parts[0]);
            let g = parse_byte(&parts[1]);
            let b = parse_byte(&parts[2]);
            assert(field_views(parts@)[0] == parts@[0]@);
            assert(field_views(parts@)[1] == parts@[1]@);
            assert(field_views(parts@)[2] == parts@[2]@);
            match (r, g, b) {
                (None, _, _) => {
                    proof { lemma_jasc_error_persists(all, (i - 2) as int); }
                    return Err(PalError::InvalidRed);
                },
                (Some(_), None, _) => {
                    proof { lemma_jasc_error_persists(all, (i - 2) as int); }
                    return Err(PalError::InvalidGreen);
                },
                (Some(_), Some(_), None) => {
                    proof { lemma_jasc_error_persists(all, (i - 2) as int); }
                    return Err(PalError::InvalidBlue);
                },
                (Some(r), Some(g), Some(b)) => {
                    out.push((r, g, b));
                },
            }
        }
        i = i + 1;
    }
    assert(all.take(n - 3) =~= all);
    Ok(out)
}

/// Once a prefix of the color lines is refused, so are all the lines.
proof fn lemma_jasc_error_persists(all: Seq<Seq<char>>, k: int)
    requires
        0 <= k <= all.len(),
        spec_jasc_colors(all.take(k)) is Err,
    ensures
        spec_jasc_colors(all) == spec_jasc_colors(all.take(k)),
    decreases all.len() - k,
{
    if k < all.len() {
        assert(all.take(k + 1).drop_last() =~= all.take(k));
        lemma_jasc_error_persists(all, k + 1);
    } else {
        assert(all.take(k) =~= all);
    }
}

/// The entries of plain-text color lines.
fn plain_entries(lines: &Vec<Vec<char>>) -> (r: Vec<PalEntry>)
    ensures
        r@.map_values(|e: PalEntry| e@) == spec_plain_entries(field_views(lines@)),
{
    let ghost all = field_views(lines@);
    let mut out: Vec<PalEntry> = Vec::new();
    let n = lines.len();
    let mut i: usize = 0;
    assert(all.take(0) =~= Seq::<Seq<char>>::empty());
    assert(out@.map_values(|e: PalEntry| e@) =~= Seq::<PalEntrySpec>::empty());
    while i < n
        invariant
            n == lines@.len(),
            i <= n,
            all == field_views(lines@),
            out@.map_values(|e: PalEntry| e@) == spec_plain_entries(all.take(i as int)),
        decreases n - i,
    {
        let parts = fields(&lines[i], Separator::WhitespaceOrComma);
        let ghost pre = all.take(i as int);
        let ghost post = all.take(i + 1);
        assert(post.drop_last() =~= pre);
        assert(post.last() == lines@[i as int]@);
        let ghost before = out@.map_values(|e: PalEntry| e@);
        if parts.len() >= 3 {
            let r = parse_byte(&parts[0]);
            let g = parse_byte(&parts[1]);
            let b = parse_byte(&parts[2]);
            assert(field_views(parts@)[0] == parts@[0]@);
            assert(field_views(parts@)[1] == parts@[1]@);
            assert(field_views(parts@)[2] == parts@[2]@);
            let e = match (r, g, b) {
                (Some(r), Some(g), Some(b)) => PalEntry::Bytes(r, g, b),
                _ => PalEntry::Decimal(parts[0].clone(), parts[1].clone(), parts[2].clone()),
            };
            assert(e@ == spec_plain_entry(field_views(parts@)));
            out.push(e);
            assert(out@.map_values(|e: PalEntry| e@) =~= before.push(spec_plain_entry(field_views(parts@))));
        } else {
            assert(out@.map_values(|e: PalEntry| e@) =~= before);
        }
        i = i + 1;
    }
    assert(all.take(n as int) =~= all);
    out
}

/// Reads the colors of a palette file.
pub fn parse_pal_content(contents: &str) -> (r: Result<PalContent, PalError>)
    ensures
        match r {
            Ok(c) => spec_parse_pal(contents@) == Ok::<PalContentSpec, PalError>(c@),
            Err(e) => spec_parse_pal(contents@) == Err::<PalContentSpec, PalError>(e),
        },
{
    let text = crate::text::chars_of(contents);
    let lines = fields(&text, Separator::Newline);
    let ghost lv = field_views(lines@);
    let header: Vec<char> = vec!['J', 'A', 'S', 'C', '-', 'P', 'A', 'L'];
    assert(header@ =~= jasc_header());
    let is_jasc = lines.len() > 0 && seq_eq(&lines[0], &header);
    proof {
        if lines@.len() > 0 {
            assert(lv[0] == lines@[0]@);
        }
    }
    if is_jasc {
        if lines.len() < 3 {
            return Err(PalError::TooFewLines);
        }
        assert(lv[2] == lines@[2]@);
        let count = parse_unsigned(&lines[2], usize::MAX as u64);
        match count {
            None => {
                return Err(PalError::InvalidColorCount);
            },
            Some(n) => {
                if n < 2 {
                    return Err(PalError::TooFewColors);
                }
            },
        }
        match jasc_colors(&lines) {
            Err(e) => Err(e),
            Ok(c) => {
                if c.len() < 2 {
                    Err(PalError::TooFewValidColors)
                } else {
                    Ok(PalContent::Jasc(c))
                }
            },
        }
    } else {
        let entries = plain_entries(&lines);
        Ok(PalContent::Plain(entries))
    }
}

/// A JASC-PAL color line: three decimal bytes give that color, in order;
/// a line of fewer than three words is skipped; and a component past 255
/// is refused, the first such component deciding the error (red, then
/// green, then blue).
pub proof fn lemma_jasc_line_components(r: nat, g: nat, b: nat, parts: Seq<Seq<char>>)
    ensures
        (r <= 255 && g <= 255 && b <= 255) ==> spec_jasc_line(seq![decimal(r), decimal(g), decimal(b)])
            == Ok::<Option<(u8, u8, u8)>, PalError>(Some((r as u8, g as u8, b as u8))),
        r > 255 ==> spec_jasc_line(seq![decimal(r), decimal(g), decimal(b)]) == Err::<Option<(u8, u8, u8)>, PalError>(PalError::InvalidRed),
        (r <= 255 && g > 255) ==> spec_jasc_line(seq![decimal(r), decimal(g), decimal(b)]) == Err::<Option<(u8, u8, u8)>, PalError>(PalError::InvalidGreen),
        (r <= 255 && g <= 255 && b > 255) ==> spec_jasc_line(seq![decimal(r), decimal(g), decimal(b)]) == Err::<Option<(u8, u8, u8)>, PalError>(PalError::InvalidBlue),
        parts.len() < 3 ==> spec_jasc_line(parts) == Ok::<Option<(u8, u8, u8)>, PalError>(None),
{
    crate::tools::lemma_parse_decimal_bounded(r, 255);
    crate::tools::lemma_parse_decimal_bounded(g, 255);
    crate::tools::lemma_parse_decimal_bounded(b, 255);
}

/// A plain-text color line of three decimal bytes is that color as bytes;
/// with a component past 255 the three fields are kept as written, to be
/// read as fractions.
pub proof fn lemma_plain_entry_components(r: nat, g: nat, b: nat)
    ensures
        (r <= 255 && g <= 255 && b <= 255) ==> spec_plain_entry(seq![decimal(r), decimal(g), decimal(b)])
            == PalEntrySpec::Bytes(r as u8, g as u8, b as u8),
        (r > 255 || g > 255 || b > 255) ==> spec_plain_entry(seq![decimal(r), decimal(g), decimal(b)])
            == PalEntrySpec::Decimal(decimal(r), decimal(g), decimal(b)),
{
    crate::tools::lemma_parse_decimal_bounded(r, 255);
    crate::tools::lemma_parse_decimal_bounded(g, 255);
    crate::tools::lemma_parse_decimal_bounded(b, 255);
}

/// The messages of the palette-file errors.
pub proof fn lemma_pal_error_messages()
    ensures
        PalError::TooFewLines.spec_message() == seq!['I', 'n', 'v', 'a', 'l', 'i', 'd', ' ', 'J', 'A', 'S', 'C', '-', 'P', 'A', 'L', ' ', 'f', 'i', 'l', 'e', ':', ' ', 't', 'o', 'o', ' ', 'f', 'e', 'w', ' ', 'l', 'i', 'n', 'e', 's'],
        PalError::InvalidColorCount.spec_message() == seq!['I', 'n', 'v', 'a', 'l', 'i', 'd', ' ', 'c', 'o', 'l', 'o', 'r', ' ', 'c', 'o', 'u', 'n', 't'],
        PalError::TooFewColors.spec_message() == seq!['N', 'e', 'e', 'd', ' ', 'a', 't', ' ', 'l', 'e', 'a', 's', 't', ' ', '2', ' ', 'c', 'o', 'l', 'o', 'r', 's'],
        PalError::InvalidRed.spec_message() == seq!['I', 'n', 'v', 'a', 'l', 'i', 'd', ' ', 'R', ' ', 'v', 'a', 'l', 'u', 'e'],
        PalError::InvalidGreen.spec_message() == seq!['I', 'n', 'v', 'a', 'l', 'i', 'd', ' ', 'G', ' ', 'v', 'a', 'l', 'u', 'e'],
        PalError::InvalidBlue.spec_message() == seq!['I', 'n', 'v', 'a', 'l', 'i', 'd', ' ', 'B', ' ', 'v', 'a', 'l', 'u', 'e'],
        PalError::TooFewValidColors.spec_message() == seq!['N', 'e', 'e', 'd', ' ', 'a', 't', ' ', 'l', 'e', 'a', 's', 't', ' ', '2', ' ', 'v', 'a', 'l', 'i', 'd', ' ', 'c', 'o', 'l', 'o', 'r', 's'],
        PalError::TooFewRgbColors.spec_message() == seq!['N', 'e', 'e', 'd', ' ', 'a', 't', ' ', 'l', 'e', 'a', 's', 't', ' ', '2', ' ', 'v', 'a', 'l', 'i', 'd', ' ', 'R', 'G', 'B', ' ', 'c', 'o', 'l', 'o', 'r', 's', ' ', '(', 'f', 'o', 'r', 'm', 'a', 't', ':', ' ', 'R', ' ', 'G', ' ', 'B', ' ', 'p', 'e', 'r', ' ', 'l', 'i', 'n', 'e', ',', ' ', '0', '-', '2', '5', '5', ' ', 'o', 'r', ' ', '0', '.', '0', '-', '1', '.', '0', ')'],
{
    reveal_strlit("Invalid JASC-PAL file: too few lines");
    assert(PalError::TooFewLines.spec_message() =~= seq!['I', 'n', 'v', 'a', 'l', 'i', 'd', ' ', 'J', 'A', 'S', 'C', '-', 'P', 'A', 'L', ' ', 'f', 'i', 'l', 'e', ':', ' ', 't', 'o', 'o', ' ', 'f', 'e', 'w', ' ', 'l', 'i', 'n', 'e', 's']);
    reveal_strlit("Invalid color count");
    assert(PalError::InvalidColorCount.spec_message() =~= seq!['I', 'n', 'v', 'a', 'l', 'i', 'd', ' ', 'c', 'o', 'l', 'o', 'r', ' ', 'c', 'o', 'u', 'n', 't']);
    reveal_strlit("Need at least 2 colors");
    assert(PalError::TooFewColors.spec_message() =~= seq!['N', 'e', 'e', 'd', ' ', 'a', 't', ' ', 'l', 'e', 'a', 's', 't', ' ', '2', ' ', 'c', 'o', 'l', 'o', 'r', 's']);
    reveal_strlit("Invalid R value");
    assert(PalError::InvalidRed.spec_message() =~= seq!['I', 'n', 'v', 'a', 'l', 'i', 'd', ' ', 'R', ' ', 'v', 'a', 'l', 'u', 'e']);
    reveal_strlit("Invalid G value");
    assert(PalError::InvalidGreen.spec_message() =~= seq!['I', 'n', 'v', 'a', 'l', 'i', 'd', ' ', 'G', ' ', 'v', 'a', 'l', 'u', 'e']);
    reveal_strlit("Invalid B value");
    assert(PalError::InvalidBlue.spec_message() =~= seq!['I', 'n', 'v', 'a', 'l', 'i', 'd', ' ', 'B', ' ', 'v', 'a', 'l', 'u', 'e']);
    reveal_strlit("Need at least 2 valid colors");
    assert(PalError::TooFewValidColors.spec_message() =~= seq!['N', 'e', 'e', 'd', ' ', 'a', 't', ' ', 'l', 'e', 'a', 's', 't', ' ', '2', ' ', 'v', 'a', 'l', 'i', 'd', ' ', 'c', 'o', 'l', 'o', 'r', 's']);
    reveal_strlit("Need at least 2 valid RGB colors (format: R G B per line, 0-255 or 0.0-1.0)");
    assert(PalError::TooFewRgbColors.spec_message() =~= seq!['N', 'e', 'e', 'd', ' ', 'a', 't', ' ', 'l', 'e', 'a', 's', 't', ' ', '2', ' ', 'v', 'a', 'l', 'i', 'd', ' ', 'R', 'G', 'B', ' ', 'c', 'o', 'l', 'o', 'r', 's', ' ', '(', 'f', 'o', 'r', 'm', 'a', 't', ':', ' ', 'R', ' ', 'G', ' ', 'B', ' ', 'p', 'e', 'r', ' ', 'l', 'i', 'n', 'e', ',', ' ', '0', '-', '2', '5', '5', ' ', 'o', 'r', ' ', '0', '.', '0', '-', '1', '.', '0', ')']);
}

} // verus!
