//! Authored-source locations and positions carried by diagnostics.
use vstd::prelude::*;
use vstd::string::StringSliceAdditionalSpecFns;

verus! {

/// A line and column reported by the CSS tokenizer for a parse failure.
///
/// `line` counts from zero and `column` counts from one, as the tokenizer reports them.
#[derive(Clone, Copy, Debug, PartialEq, Eq, Hash, Structural)]
pub struct CssSourceLocation {
    /// The zero-based line of the location.
    pub line: u32,
    /// The one-based column of the location.
    pub column: u32,
}

/// A semantic authored-source position: a byte offset with its zero-based line and column.
///
/// A position built from a tokenizer location alone carries byte offset zero until the diagnostic
/// is resolved against the authored source.
#[derive(Clone, Copy, Debug, PartialEq, Eq, Hash)]
pub struct CssSourcePosition {
    byte_offset: usize,
    line: u32,
    column: u32,
}

impl CssSourcePosition {
    /// The byte offset of the position in the authored source.
    pub closed spec fn spec_byte_offset(self) -> usize {
        self.byte_offset
    }

    /// The zero-based line of the position.
    pub closed spec fn spec_line(self) -> u32 {
        self.line
    }

    /// The zero-based column of the position.
    pub closed spec fn spec_column(self) -> u32 {
        self.column
    }

    /// The position of a tokenizer location before it is resolved against its source: byte
    /// offset zero, the same line, and the column made zero-based.
    pub open spec fn spec_from_source_location(location: CssSourceLocation) -> Self {
        Self::spec_new(
            0,
            location.line,
            if location.column == 0 { 0 } else { (location.column - 1) as u32 },
        )
    }

    /// The position with the given byte offset, line, and column.
    pub closed spec fn spec_new(byte_offset: usize, line: u32, column: u32) -> Self {
        CssSourcePosition { byte_offset, line, column }
    }

    /// The parts of the position with the given byte offset, line, and column.
    pub broadcast proof fn lemma_spec_new_parts(byte_offset: usize, line: u32, column: u32)
        ensures
            #[trigger] Self::spec_new(byte_offset, line, column).spec_byte_offset() == byte_offset,
            Self::spec_new(byte_offset, line, column).spec_line() == line,
            Self::spec_new(byte_offset, line, column).spec_column() == column,
    {
    }

    /// Creates the position with the given byte offset, zero-based line, and zero-based column.
    pub fn new(byte_offset: usize, line: u32, column: u32) -> (position: Self)
        ensures
            position == Self::spec_new(byte_offset, line, column),
            position.spec_byte_offset() == byte_offset,
            position.spec_line() == line,
            position.spec_column() == column,
    {
        CssSourcePosition { byte_offset, line, column }
    }

    /// Creates the unresolved position of a tokenizer location.
    pub fn from_source_location(location: CssSourceLocation) -> (position: Self)
        ensures
            position == Self::spec_from_source_location(location),
            position.spec_byte_offset() == 0,
            position.spec_line() == location.line,
            position.spec_column() + 1 == location.column || (location.column == 0
                && position.spec_column() == 0),
    {
        Self::new(0, location.line, location.column.saturating_sub(1))
    }

    /// Returns the byte offset of the position in the authored source.
    pub fn byte_offset(self) -> (offset: usize)
        ensures
            offset == self.spec_byte_offset(),
    {
        self.byte_offset
    }

    /// Returns the zero-based line of the position.
    pub fn line(self) -> (line: u32)
        ensures
            line == self.spec_line(),
    {
        self.line
    }

    /// Returns the zero-based column of the position.
    pub fn column(self) -> (column: u32)
        ensures
            column == self.spec_column(),
    {
        self.column
    }
}

/// `value + step`, held at `u32::MAX`.
pub open spec fn saturating_step(value: u32, step: u32) -> u32 {
    if value as int + step as int > u32::MAX as int { u32::MAX } else { (value + step) as u32 }
}

/// Whether a byte continues a UTF-8 sequence.
pub open spec fn is_continuation(byte: u8) -> bool {
    0x80 <= byte < 0xC0
}

/// The zero-based line and column reached after the first `n` bytes of the source, each held at
/// `u32::MAX`.
///
/// A line feed, a carriage return, or a form feed starts a new line, and a carriage return
/// followed by a line feed starts one line. Columns count UTF-16 code units: a character beyond
/// the basic multilingual plane (a four-byte UTF-8 sequence) counts two, every other character
/// one.
pub open spec fn line_column_after(bytes: Seq<u8>, n: int) -> (u32, u32)
    decreases n,
{
    if n <= 0 {
        (0, 0)
    } else {
        let (line, column) = line_column_after(bytes, n - 1);
        let byte = bytes[n - 1];
        if byte == 0x0A && n >= 2 && bytes[n - 2] == 0x0D {
            (line, column)
        } else if byte == 0x0A || byte == 0x0D || byte == 0x0C {
            (saturating_step(line, 1), 0)
        } else if is_continuation(byte) {
            (line, column)
        } else if byte >= 0xF0 {
            (line, saturating_step(column, 2))
        } else {
            (line, saturating_step(column, 1))
        }
    }
}

/// The position of byte `offset` of the source, with the line and column it is reached at.
pub open spec fn position_in(source: &str, offset: usize) -> CssSourcePosition {
    let (line, column) = line_column_after(source.spec_bytes(), offset as int);
    CssSourcePosition::spec_new(offset, line, column)
}

/// The position of byte `offset` of the source has that byte offset.
pub broadcast proof fn lemma_position_in_offset(source: &str, offset: usize)
    ensures
        #[trigger] position_in(source, offset).spec_byte_offset() == offset,
{
    let (line, column) = line_column_after(source.spec_bytes(), offset as int);
    CssSourcePosition::lemma_spec_new_parts(offset, line, column);
}

/// Whether byte `offset` starts a character of the source, or is its end.
pub open spec fn starts_character(bytes: Seq<u8>, offset: int) -> bool {
    offset == bytes.len() || (0 <= offset < bytes.len() && !is_continuation(bytes[offset]))
}

/// Whether a line and column lie at or after the target line and column.
pub open spec fn reaches(line: u32, column: u32, target_line: u32, target_column: u32) -> bool {
    line > target_line || (line == target_line && column >= target_column)
}

/// The first character start at or after byte `from` of the source whose line and column reach
/// the target, or the end of the source.
pub open spec fn first_start_reaching(bytes: Seq<u8>, from: int, target_line: u32, target_column: u32) -> int
    decreases bytes.len() - from,
{
    if from >= bytes.len() {
        bytes.len() as int
    } else {
        let (line, column) = line_column_after(bytes, from);
        if starts_character(bytes, from) && reaches(line, column, target_line, target_column) {
            from
        } else {
            first_start_reaching(bytes, from + 1, target_line, target_column)
        }
    }
}

/// The byte of the source that a tokenizer location names: the first character start whose
/// line and column reach the location's line and zero-based column, or the end of the source.
pub open spec fn location_offset_in(source: &str, location: CssSourceLocation) -> int {
    first_start_reaching(
        source.spec_bytes(),
        0,
        location.line,
        if location.column == 0 { 0 } else { (location.column - 1) as u32 },
    )
}

proof fn lemma_first_start_reaching_bounds(bytes: Seq<u8>, from: int, target_line: u32, target_column: u32)
    requires
        0 <= from <= bytes.len(),
    ensures
        from <= first_start_reaching(bytes, from, target_line, target_column) <= bytes.len(),
        starts_character(bytes, first_start_reaching(bytes, from, target_line, target_column)),
    decreases bytes.len() - from,
{
    if from < bytes.len() {
        lemma_first_start_reaching_bounds(bytes, from + 1, target_line, target_column);
    }
}

impl CssSourcePosition {
    /// Returns the position of byte `offset` of the source, with the zero-based line and column
    /// it is reached at; see [`line_column_after`].
    pub fn from_byte_offset_in(source: &str, offset: usize) -> (position: Self)
        requires
            offset <= source.spec_bytes().len(),
        ensures
            position == position_in(source, offset),
    {
        let bytes = source.as_bytes();
        let mut line: u32 = 0;
        let mut column: u32 = 0;
        let mut at: usize = 0;
        while at < offset
            invariant
                bytes@ == source.spec_bytes(),
                offset <= bytes@.len(),
                at <= offset,
                (line, column) == line_column_after(bytes@, at as int),
            decreases offset - at,
        {
            let byte = bytes[at];
            if byte == 0x0A && at >= 1 && bytes[at - 1] == 0x0D {
            } else if byte == 0x0A || byte == 0x0D || byte == 0x0C {
                line = line.saturating_add(1);
                column = 0;
            } else if 0x80 <= byte && byte < 0xC0 {
            } else if byte >= 0xF0 {
                column = column.saturating_add(2);
            } else {
                column = column.saturating_add(1);
            }
            at = at + 1;
        }
        Self::new(offset, line, column)
    }

    /// Returns the position in the source that a tokenizer location names; see
    /// [`location_offset_in`].
    pub fn from_source_location_in(source: &str, location: CssSourceLocation) -> (position: Self)
        ensures
            position == position_in(source, location_offset_in(source, location) as usize),
            0 <= location_offset_in(source, location) <= source.spec_bytes().len(),
            starts_character(source.spec_bytes(), location_offset_in(source, location)),
    {
        let bytes = source.as_bytes();
        let target_line = location.line;
        let target_column = location.column.saturating_sub(1);
        let mut line: u32 = 0;
        let mut column: u32 = 0;
        let mut at: usize = 0;
        proof {
            lemma_first_start_reaching_bounds(bytes@, 0, target_line, target_column);
        }
        while at < bytes.len()
            invariant
                bytes@ == source.spec_bytes(),
                at <= bytes@.len(),
                (line, column) == line_column_after(bytes@, at as int),
                location_offset_in(source, location) == first_start_reaching(bytes@, at as int, target_line, target_column),
            decreases bytes@.len() - at,
        {
            let byte = bytes[at];
            if !(0x80 <= byte && byte < 0xC0) && (line > target_line || (line == target_line && column >= target_column)) {
                return Self::new(at, line, column);
            }
            if byte == 0x0A && at >= 1 && bytes[at - 1] == 0x0D {
            } else if byte == 0x0A || byte == 0x0D || byte == 0x0C {
                line = line.saturating_add(1);
                column = 0;
            } else if 0x80 <= byte && byte < 0xC0 {
            } else if byte >= 0xF0 {
                column = column.saturating_add(2);
            } else {
                column = column.saturating_add(1);
            }
            at = at + 1;
        }
        Self::new(at, line, column)
    }
}

} // verus!
