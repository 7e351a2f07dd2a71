//! How records are written: the CSV dialect and the way the output file is opened.

use vstd::prelude::*;

verus! {

/// How a record ends.
#[derive(Clone, Copy, Debug, PartialEq, Eq, Structural)]
pub enum CsvTerminator {
    /// A carriage return followed by a line feed.
    CRLF,
    /// Any single character.
    Any(char),
}

/// The CSV dialect of the record sink.
#[derive(Clone, Copy, Debug, PartialEq, Eq, Structural)]
pub struct CsvWriterConfig {
    /// The character between two fields.
    pub delimiter: char,
    /// The character that escapes a quote; without it quotes are doubled.
    pub escape: Option<char>,
    /// Whether records may differ in their number of fields.
    pub flexible: bool,
    /// How a record ends.
    pub terminator: CsvTerminator,
}

pub fn default_csv_delimiter() -> (delimiter: char)
    ensures
        delimiter == ',',
{
    ','
}

pub fn default_csv_terminator() -> (terminator: CsvTerminator)
    ensures
        terminator == CsvTerminator::Any('\n'),
{
    CsvTerminator::Any('\n')
}

impl Default for CsvWriterConfig {
    fn default() -> (config: Self)
        ensures
            config == (CsvWriterConfig {
                delimiter: ',',
                escape: None,
                flexible: false,
                terminator: CsvTerminator::Any('\n'),
            }),
    {
        CsvWriterConfig {
            delimiter: default_csv_delimiter(),
            escape: None,
            flexible: false,
            terminator: default_csv_terminator(),
        }
    }
}

/// The byte that stands for a character in the written file: its code point,
/// cut to eight bits.
pub open spec fn byte_of(c: char) -> u8 {
    (c as u32 % 256) as u8
}

/// The byte that stands for a character in the written file.
pub fn char_byte(c: char) -> (b: u8)
    ensures
        b == byte_of(c),
{
    let code: u32 = c as u32;
    (code % 256) as u8
}

/// How a record ends, in bytes.
#[derive(Clone, Copy, Debug, PartialEq, Eq, Structural)]
pub enum Terminator {
    CRLF,
    Any(u8),
}

/// The settings of a CSV writer, in bytes.
#[derive(Clone, Copy, Debug, PartialEq, Eq, Structural)]
pub struct WriterSettings {
    pub delimiter: u8,
    pub terminator: Terminator,
    pub flexible: bool,
    /// Whether a quote inside a field is written twice.
    pub double_quote: bool,
    /// The byte that escapes a quote where quotes are not doubled.
    pub escape: Option<u8>,
}

impl CsvTerminator {
    pub open spec fn bytes(self) -> Terminator {
        match self {
            CsvTerminator::CRLF => Terminator::CRLF,
            CsvTerminator::Any(c) => Terminator::Any(byte_of(c)),
        }
    }

    /// The terminator in bytes.
    pub fn to_bytes(self) -> (t: Terminator)
        ensures
            t == self.bytes(),
    {
        match self {
            CsvTerminator::CRLF => Terminator::CRLF,
            CsvTerminator::Any(c) => Terminator::Any(char_byte(c)),
        }
    }
}

impl CsvWriterConfig {
    /// The writer settings of a dialect. Quotes are doubled exactly where no
    /// escape character is configured.
    pub open spec fn settings_spec(&self) -> WriterSettings {
        WriterSettings {
            delimiter: byte_of(self.delimiter),
            terminator: self.terminator.bytes(),
            flexible: self.flexible,
            double_quote: self.escape is None,
            escape: match self.escape {
                Some(c) => Some(byte_of(c)),
                None => None,
            },
        }
    }

    /// The settings to build the CSV writer with.
    pub fn settings(&self) -> (s: WriterSettings)
        ensures
            s == self.settings_spec(),
    {
        let escape = match self.escape {
            Some(c) => Some(char_byte(c)),
            None => None,
        };
        WriterSettings {
            delimiter: char_byte(self.delimiter),
            terminator: self.terminator.to_bytes(),
            flexible: self.flexible,
            double_quote: escape.is_none(),
            escape,
        }
    }
}

/// How the output file is opened.
#[derive(Clone, Copy, Debug, PartialEq, Eq, Structural)]
pub enum FileMode {
    /// The file is created; it is an error if it exists.
    Create,
    /// The file is created if it is missing, and written at its end.
    Append,
    /// The file is created if it is missing, and emptied if it is not.
    Truncate,
}

impl Default for FileMode {
    fn default() -> (mode: Self)
        ensures
            mode == FileMode::Create,
    {
        FileMode::Create
    }
}

/// The flags to open the output file with.
#[derive(Clone, Copy, Debug, PartialEq, Eq, Structural)]
pub struct OpenFlags {
    pub write: bool,
    pub create_new: bool,
    pub create: bool,
    pub append: bool,
    pub truncate: bool,
}

impl FileMode {
    pub open spec fn flags(self) -> OpenFlags {
        OpenFlags {
            write: true,
            create_new: self == FileMode::Create,
            create: self != FileMode::Create,
            append: self == FileMode::Append,
            truncate: self == FileMode::Truncate,
        }
    }

    /// The flags of a mode: always for writing, and exactly one way of
    /// treating a file that exists.
    pub fn open_flags(self) -> (f: OpenFlags)
        ensures
            f == self.flags(),
    {
        match self {
            FileMode::Create => OpenFlags {
                write: true,
                create_new: true,
                create: false,
                append: false,
                truncate: false,
            },
            FileMode::Append => OpenFlags {
                write: true,
                create_new: false,
                create: true,
                append: true,
                truncate: false,
            },
            FileMode::Truncate => OpenFlags {
                write: true,
                create_new: false,
                create: true,
                append: false,
                truncate: true,
            },
        }
    }
}

} // verus!
