//! What can be wrong with the text that `dig` prints.

use vstd::prelude::*;
use vstd::string::StringExecFns;
use crate::number::decimal;
use crate::number::format_number;
use crate::text::to_text;

verus! {

/// The lines of `dig`'s output that are looked for by how they begin.
#[derive(Clone, Copy, Debug, PartialEq, Eq, Structural)]
pub enum Header {
    Flags,
    Status,
    Answer,
    Authority,
    Additional,
}

/// Why a text could not be read.
#[derive(Clone, Debug, PartialEq, Eq)]
pub enum ParseError {
    /// A line that must be there is not.
    LineNotFound(Header),
    /// A line that may come once comes again.
    LineRepeated(Header),
    /// The line lacks the character that ends its first field.
    MissingDelimiter(Header),
    /// A flag that is none of `qr`, `rd`, `ra`, `aa`, `ad`, `cd`.
    UnknownFlag(String),
    /// A status that is none of the four known ones.
    UnknownStatus(String),
    /// A text that is no decimal number, or one too large for its field.
    InvalidNumber(String),
    /// A record with fewer than four columns.
    MissingRecordType,
    /// A record whose type asks for another number of columns.
    ColumnCount(u32),
    /// A record whose class is not `IN`.
    UnknownClass(String),
    /// A domain name that does not end in a dot.
    InvalidFqdn(String),
    /// A text that is no IPv4 address in dotted decimal notation.
    InvalidAddress(String),
}

/// A `ParseError` with its texts as sequences of characters.
pub enum ParseErrorView {
    LineNotFound(Header),
    LineRepeated(Header),
    MissingDelimiter(Header),
    UnknownFlag(Seq<char>),
    UnknownStatus(Seq<char>),
    InvalidNumber(Seq<char>),
    MissingRecordType,
    ColumnCount(u32),
    UnknownClass(Seq<char>),
    InvalidFqdn(Seq<char>),
    InvalidAddress(Seq<char>),
}

impl View for ParseError {
    type V = ParseErrorView;

    open spec fn view(&self) -> ParseErrorView {
        match self {
            ParseError::LineNotFound(header) => ParseErrorView::LineNotFound(*header),
            ParseError::LineRepeated(header) => ParseErrorView::LineRepeated(*header),
            ParseError::MissingDelimiter(header) => ParseErrorView::MissingDelimiter(*header),
            ParseError::UnknownFlag(text) => ParseErrorView::UnknownFlag(text@),
            ParseError::UnknownStatus(text) => ParseErrorView::UnknownStatus(text@),
            ParseError::InvalidNumber(text) => ParseErrorView::InvalidNumber(text@),
            ParseError::MissingRecordType => ParseErrorView::MissingRecordType,
            ParseError::ColumnCount(expected) => ParseErrorView::ColumnCount(*expected),
            ParseError::UnknownClass(text) => ParseErrorView::UnknownClass(text@),
            ParseError::InvalidFqdn(text) => ParseErrorView::InvalidFqdn(text@),
            ParseError::InvalidAddress(text) => ParseErrorView::InvalidAddress(text@),
        }
    }
}

impl Header {
    /// How the line begins.
    pub open spec fn spec_text(self) -> Seq<char> {
        match self {
            Header::Flags => ";; flags: "@,
            Header::Status => ";; ->>HEADER<<- opcode: QUERY, status: "@,
            Header::Answer => ";; ANSWER SECTION:"@,
            Header::Authority => ";; AUTHORITY SECTION:"@,
            Header::Additional => ";; ADDITIONAL SECTION:"@,
        }
    }

    /// How the line begins.
    pub fn text(self) -> (text: &'static str)
        ensures
            text@ == self.spec_text(),
    {
        match self {
            Header::Flags => ";; flags: ",
            Header::Status => ";; ->>HEADER<<- opcode: QUERY, status: ",
            Header::Answer => ";; ANSWER SECTION:",
            Header::Authority => ";; AUTHORITY SECTION:",
            Header::Additional => ";; ADDITIONAL SECTION:",
        }
    }

    /// The name of the character that ends the line's first field.
    pub open spec fn spec_delimiter_name(self) -> Seq<char> {
        match self {
            Header::Flags => "semicolon (;)"@,
            Header::Status => "comma (,)"@,
            _ => "delimiter"@,
        }
    }

    /// The name of the character that ends the line's first field.
    pub fn delimiter_name(self) -> (name: &'static str)
        ensures
            name@ == self.spec_delimiter_name(),
    {
        match self {
            Header::Flags => "semicolon (;)",
            Header::Status => "comma (,)",
            _ => "delimiter",
        }
    }
}

impl ParseErrorView {
    /// The error in words.
    pub open spec fn message(self) -> Seq<char> {
        match self {
            ParseErrorView::LineNotFound(header) => "`"@ + header.spec_text()
                + "` line was not found"@,
            ParseErrorView::LineRepeated(header) => "`"@ + header.spec_text()
                + "` line was found more than once"@,
            ParseErrorView::MissingDelimiter(header) => "`"@ + header.spec_text()
                + "` line is missing a "@ + header.spec_delimiter_name(),
            ParseErrorView::UnknownFlag(text) => "unknown flag: "@ + text,
            ParseErrorView::UnknownStatus(text) => "unknown status: "@ + text,
            ParseErrorView::InvalidNumber(text) => "invalid number: "@ + text,
            ParseErrorView::MissingRecordType => "record is missing the type column"@,
            ParseErrorView::ColumnCount(expected) => "expected "@ + decimal(expected as nat)
                + " columns"@,
            ParseErrorView::UnknownClass(text) => "unknown class: "@ + text,
            ParseErrorView::InvalidFqdn(text) => "FQDN must end with a `.`: "@ + text,
            ParseErrorView::InvalidAddress(text) => "invalid IPv4 address: "@ + text,
        }
    }
}

fn join2(a: &str, b: &str) -> (text: String)
    ensures
        text@ == a@ + b@,
{
    let mut text = String::from_str(a);
    text.append(b);
    text
}

fn join3(a: &str, b: &str, c: &str) -> (text: String)
    ensures
        text@ == a@ + b@ + c@,
{
    let mut text = String::from_str(a);
    text.append(b);
    text.append(c);
    text
}

impl ParseError {
    /// The error in words, on one line.
    pub fn message(&self) -> (text: String)
        ensures
            text@ == self@.message(),
    {
        match self {
            ParseError::LineNotFound(header) => join3("`", header.text(), "` line was not found"),
            ParseError::LineRepeated(header) => join3(
                "`",
                header.text(),
                "` line was found more than once",
            ),
            ParseError::MissingDelimiter(header) => {
                let mut text = join3("`", header.text(), "` line is missing a ");
                text.append(header.delimiter_name());
                text
            },
            ParseError::UnknownFlag(flag) => join2("unknown flag: ", flag.as_str()),
            ParseError::UnknownStatus(status) => join2("unknown status: ", status.as_str()),
            ParseError::InvalidNumber(number) => join2("invalid number: ", number.as_str()),
            ParseError::MissingRecordType => String::from_str("record is missing the type column"),
            ParseError::ColumnCount(expected) => {
                let digits = to_text(&format_number(*expected as u64));
                join3("expected ", digits.as_str(), " columns")
            },
            ParseError::UnknownClass(class) => join2("unknown class: ", class.as_str()),
            ParseError::InvalidFqdn(name) => join2("FQDN must end with a `.`: ", name.as_str()),
            ParseError::InvalidAddress(address) => join2(
                "invalid IPv4 address: ",
                address.as_str(),
            ),
        }
    }
}

} // verus!
