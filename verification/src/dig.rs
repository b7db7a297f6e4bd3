//! The answer of `dig`, read from the text it prints.

use vstd::prelude::*;
use crate::error::Header;
use crate::error::ParseError;
use crate::error::ParseErrorView;
use crate::number::parse_number;
use crate::record::parse_record;
use crate::record::record_views;
use crate::record::Record;
use crate::record::RecordView;
use crate::text::lines;
use crate::text::parse_decimal;
use crate::text::same_text;
use crate::text::split_at_first;
use crate::text::split_lines;
use crate::text::split_once;
use crate::text::split_words;
use crate::text::strip_prefix;
use crate::text::to_chars;
use crate::text::to_text;
use crate::text::views;
use crate::text::without_prefix;
use crate::text::words;

verus! {

/// The response code of an answer.
#[allow(clippy::upper_case_acronyms)]
#[derive(Clone, Copy, Debug, PartialEq, Eq, Structural)]
pub enum DigStatus {
    NOERROR,
    NXDOMAIN,
    REFUSED,
    SERVFAIL,
}

/// The header flags of an answer.
#[derive(Clone, Copy, Debug, PartialEq, Eq, Structural)]
pub struct DigFlags {
    pub authenticated_data: bool,
    pub authoritative_answer: bool,
    pub checking_disabled: bool,
    pub qr: bool,
    pub recursion_available: bool,
    pub recursion_desired: bool,
}

/// The extended DNS errors that this library has a name for.
#[derive(Clone, Copy, Debug, PartialEq, Eq, Structural, PartialOrd, Ord)]
pub enum ExtendedDnsError {
    UnsupportedDnskeyAlgorithm,
    DnssecBogus,
    DnskeyMissing,
    RrsigsMissing,
    Prohibited,
    NoReachableAuthority,
}

/// What is wrong with the extended errors of a text, where this library
/// cannot read them at all.
#[derive(Clone, Copy, Debug, PartialEq, Eq, Structural)]
pub enum EdeFault {
    /// A code that this library has no name for.
    Unsupported(u16),
    /// An error that the text reports a second time.
    Duplicate(ExtendedDnsError),
}

/// Why reading a text ended early: with an error that is handed back, or at
/// a fault in its extended errors, which no reading function takes.
pub enum Stop {
    Error(ParseErrorView),
    Fault(EdeFault),
}

/// A `Stop` as the program holds it.
enum Halt {
    Error(ParseError),
    Fault(EdeFault),
}

impl Halt {
    spec fn stop(&self) -> Stop {
        match self {
            Halt::Error(error) => Stop::Error(error@),
            Halt::Fault(fault) => Stop::Fault(*fault),
        }
    }
}

/// What `dig` printed, taken apart.
///
/// The extended errors are held in ascending order of their codes, each one
/// once.
#[derive(Debug)]
pub struct DigOutput {
    pub ede: Vec<ExtendedDnsError>,
    pub flags: DigFlags,
    pub status: DigStatus,
    pub answer: Vec<Record>,
    pub authority: Vec<Record>,
    pub additional: Vec<Record>,
}

/// A `DigOutput` as a plain value: its extended errors as the set they are,
/// its records with their texts as sequences of characters.
pub struct DigOutputView {
    pub ede: Set<ExtendedDnsError>,
    pub flags: DigFlags,
    pub status: DigStatus,
    pub answer: Seq<RecordView>,
    pub authority: Seq<RecordView>,
    pub additional: Seq<RecordView>,
}

/// The three sections of an answer that hold records.
#[derive(Clone, Copy, Debug, PartialEq, Eq, Structural)]
pub enum Section {
    Answer,
    Authority,
    Additional,
}

impl DigStatus {
    /// Whether the status is `NOERROR`.
    #[must_use]
    pub fn is_noerror(&self) -> (yes: bool)
        ensures
            yes == (*self == DigStatus::NOERROR),
    {
        matches!(self, DigStatus::NOERROR)
    }

    /// Whether the status is `NXDOMAIN`.
    #[must_use]
    pub fn is_nxdomain(&self) -> (yes: bool)
        ensures
            yes == (*self == DigStatus::NXDOMAIN),
    {
        matches!(self, DigStatus::NXDOMAIN)
    }

    /// Whether the status is `SERVFAIL`.
    #[must_use]
    pub fn is_servfail(&self) -> (yes: bool)
        ensures
            yes == (*self == DigStatus::SERVFAIL),
    {
        matches!(self, DigStatus::SERVFAIL)
    }

    /// The status that a text names: one of the four names, letter for letter.
    pub open spec fn spec_from_str(input: Seq<char>) -> Result<DigStatus, ParseErrorView> {
        if input == "NXDOMAIN"@ {
            Ok(DigStatus::NXDOMAIN)
        } else if input == "NOERROR"@ {
            Ok(DigStatus::NOERROR)
        } else if input == "REFUSED"@ {
            Ok(DigStatus::REFUSED)
        } else if input == "SERVFAIL"@ {
            Ok(DigStatus::SERVFAIL)
        } else {
            Err(ParseErrorView::UnknownStatus(input))
        }
    }

    /// Reads the value from characters, as `from_str` reads it from a string.
    pub fn from_chars(input: &Vec<char>) -> (status: Result<DigStatus, ParseError>)
        ensures
            match status {
                Ok(s) => Self::spec_from_str(input@) == Ok::<DigStatus, ParseErrorView>(s),
                Err(e) => Self::spec_from_str(input@) == Err::<DigStatus, ParseErrorView>(e@),
            },
    {
        if same_text(input, "NXDOMAIN") {
            Ok(DigStatus::NXDOMAIN)
        } else if same_text(input, "NOERROR") {
            Ok(DigStatus::NOERROR)
        } else if same_text(input, "REFUSED") {
            Ok(DigStatus::REFUSED)
        } else if same_text(input, "SERVFAIL") {
            Ok(DigStatus::SERVFAIL)
        } else {
            Err(ParseError::UnknownStatus(to_text(input)))
        }
    }

    /// Reads a status by its name.
    pub fn from_str(input: &str) -> (status: Result<DigStatus, ParseError>)
        ensures
            match status {
                Ok(s) => Self::spec_from_str(input@) == Ok::<DigStatus, ParseErrorView>(s),
                Err(e) => Self::spec_from_str(input@) == Err::<DigStatus, ParseErrorView>(e@),
            },
    {
        let chars = to_chars(input);
        Self::from_chars(&chars)
    }
}

/// Whether a word is one of the six flags.
pub open spec fn is_flag(word: Seq<char>) -> bool {
    word == "qr"@ || word == "rd"@ || word == "ra"@ || word == "aa"@ || word == "ad"@ || word
        == "cd"@
}

/// How many words at the front are flags, up to the first that is none.
pub open spec fn leading_flags(flags: Seq<Seq<char>>) -> nat
    decreases flags.len(),
{
    if flags.len() == 0 || !is_flag(flags[0]) {
        0
    } else {
        1 + leading_flags(flags.drop_first())
    }
}

proof fn leading_flags_unique(flags: Seq<Seq<char>>, n: int)
    requires
        0 <= n <= flags.len(),
        forall|i: int| 0 <= i < n ==> is_flag(#[trigger] flags[i]),
        n < flags.len() ==> !is_flag(flags[n]),
    ensures
        leading_flags(flags) == n,
    decreases flags.len(),
{
    if n > 0 {
        let rest = flags.drop_first();
        assert(is_flag(flags[0]));
        assert forall|i: int| 0 <= i < n - 1 implies is_flag(#[trigger] rest[i]) by {
            assert(rest[i] == flags[i + 1]);
        }
        if n - 1 < rest.len() {
            assert(rest[n - 1] == flags[n]);
        }
        leading_flags_unique(rest, n - 1);
    }
}

proof fn flags_differ()
    ensures
        "qr"@ != "rd"@,
        "qr"@ != "ra"@,
        "qr"@ != "aa"@,
        "qr"@ != "ad"@,
        "qr"@ != "cd"@,
        "rd"@ != "ra"@,
        "rd"@ != "aa"@,
        "rd"@ != "ad"@,
        "rd"@ != "cd"@,
        "ra"@ != "aa"@,
        "ra"@ != "ad"@,
        "ra"@ != "cd"@,
        "aa"@ != "ad"@,
        "aa"@ != "cd"@,
        "ad"@ != "cd"@,
{
    reveal_strlit("qr");
    reveal_strlit("rd");
    reveal_strlit("ra");
    reveal_strlit("aa");
    reveal_strlit("ad");
    reveal_strlit("cd");
    assert("qr"@[0] != "rd"@[0]);
    assert("qr"@[0] != "ra"@[0]);
    assert("qr"@[0] != "aa"@[0]);
    assert("qr"@[0] != "ad"@[0]);
    assert("qr"@[0] != "cd"@[0]);
    assert("rd"@[1] != "ra"@[1]);
    assert("rd"@[0] != "aa"@[0]);
    assert("rd"@[0] != "ad"@[0]);
    assert("rd"@[0] != "cd"@[0]);
    assert("ra"@[0] != "aa"@[0]);
    assert("ra"@[0] != "ad"@[0]);
    assert("ra"@[0] != "cd"@[0]);
    assert("aa"@[1] != "ad"@[1]);
    assert("aa"@[0] != "cd"@[0]);
    assert("ad"@[0] != "cd"@[0]);
}

impl DigFlags {
    /// No flag set.
    pub open spec fn spec_default() -> DigFlags {
        DigFlags {
            authenticated_data: false,
            authoritative_answer: false,
            checking_disabled: false,
            qr: false,
            recursion_available: false,
            recursion_desired: false,
        }
    }

    /// The flags that a text lists: each word of it must be a flag, and a flag
    /// is set where the text names it. The first word that is no flag is the
    /// error.
    pub open spec fn spec_from_str(input: Seq<char>) -> Result<DigFlags, ParseErrorView> {
        let flags = words(input);
        if leading_flags(flags) < flags.len() {
            Err(ParseErrorView::UnknownFlag(flags[leading_flags(flags) as int]))
        } else {
            Ok(
                DigFlags {
                    authenticated_data: flags.contains("ad"@),
                    authoritative_answer: flags.contains("aa"@),
                    checking_disabled: flags.contains("cd"@),
                    qr: flags.contains("qr"@),
                    recursion_available: flags.contains("ra"@),
                    recursion_desired: flags.contains("rd"@),
                },
            )
        }
    }

    /// Reads the value from characters, as `from_str` reads it from a string.
    pub fn from_chars(input: &Vec<char>) -> (flags: Result<DigFlags, ParseError>)
        ensures
            match flags {
                Ok(f) => Self::spec_from_str(input@) == Ok::<DigFlags, ParseErrorView>(f),
                Err(e) => Self::spec_from_str(input@) == Err::<DigFlags, ParseErrorView>(e@),
            },
    {
        let mut qr = false;
        let mut recursion_desired = false;
        let mut recursion_available = false;
        let mut authoritative_answer = false;
        let mut authenticated_data = false;
        let mut checking_disabled = false;
        let found = split_words(input);
        let ghost flags = views(found@);
        let mut i: usize = 0;
        while i < found.len()
            invariant
                i <= found@.len(),
                flags == views(found@),
                flags == words(input@),
                forall|k: int| 0 <= k < i ==> is_flag(#[trigger] flags[k]),
                qr == flags.take(i as int).contains("qr"@),
                recursion_desired == flags.take(i as int).contains("rd"@),
                recursion_available == flags.take(i as int).contains("ra"@),
                authoritative_answer == flags.take(i as int).contains("aa"@),
                authenticated_data == flags.take(i as int).contains("ad"@),
                checking_disabled == flags.take(i as int).contains("cd"@),
            decreases found@.len() - i,
        {
            let flag = &found[i];
            assert(flag@ == flags[i as int]);
            proof {
                flags_differ();
                let before = flags.take(i as int);
                let after = flags.take(i + 1);
                assert(after =~= before.push(flag@));
                assert forall|word: Seq<char>| after.contains(word) == (before.contains(word)
                    || word == flag@) by {
                    if before.contains(word) {
                        let k = choose|k: int| 0 <= k < before.len() && before[k] == word;
                        assert(after[k] == word);
                    }
                    if word == flag@ {
                        assert(after[i as int] == word);
                    }
                }
            }
            if same_text(flag, "qr") {
                qr = true;
            } else if same_text(flag, "rd") {
                recursion_desired = true;
            } else if same_text(flag, "ra") {
                recursion_available = true;
            } else if same_text(flag, "aa") {
                authoritative_answer = true;
            } else if same_text(flag, "ad") {
                authenticated_data = true;
            } else if same_text(flag, "cd") {
                checking_disabled = true;
            } else {
                proof {
                    leading_flags_unique(flags, i as int);
                }
                return Err(ParseError::UnknownFlag(to_text(flag)));
            }
            i += 1;
        }
        proof {
            leading_flags_unique(flags, i as int);
            assert(flags.take(i as int) =~= flags);
        }
        Ok(
            DigFlags {
                authenticated_data,
                authoritative_answer,
                checking_disabled,
                qr,
                recursion_available,
                recursion_desired,
            },
        )
    }

    /// Reads the flags that a text lists.
    pub fn from_str(input: &str) -> (flags: Result<DigFlags, ParseError>)
        ensures
            match flags {
                Ok(f) => Self::spec_from_str(input@) == Ok::<DigFlags, ParseErrorView>(f),
                Err(e) => Self::spec_from_str(input@) == Err::<DigFlags, ParseErrorView>(e@),
            },
    {
        let chars = to_chars(input);
        Self::from_chars(&chars)
    }
}

impl Default for DigFlags {
    fn default() -> (flags: DigFlags)
        ensures
            flags == DigFlags::spec_default(),
    {
        DigFlags {
            authenticated_data: false,
            authoritative_answer: false,
            checking_disabled: false,
            qr: false,
            recursion_available: false,
            recursion_desired: false,
        }
    }
}

impl ExtendedDnsError {
    /// The code that the error has on the wire.
    pub open spec fn spec_code(self) -> u16 {
        match self {
            ExtendedDnsError::UnsupportedDnskeyAlgorithm => 1,
            ExtendedDnsError::DnssecBogus => 6,
            ExtendedDnsError::DnskeyMissing => 9,
            ExtendedDnsError::RrsigsMissing => 10,
            ExtendedDnsError::Prohibited => 18,
            ExtendedDnsError::NoReachableAuthority => 22,
        }
    }

    /// The code that the error has on the wire.
    pub fn code(self) -> (code: u16)
        ensures
            code == self.spec_code(),
    {
        match self {
            ExtendedDnsError::UnsupportedDnskeyAlgorithm => 1,
            ExtendedDnsError::DnssecBogus => 6,
            ExtendedDnsError::DnskeyMissing => 9,
            ExtendedDnsError::RrsigsMissing => 10,
            ExtendedDnsError::Prohibited => 18,
            ExtendedDnsError::NoReachableAuthority => 22,
        }
    }

    /// The error with a given code, where this library has a name for it.
    pub open spec fn spec_from_code(code: u16) -> Option<ExtendedDnsError> {
        if code == 1 {
            Some(ExtendedDnsError::UnsupportedDnskeyAlgorithm)
        } else if code == 6 {
            Some(ExtendedDnsError::DnssecBogus)
        } else if code == 9 {
            Some(ExtendedDnsError::DnskeyMissing)
        } else if code == 10 {
            Some(ExtendedDnsError::RrsigsMissing)
        } else if code == 18 {
            Some(ExtendedDnsError::Prohibited)
        } else if code == 22 {
            Some(ExtendedDnsError::NoReachableAuthority)
        } else {
            None
        }
    }

    /// The error with a given code, where this library has a name for it.
    pub fn from_code(code: u16) -> (error: Option<ExtendedDnsError>)
        ensures
            error == Self::spec_from_code(code),
    {
        match code {
            1 => Some(ExtendedDnsError::UnsupportedDnskeyAlgorithm),
            6 => Some(ExtendedDnsError::DnssecBogus),
            9 => Some(ExtendedDnsError::DnskeyMissing),
            10 => Some(ExtendedDnsError::RrsigsMissing),
            18 => Some(ExtendedDnsError::Prohibited),
            22 => Some(ExtendedDnsError::NoReachableAuthority),
            _ => None,
        }
    }

    /// The error that a text names by its code. A text that is no decimal
    /// number of 16 bits is an error; a number that is none of the six codes
    /// is a fault.
    pub open spec fn spec_from_str(input: Seq<char>) -> Result<ExtendedDnsError, Stop> {
        match parse_decimal(input, u16::MAX as nat) {
            None => Err(Stop::Error(ParseErrorView::InvalidNumber(input))),
            Some(code) => match Self::spec_from_code(code as u16) {
                Some(error) => Ok(error),
                None => Err(Stop::Fault(EdeFault::Unsupported(code as u16))),
            },
        }
    }

    /// The code that a text holds, where it is a code that this library has
    /// no name for.
    pub open spec fn spec_unsupported_code(input: Seq<char>) -> Option<u16> {
        match Self::spec_from_str(input) {
            Err(Stop::Fault(EdeFault::Unsupported(code))) => Some(code),
            _ => None,
        }
    }

    fn read_chars(input: &Vec<char>) -> (error: Result<ExtendedDnsError, Halt>)
        ensures
            match error {
                Ok(x) => Self::spec_from_str(input@) == Ok::<ExtendedDnsError, Stop>(x),
                Err(e) => Self::spec_from_str(input@) == Err::<ExtendedDnsError, Stop>(e.stop()),
            },
    {
        let code: u16 = match parse_number(input, 0xffff) {
            Some(code) => code as u16,
            None => {
                return Err(Halt::Error(ParseError::InvalidNumber(to_text(input))));
            },
        };
        match Self::from_code(code) {
            Some(error) => Ok(error),
            None => Err(Halt::Fault(EdeFault::Unsupported(code))),
        }
    }

    /// The code that a text holds, where it is a code that this library has
    /// no name for. `from_str` takes a text only where this is `None`.
    pub fn unsupported_code(input: &str) -> (code: Option<u16>)
        ensures
            code == Self::spec_unsupported_code(input@),
    {
        let chars = to_chars(input);
        match Self::read_chars(&chars) {
            Err(Halt::Fault(EdeFault::Unsupported(code))) => Some(code),
            _ => None,
        }
    }

    /// Reads the value from characters, as `from_str` reads it from a string.
    pub fn from_chars(input: &Vec<char>) -> (error: Result<ExtendedDnsError, ParseError>)
        requires
            Self::spec_unsupported_code(input@) is None,
        ensures
            match error {
                Ok(x) => Self::spec_from_str(input@) == Ok::<ExtendedDnsError, Stop>(x),
                Err(e) => Self::spec_from_str(input@) == Err::<ExtendedDnsError, Stop>(
                    Stop::Error(e@),
                ),
            },
    {
        match Self::read_chars(input) {
            Ok(error) => Ok(error),
            Err(Halt::Error(e)) => Err(e),
            Err(Halt::Fault(_)) => unreached(),
        }
    }

    /// Reads an extended error by its code. The text must not hold a code
    /// that this library has no name for; `unsupported_code` tells.
    pub fn from_str(input: &str) -> (error: Result<ExtendedDnsError, ParseError>)
        requires
            Self::spec_unsupported_code(input@) is None,
        ensures
            match error {
                Ok(x) => Self::spec_from_str(input@) == Ok::<ExtendedDnsError, Stop>(x),
                Err(e) => Self::spec_from_str(input@) == Err::<ExtendedDnsError, Stop>(
                    Stop::Error(e@),
                ),
            },
    {
        let chars = to_chars(input);
        Self::from_chars(&chars)
    }
}

/// A code and the error it names determine each other.
pub proof fn code_names_one_error(error: ExtendedDnsError, code: u16)
    ensures
        ExtendedDnsError::spec_from_code(error.spec_code()) == Some(error),
        ExtendedDnsError::spec_from_code(code) == Some(error) ==> error.spec_code() == code,
{
}

impl Section {
    /// The line that opens the section.
    pub open spec fn spec_header(self) -> Header {
        match self {
            Section::Answer => Header::Answer,
            Section::Authority => Header::Authority,
            Section::Additional => Header::Additional,
        }
    }

    /// The line that opens the section.
    pub fn header(self) -> (header: Header)
        ensures
            header == self.spec_header(),
    {
        match self {
            Section::Answer => Header::Answer,
            Section::Authority => Header::Authority,
            Section::Additional => Header::Additional,
        }
    }
}

/// What has been gathered from the lines read so far.
pub struct Reading {
    pub flags: Option<DigFlags>,
    pub status: Option<DigStatus>,
    pub ede: Set<ExtendedDnsError>,
    pub answer: Option<Seq<RecordView>>,
    pub authority: Option<Seq<RecordView>>,
    pub additional: Option<Seq<RecordView>>,
    /// The section whose records the next lines hold, if one is open.
    pub open: Option<Section>,
}

/// The text that begins a line with an extended error.
pub open spec fn ede_prefix() -> Seq<char> {
    "; EDE: "@
}

/// What a field is worth that was never given: nothing.
pub open spec fn records_or_none(records: Option<Seq<RecordView>>) -> Seq<RecordView> {
    match records {
        Some(records) => records,
        None => Seq::empty(),
    }
}

impl Reading {
    /// Before the first line: nothing gathered, no section open.
    pub open spec fn start() -> Reading {
        Reading {
            flags: None,
            status: None,
            ede: Set::empty(),
            answer: None,
            authority: None,
            additional: None,
            open: None,
        }
    }

    /// The records of `section` gathered so far, where the section was opened.
    pub open spec fn records(self, section: Section) -> Option<Seq<RecordView>> {
        match section {
            Section::Answer => self.answer,
            Section::Authority => self.authority,
            Section::Additional => self.additional,
        }
    }

    /// The same, with `records` as the records of `section`.
    pub open spec fn with_records(self, section: Section, records: Seq<RecordView>) -> Reading {
        match section {
            Section::Answer => Reading { answer: Some(records), ..self },
            Section::Authority => Reading { authority: Some(records), ..self },
            Section::Additional => Reading { additional: Some(records), ..self },
        }
    }

    /// A flags line, after its prefix: the flags end at the first semicolon.
    /// That the semicolon is there is looked at first, then that the line is
    /// the first of its kind, then the flags themselves.
    pub open spec fn read_flags(self, rest: Seq<char>) -> Result<Reading, Stop> {
        match split_once(rest, ';') {
            None => Err(Stop::Error(ParseErrorView::MissingDelimiter(Header::Flags))),
            Some((text, _)) => if self.flags is Some {
                Err(Stop::Error(ParseErrorView::LineRepeated(Header::Flags)))
            } else {
                match DigFlags::spec_from_str(text) {
                    Ok(flags) => Ok(Reading { flags: Some(flags), ..self }),
                    Err(e) => Err(Stop::Error(e)),
                }
            },
        }
    }

    /// A status line, after its prefix: the status ends at the first comma.
    pub open spec fn read_status(self, rest: Seq<char>) -> Result<Reading, Stop> {
        match split_once(rest, ',') {
            None => Err(Stop::Error(ParseErrorView::MissingDelimiter(Header::Status))),
            Some((text, _)) => if self.status is Some {
                Err(Stop::Error(ParseErrorView::LineRepeated(Header::Status)))
            } else {
                match DigStatus::spec_from_str(text) {
                    Ok(status) => Ok(Reading { status: Some(status), ..self }),
                    Err(e) => Err(Stop::Error(e)),
                }
            },
        }
    }

    /// A line with an extended error, after its prefix: the code ends at the
    /// first space, or with the line. A code without a name here is a fault,
    /// and so is an error that was reported before.
    pub open spec fn read_ede(self, rest: Seq<char>) -> Result<Reading, Stop> {
        let code = match split_once(rest, ' ') {
            Some((code, _)) => code,
            None => rest,
        };
        match ExtendedDnsError::spec_from_str(code) {
            Err(e) => Err(e),
            Ok(error) => if self.ede.contains(error) {
                Err(Stop::Fault(EdeFault::Duplicate(error)))
            } else {
                Ok(Reading { ede: self.ede.insert(error), ..self })
            },
        }
    }

    /// The line that opens a section: each section may be opened once.
    pub open spec fn open_section(self, section: Section) -> Result<Reading, Stop> {
        if self.records(section) is Some {
            Err(Stop::Error(ParseErrorView::LineRepeated(section.spec_header())))
        } else {
            Ok(Reading { open: Some(section), ..self.with_records(section, Seq::empty()) })
        }
    }

    /// A line inside a section: an empty line closes the section, any other
    /// line holds a record of it.
    pub open spec fn read_record(self, section: Section, line: Seq<char>) -> Result<Reading, Stop> {
        if line.len() == 0 {
            Ok(Reading { open: None, ..self })
        } else {
            match parse_record(line) {
                Ok(record) => Ok(
                    self.with_records(section, records_or_none(self.records(section)).push(record)),
                ),
                Err(e) => Err(Stop::Error(e)),
            }
        }
    }

    /// One more line. Outside a section a line counts by how it begins, and a
    /// line that begins in none of the known ways is passed over.
    pub open spec fn read_line(self, line: Seq<char>) -> Result<Reading, Stop> {
        if self.open is Some {
            self.read_record(self.open->0, line)
        } else if strip_prefix(line, Header::Flags.spec_text()) is Some {
            self.read_flags(strip_prefix(line, Header::Flags.spec_text())->0)
        } else if strip_prefix(line, Header::Status.spec_text()) is Some {
            self.read_status(strip_prefix(line, Header::Status.spec_text())->0)
        } else if strip_prefix(line, ede_prefix()) is Some {
            self.read_ede(strip_prefix(line, ede_prefix())->0)
        } else if strip_prefix(line, Header::Answer.spec_text()) is Some {
            self.open_section(Section::Answer)
        } else if strip_prefix(line, Header::Authority.spec_text()) is Some {
            self.open_section(Section::Authority)
        } else if strip_prefix(line, Header::Additional.spec_text()) is Some {
            self.open_section(Section::Additional)
        } else {
            Ok(self)
        }
    }

    /// After the last line: the flags and the status must have been found,
    /// and a section that never came is empty.
    pub open spec fn finish(self) -> Result<DigOutputView, Stop> {
        if self.flags is None {
            Err(Stop::Error(ParseErrorView::LineNotFound(Header::Flags)))
        } else if self.status is None {
            Err(Stop::Error(ParseErrorView::LineNotFound(Header::Status)))
        } else {
            Ok(
                DigOutputView {
                    ede: self.ede,
                    flags: self.flags->0,
                    status: self.status->0,
                    answer: records_or_none(self.answer),
                    authority: records_or_none(self.authority),
                    additional: records_or_none(self.additional),
                },
            )
        }
    }

    /// Every line in turn, to the first error or the end.
    pub open spec fn read_lines(self, lines: Seq<Seq<char>>) -> Result<DigOutputView, Stop>
        decreases lines.len(),
    {
        if lines.len() == 0 {
            self.finish()
        } else {
            match self.read_line(lines[0]) {
                Ok(next) => next.read_lines(lines.drop_first()),
                Err(e) => Err(e),
            }
        }
    }
}

/// Whether the codes go up from each error to the next.
pub open spec fn ascending(errors: Seq<ExtendedDnsError>) -> bool {
    forall|i: int, j: int|
        0 <= i < j < errors.len() ==> (#[trigger] errors[i]).spec_code() < (
        #[trigger] errors[j]).spec_code()
}

/// Puts `error` at its place among `errors`, unless it is there already.
fn insert_ede(errors: &mut Vec<ExtendedDnsError>, error: ExtendedDnsError) -> (inserted: bool)
    requires
        ascending(old(errors)@),
    ensures
        ascending(final(errors)@),
        inserted == !old(errors)@.contains(error),
        final(errors)@.to_set() == old(errors)@.to_set().insert(error),
        !inserted ==> final(errors)@ == old(errors)@,
{
    let mut at: usize = 0;
    while at < errors.len() && errors[at].code() < error.code()
        invariant
            at <= errors@.len(),
            errors@ == old(errors)@,
            forall|k: int| 0 <= k < at ==> (#[trigger] errors@[k]).spec_code() < error.spec_code(),
        decreases errors@.len() - at,
    {
        at += 1;
    }
    let ghost before = errors@;
    if at < errors.len() && errors[at].code() == error.code() {
        proof {
            code_names_one_error(error, 0);
            code_names_one_error(errors@[at as int], 0);
            assert(before[at as int] == error);
            assert(before.to_set().insert(error) =~= before.to_set());
        }
        return false;
    }
    errors.insert(at, error);
    proof {
        let after = errors@;
        assert(!before.contains(error)) by {
            if before.contains(error) {
                let k = choose|k: int| 0 <= k < before.len() && before[k] == error;
                if k < at {
                } else if k > at {
                    assert(before[at as int].spec_code() < before[k].spec_code());
                }
            }
        }
        assert forall|i: int, j: int| 0 <= i < j < after.len() implies (
        #[trigger] after[i]).spec_code() < (#[trigger] after[j]).spec_code() by {
            let a = if i < at {
                i
            } else {
                i - 1
            };
            let b = if j < at {
                j
            } else {
                j - 1
            };
            if i != at && j != at {
                assert(after[i] == before[a] && after[j] == before[b]);
            } else if i == at {
                assert(after[j] == before[b]);
                if b > at {
                    assert(before[at as int].spec_code() < before[b].spec_code());
                }
            } else {
                assert(after[i] == before[a]);
            }
        }
        assert forall|x: ExtendedDnsError| after.contains(x) == (before.contains(x) || x
            == error) by {
            if after.contains(x) {
                let k = choose|k: int| 0 <= k < after.len() && after[k] == x;
                if k < at {
                    assert(before[k] == x);
                } else if k > at {
                    assert(before[k - 1] == x);
                }
            }
            if before.contains(x) {
                let k = choose|k: int| 0 <= k < before.len() && before[k] == x;
                if k < at {
                    assert(after[k] == x);
                } else {
                    assert(after[k + 1] == x);
                }
            }
            if x == error {
                assert(after[at as int] == x);
            }
        }
        assert(after.to_set() =~= before.to_set().insert(error));
    }
    true
}

/// The text gathered so far, as the program holds it.
struct Reader {
    flags: Option<DigFlags>,
    status: Option<DigStatus>,
    ede: Vec<ExtendedDnsError>,
    answer: Option<Vec<Record>>,
    authority: Option<Vec<Record>>,
    additional: Option<Vec<Record>>,
    open: Option<Section>,
}

spec fn section_view(records: Option<Vec<Record>>) -> Option<Seq<RecordView>> {
    match records {
        Some(records) => Some(record_views(records@)),
        None => None,
    }
}

impl Reader {
    spec fn wf(&self) -> bool {
        ascending(self.ede@)
    }

    spec fn reading(&self) -> Reading {
        Reading {
            flags: self.flags,
            status: self.status,
            ede: self.ede@.to_set(),
            answer: section_view(self.answer),
            authority: section_view(self.authority),
            additional: section_view(self.additional),
            open: self.open,
        }
    }

    fn start() -> (reader: Reader)
        ensures
            reader.wf(),
            reader.reading() == Reading::start(),
    {
        let reader = Reader {
            flags: None,
            status: None,
            ede: Vec::new(),
            answer: None,
            authority: None,
            additional: None,
            open: None,
        };
        assert(reader.ede@.to_set() =~= Set::<ExtendedDnsError>::empty());
        reader
    }

    fn read_flags(self, rest: &Vec<char>) -> (next: Result<Reader, Halt>)
        requires
            self.wf(),
        ensures
            match next {
                Ok(reader) => reader.wf() && self.reading().read_flags(rest@) == Ok::<
                    Reading,
                    Stop,
                >(reader.reading()),
                Err(e) => self.reading().read_flags(rest@) == Err::<Reading, Stop>(e.stop()),
            },
    {
        let text = match split_at_first(rest, ';') {
            Some((text, _)) => text,
            None => {
                return Err(Halt::Error(ParseError::MissingDelimiter(Header::Flags)));
            },
        };
        if self.flags.is_some() {
            return Err(Halt::Error(ParseError::LineRepeated(Header::Flags)));
        }
        match DigFlags::from_chars(&text) {
            Ok(flags) => {
                let mut reader = self;
                reader.flags = Some(flags);
                Ok(reader)
            },
            Err(e) => Err(Halt::Error(e)),
        }
    }

    fn read_status(self, rest: &Vec<char>) -> (next: Result<Reader, Halt>)
        requires
            self.wf(),
        ensures
            match next {
                Ok(reader) => reader.wf() && self.reading().read_status(rest@) == Ok::<
                    Reading,
                    Stop,
                >(reader.reading()),
                Err(e) => self.reading().read_status(rest@) == Err::<Reading, Stop>(e.stop()),
            },
    {
        let text = match split_at_first(rest, ',') {
            Some((text, _)) => text,
            None => {
                return Err(Halt::Error(ParseError::MissingDelimiter(Header::Status)));
            },
        };
        if self.status.is_some() {
            return Err(Halt::Error(ParseError::LineRepeated(Header::Status)));
        }
        match DigStatus::from_chars(&text) {
            Ok(status) => {
                let mut reader = self;
                reader.status = Some(status);
                Ok(reader)
            },
            Err(e) => Err(Halt::Error(e)),
        }
    }

    fn read_ede(self, rest: &Vec<char>) -> (next: Result<Reader, Halt>)
        requires
            self.wf(),
        ensures
            match next {
                Ok(reader) => reader.wf() && self.reading().read_ede(rest@) == Ok::<
                    Reading,
                    Stop,
                >(reader.reading()),
                Err(e) => self.reading().read_ede(rest@) == Err::<Reading, Stop>(e.stop()),
            },
    {
        let parsed = match split_at_first(rest, ' ') {
            Some((code, _)) => ExtendedDnsError::read_chars(&code),
            None => ExtendedDnsError::read_chars(rest),
        };
        let error = match parsed {
            Ok(error) => error,
            Err(e) => {
                return Err(e);
            },
        };
        let mut reader = self;
        if insert_ede(&mut reader.ede, error) {
            Ok(reader)
        } else {
            Err(Halt::Fault(EdeFault::Duplicate(error)))
        }
    }

    fn open_section(self, section: Section) -> (next: Result<Reader, Halt>)
        requires
            self.wf(),
        ensures
            match next {
                Ok(reader) => reader.wf() && self.reading().open_section(section) == Ok::<
                    Reading,
                    Stop,
                >(reader.reading()),
                Err(e) => self.reading().open_section(section) == Err::<Reading, Stop>(e.stop()),
            },
    {
        let seen = match section {
            Section::Answer => self.answer.is_some(),
            Section::Authority => self.authority.is_some(),
            Section::Additional => self.additional.is_some(),
        };
        if seen {
            return Err(Halt::Error(ParseError::LineRepeated(section.header())));
        }
        let mut reader = self;
        let records: Vec<Record> = Vec::new();
        assert(record_views(records@) =~= Seq::<RecordView>::empty());
        match section {
            Section::Answer => {
                reader.answer = Some(records);
            },
            Section::Authority => {
                reader.authority = Some(records);
            },
            Section::Additional => {
                reader.additional = Some(records);
            },
        }
        reader.open = Some(section);
        Ok(reader)
    }

    fn read_record(self, section: Section, line: &Vec<char>) -> (next: Result<Reader, Halt>)
        requires
            self.wf(),
        ensures
            match next {
                Ok(reader) => reader.wf() && self.reading().read_record(section, line@) == Ok::<
                    Reading,
                    Stop,
                >(reader.reading()),
                Err(e) => self.reading().read_record(section, line@) == Err::<
                    Reading,
                    Stop,
                >(e.stop()),
            },
    {
        let mut reader = self;
        if line.len() == 0 {
            reader.open = None;
            return Ok(reader);
        }
        let record = match Record::from_chars(line) {
            Ok(record) => record,
            Err(e) => {
                return Err(Halt::Error(e));
            },
        };
        match section {
            Section::Answer => {
                reader.answer = Some(push_record(reader.answer, record));
            },
            Section::Authority => {
                reader.authority = Some(push_record(reader.authority, record));
            },
            Section::Additional => {
                reader.additional = Some(push_record(reader.additional, record));
            },
        }
        Ok(reader)
    }

    fn read_line(self, line: &Vec<char>) -> (next: Result<Reader, Halt>)
        requires
            self.wf(),
        ensures
            match next {
                Ok(reader) => reader.wf() && self.reading().read_line(line@) == Ok::<
                    Reading,
                    Stop,
                >(reader.reading()),
                Err(e) => self.reading().read_line(line@) == Err::<Reading, Stop>(e.stop()),
            },
    {
        if let Some(section) = self.open {
            return self.read_record(section, line);
        }
        if let Some(rest) = without_prefix(line, Header::Flags.text()) {
            return self.read_flags(&rest);
        }
        if let Some(rest) = without_prefix(line, Header::Status.text()) {
            return self.read_status(&rest);
        }
        if let Some(rest) = without_prefix(line, "; EDE: ") {
            return self.read_ede(&rest);
        }
        if without_prefix(line, Header::Answer.text()).is_some() {
            return self.open_section(Section::Answer);
        }
        if without_prefix(line, Header::Authority.text()).is_some() {
            return self.open_section(Section::Authority);
        }
        if without_prefix(line, Header::Additional.text()).is_some() {
            return self.open_section(Section::Additional);
        }
        Ok(self)
    }

    fn finish(self) -> (output: Result<DigOutput, Halt>)
        requires
            self.wf(),
        ensures
            match output {
                Ok(out) => out.wf() && self.reading().finish() == Ok::<
                    DigOutputView,
                    Stop,
                >(out@),
                Err(e) => self.reading().finish() == Err::<DigOutputView, Stop>(e.stop()),
            },
    {
        let flags = match self.flags {
            Some(flags) => flags,
            None => {
                return Err(Halt::Error(ParseError::LineNotFound(Header::Flags)));
            },
        };
        let status = match self.status {
            Some(status) => status,
            None => {
                return Err(Halt::Error(ParseError::LineNotFound(Header::Status)));
            },
        };
        let answer = records_or_empty(self.answer);
        let authority = records_or_empty(self.authority);
        let additional = records_or_empty(self.additional);
        Ok(DigOutput { ede: self.ede, flags, status, answer, authority, additional })
    }
}

fn push_record(records: Option<Vec<Record>>, record: Record) -> (longer: Vec<Record>)
    ensures
        record_views(longer@) == records_or_none(section_view(records)).push(record@),
{
    let mut longer = match records {
        Some(records) => records,
        None => Vec::new(),
    };
    longer.push(record);
    assert(record_views(longer@) =~= records_or_none(section_view(records)).push(record@));
    longer
}

fn records_or_empty(records: Option<Vec<Record>>) -> (found: Vec<Record>)
    ensures
        record_views(found@) == records_or_none(section_view(records)),
{
    match records {
        Some(records) => records,
        None => {
            let found: Vec<Record> = Vec::new();
            assert(record_views(found@) =~= Seq::<RecordView>::empty());
            found
        },
    }
}

impl View for DigOutput {
    type V = DigOutputView;

    open spec fn view(&self) -> DigOutputView {
        DigOutputView {
            ede: self.ede@.to_set(),
            flags: self.flags,
            status: self.status,
            answer: record_views(self.answer@),
            authority: record_views(self.authority@),
            additional: record_views(self.additional@),
        }
    }
}

impl DigOutput {
    /// The extended errors stand in ascending order of their codes.
    pub open spec fn wf(&self) -> bool {
        ascending(self.ede@)
    }

    /// What a text holds, read line by line: the output, the error that
    /// ended the reading, or the fault in its extended errors at which the
    /// reading stopped.
    pub open spec fn spec_from_str(input: Seq<char>) -> Result<DigOutputView, Stop> {
        Reading::start().read_lines(lines(input))
    }

    /// The fault in the extended errors of a text at which reading it stops:
    /// a code without a name here, or an error reported a second time, on a
    /// line that is reached before any error ends the reading.
    pub open spec fn spec_ede_fault(input: Seq<char>) -> Option<EdeFault> {
        match Self::spec_from_str(input) {
            Err(Stop::Fault(fault)) => Some(fault),
            _ => None,
        }
    }

    fn read(input: &str) -> (output: Result<DigOutput, Halt>)
        ensures
            match output {
                Ok(out) => out.wf() && Self::spec_from_str(input@) == Ok::<DigOutputView, Stop>(
                    out@,
                ),
                Err(e) => Self::spec_from_str(input@) == Err::<DigOutputView, Stop>(e.stop()),
            },
    {
        let chars = to_chars(input);
        let found = split_lines(&chars);
        let ghost all = views(found@);
        let mut reader = Reader::start();
        let mut i: usize = 0;
        assert(all.skip(0) =~= all);
        while i < found.len()
            invariant
                i <= found@.len(),
                all == views(found@),
                all == lines(input@),
                reader.wf(),
                Reading::start().read_lines(all) == reader.reading().read_lines(
                    all.skip(i as int),
                ),
            decreases found@.len() - i,
        {
            let ghost rest = all.skip(i as int);
            assert(rest[0] == found@[i as int]@);
            assert(rest.drop_first() =~= all.skip(i + 1));
            let ghost before = reader.reading();
            reader = match reader.read_line(&found[i]) {
                Ok(next) => next,
                Err(e) => {
                    assert(before.read_lines(rest) == Err::<DigOutputView, Stop>(e.stop()));
                    return Err(e);
                },
            };
            assert(before.read_lines(rest) == reader.reading().read_lines(rest.drop_first()));
            i += 1;
        }
        assert(all.skip(i as int).len() == 0);
        reader.finish()
    }

    /// Tells whether `from_str` takes a text: it does where this is `None`.
    /// Otherwise this is the fault in the extended errors of the text.
    pub fn ede_fault(input: &str) -> (fault: Option<EdeFault>)
        ensures
            fault == Self::spec_ede_fault(input@),
    {
        match Self::read(input) {
            Err(Halt::Fault(fault)) => Some(fault),
            _ => None,
        }
    }

    /// Reads what `dig` printed. The text must be free of faults in its
    /// extended errors; `ede_fault` tells.
    pub fn from_str(input: &str) -> (output: Result<DigOutput, ParseError>)
        requires
            Self::spec_ede_fault(input@) is None,
        ensures
            match output {
                Ok(out) => out.wf() && Self::spec_from_str(input@) == Ok::<DigOutputView, Stop>(
                    out@,
                ),
                Err(e) => Self::spec_from_str(input@) == Err::<DigOutputView, Stop>(
                    Stop::Error(e@),
                ),
            },
    {
        match Self::read(input) {
            Ok(output) => Ok(output),
            Err(Halt::Error(e)) => Err(e),
            Err(Halt::Fault(_)) => unreached(),
        }
    }
}

impl core::str::FromStr for DigFlags {
    type Err = ParseError;

    fn from_str(input: &str) -> (flags: Result<DigFlags, ParseError>)
        ensures
            match flags {
                Ok(x) => DigFlags::spec_from_str(input@) == Ok::<DigFlags, ParseErrorView>(x),
                Err(e) => DigFlags::spec_from_str(input@) == Err::<DigFlags, ParseErrorView>(e@),
            },
    {
        DigFlags::from_str(input)
    }
}

impl core::str::FromStr for DigStatus {
    type Err = ParseError;

    fn from_str(input: &str) -> (status: Result<DigStatus, ParseError>)
        ensures
            match status {
                Ok(x) => DigStatus::spec_from_str(input@) == Ok::<DigStatus, ParseErrorView>(x),
                Err(e) => DigStatus::spec_from_str(input@) == Err::<DigStatus, ParseErrorView>(e@),
            },
    {
        DigStatus::from_str(input)
    }
}

impl core::str::FromStr for DigOutput {
    type Err = ParseError;

    /// Reads what `dig` printed. The text must be free of faults in its
    /// extended errors; `DigOutput::ede_fault` tells.
    fn from_str(input: &str) -> (output: Result<DigOutput, ParseError>)
        requires
            DigOutput::spec_ede_fault(input@) is None,
        ensures
            match output {
                Ok(out) => out.wf() && DigOutput::spec_from_str(input@) == Ok::<
                    DigOutputView,
                    Stop,
                >(out@),
                Err(e) => DigOutput::spec_from_str(input@) == Err::<DigOutputView, Stop>(
                    Stop::Error(e@),
                ),
            },
    {
        DigOutput::from_str(input)
    }
}

impl core::str::FromStr for ExtendedDnsError {
    type Err = ParseError;

    /// Reads an extended error by its code. The text must not hold a code
    /// that this library has no name for; `unsupported_code` tells.
    fn from_str(input: &str) -> (error: Result<ExtendedDnsError, ParseError>)
        requires
            ExtendedDnsError::spec_unsupported_code(input@) is None,
        ensures
            match error {
                Ok(x) => ExtendedDnsError::spec_from_str(input@) == Ok::<ExtendedDnsError, Stop>(
                    x,
                ),
                Err(e) => ExtendedDnsError::spec_from_str(input@) == Err::<
                    ExtendedDnsError,
                    Stop,
                >(Stop::Error(e@)),
            },
    {
        ExtendedDnsError::from_str(input)
    }
}

} // verus!
