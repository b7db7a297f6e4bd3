//! Resource records as `dig` prints them: one record on a line, its columns
//! separated by whitespace.

use vstd::prelude::*;
use crate::error::ParseError;
use crate::error::ParseErrorView;
use crate::ipv4::parse_ipv4;
use crate::ipv4::parse_ipv4_text;
use crate::number::parse_number;
use crate::text::parse_decimal;
use crate::text::same_text;
use crate::text::split_words;
use crate::text::text_views;
use crate::text::to_chars;
use crate::text::to_text;
use crate::text::views;
use crate::text::words;

verus! {

/// The record types that a query can ask for.
#[allow(clippy::upper_case_acronyms)]
#[derive(Clone, Copy, Debug, PartialEq, Eq, Structural)]
pub enum RecordType {
    A,
    AAAA,
    CNAME,
    DNSKEY,
    DS,
    MX,
    NS,
    NSEC,
    NSEC3,
    NSEC3PARAM,
    RRSIG,
    SOA,
    TXT,
}

/// An address record.
#[derive(Clone, Debug, PartialEq, Eq)]
pub struct A {
    pub fqdn: String,
    pub ttl: u32,
    pub ipv4_addr: u32,
}

/// A name server record.
#[allow(clippy::upper_case_acronyms)]
#[derive(Clone, Debug, PartialEq, Eq)]
pub struct NS {
    pub zone: String,
    pub ttl: u32,
    pub nameserver: String,
}

/// A start-of-authority record.
#[allow(clippy::upper_case_acronyms)]
#[derive(Clone, Debug, PartialEq, Eq)]
pub struct SOA {
    pub zone: String,
    pub ttl: u32,
    pub nameserver: String,
    pub admin: String,
    pub serial: u32,
    pub refresh: u32,
    pub retry: u32,
    pub expire: u32,
    pub minimum: u32,
}

/// A record of a type whose data this library does not take apart.
#[derive(Clone, Debug, PartialEq, Eq)]
pub struct Unknown {
    pub name: String,
    pub ttl: u32,
    pub record_type: String,
    pub rdata: Vec<String>,
}

/// One resource record.
#[allow(clippy::upper_case_acronyms)]
#[derive(Clone, Debug, PartialEq, Eq)]
pub enum Record {
    A(A),
    NS(NS),
    SOA(SOA),
    Unknown(Unknown),
}

/// A `Record` with its texts as sequences of characters.
pub enum RecordView {
    A { fqdn: Seq<char>, ttl: u32, ipv4_addr: u32 },
    NS { zone: Seq<char>, ttl: u32, nameserver: Seq<char> },
    SOA {
        zone: Seq<char>,
        ttl: u32,
        nameserver: Seq<char>,
        admin: Seq<char>,
        serial: u32,
        refresh: u32,
        retry: u32,
        expire: u32,
        minimum: u32,
    },
    Unknown { name: Seq<char>, ttl: u32, record_type: Seq<char>, rdata: Seq<Seq<char>> },
}

impl View for Record {
    type V = RecordView;

    open spec fn view(&self) -> RecordView {
        match self {
            Record::A(a) => RecordView::A { fqdn: a.fqdn@, ttl: a.ttl, ipv4_addr: a.ipv4_addr },
            Record::NS(ns) => RecordView::NS {
                zone: ns.zone@,
                ttl: ns.ttl,
                nameserver: ns.nameserver@,
            },
            Record::SOA(soa) => RecordView::SOA {
                zone: soa.zone@,
                ttl: soa.ttl,
                nameserver: soa.nameserver@,
                admin: soa.admin@,
                serial: soa.serial,
                refresh: soa.refresh,
                retry: soa.retry,
                expire: soa.expire,
                minimum: soa.minimum,
            },
            Record::Unknown(other) => RecordView::Unknown {
                name: other.name@,
                ttl: other.ttl,
                record_type: other.record_type@,
                rdata: text_views(other.rdata@),
            },
        }
    }
}

/// The view of each record.
pub open spec fn record_views(records: Seq<Record>) -> Seq<RecordView> {
    records.map_values(|record: Record| record@)
}

impl RecordType {
    /// The type's name, as queries and answers write it.
    pub open spec fn spec_as_str(self) -> Seq<char> {
        match self {
            RecordType::A => "A"@,
            RecordType::AAAA => "AAAA"@,
            RecordType::CNAME => "CNAME"@,
            RecordType::DNSKEY => "DNSKEY"@,
            RecordType::DS => "DS"@,
            RecordType::MX => "MX"@,
            RecordType::NS => "NS"@,
            RecordType::NSEC => "NSEC"@,
            RecordType::NSEC3 => "NSEC3"@,
            RecordType::NSEC3PARAM => "NSEC3PARAM"@,
            RecordType::RRSIG => "RRSIG"@,
            RecordType::SOA => "SOA"@,
            RecordType::TXT => "TXT"@,
        }
    }

    /// The type's name, as queries and answers write it.
    pub fn as_str(self) -> (name: &'static str)
        ensures
            name@ == self.spec_as_str(),
    {
        match self {
            RecordType::A => "A",
            RecordType::AAAA => "AAAA",
            RecordType::CNAME => "CNAME",
            RecordType::DNSKEY => "DNSKEY",
            RecordType::DS => "DS",
            RecordType::MX => "MX",
            RecordType::NS => "NS",
            RecordType::NSEC => "NSEC",
            RecordType::NSEC3 => "NSEC3",
            RecordType::NSEC3PARAM => "NSEC3PARAM",
            RecordType::RRSIG => "RRSIG",
            RecordType::SOA => "SOA",
            RecordType::TXT => "TXT",
        }
    }
}

/// A fully qualified domain name ends in a dot.
pub open spec fn is_fqdn(name: Seq<char>) -> bool {
    name.len() > 0 && name.last() == '.'
}

/// The number in a column that holds one, as a 32-bit value.
pub open spec fn number_column(column: Seq<char>) -> Result<u32, ParseErrorView> {
    match parse_decimal(column, u32::MAX as nat) {
        Some(n) => Ok(n as u32),
        None => Err(ParseErrorView::InvalidNumber(column)),
    }
}

/// The name in a column that holds one.
pub open spec fn name_column(column: Seq<char>) -> Result<Seq<char>, ParseErrorView> {
    if is_fqdn(column) {
        Ok(column)
    } else {
        Err(ParseErrorView::InvalidFqdn(column))
    }
}

/// What the first three columns of every record must be: a domain name, a
/// time to live and the class `IN`. The class is looked at first, then the
/// name, then the time to live.
pub open spec fn record_head(columns: Seq<Seq<char>>) -> Result<(Seq<char>, u32), ParseErrorView>
    recommends
        columns.len() >= 4,
{
    if columns[2] != "IN"@ {
        Err(ParseErrorView::UnknownClass(columns[2]))
    } else if name_column(columns[0]) is Err {
        Err(name_column(columns[0])->Err_0)
    } else if number_column(columns[1]) is Err {
        Err(number_column(columns[1])->Err_0)
    } else {
        Ok((columns[0], number_column(columns[1])->Ok_0))
    }
}

/// The first error among `results`, in their order.
pub open spec fn first_error<T>(results: Seq<Result<T, ParseErrorView>>) -> Option<ParseErrorView>
    decreases results.len(),
{
    if results.len() == 0 {
        None
    } else if results[0] is Err {
        Some(results[0]->Err_0)
    } else {
        first_error(results.drop_first())
    }
}

/// An address record has five columns, the last one an IPv4 address.
pub open spec fn parse_a(columns: Seq<Seq<char>>) -> Result<RecordView, ParseErrorView> {
    if columns.len() != 5 {
        Err(ParseErrorView::ColumnCount(5))
    } else if record_head(columns) is Err {
        Err(record_head(columns)->Err_0)
    } else if parse_ipv4_text(columns[4]) is None {
        Err(ParseErrorView::InvalidAddress(columns[4]))
    } else {
        Ok(
            RecordView::A {
                fqdn: record_head(columns)->Ok_0.0,
                ttl: record_head(columns)->Ok_0.1,
                ipv4_addr: parse_ipv4_text(columns[4])->0,
            },
        )
    }
}

/// A name server record has five columns, the last one a domain name.
pub open spec fn parse_ns(columns: Seq<Seq<char>>) -> Result<RecordView, ParseErrorView> {
    if columns.len() != 5 {
        Err(ParseErrorView::ColumnCount(5))
    } else if record_head(columns) is Err {
        Err(record_head(columns)->Err_0)
    } else if name_column(columns[4]) is Err {
        Err(name_column(columns[4])->Err_0)
    } else {
        Ok(
            RecordView::NS {
                zone: record_head(columns)->Ok_0.0,
                ttl: record_head(columns)->Ok_0.1,
                nameserver: columns[4],
            },
        )
    }
}

/// The five numbers that end a start-of-authority record, read from left to
/// right.
pub open spec fn soa_numbers(columns: Seq<Seq<char>>) -> Seq<Result<u32, ParseErrorView>>
    recommends
        columns.len() == 11,
{
    seq![
        number_column(columns[6]),
        number_column(columns[7]),
        number_column(columns[8]),
        number_column(columns[9]),
        number_column(columns[10]),
    ]
}

/// A start-of-authority record has eleven columns: after the type two domain
/// names, then five numbers.
pub open spec fn parse_soa(columns: Seq<Seq<char>>) -> Result<RecordView, ParseErrorView> {
    if columns.len() != 11 {
        Err(ParseErrorView::ColumnCount(11))
    } else if record_head(columns) is Err {
        Err(record_head(columns)->Err_0)
    } else if name_column(columns[4]) is Err {
        Err(name_column(columns[4])->Err_0)
    } else if name_column(columns[5]) is Err {
        Err(name_column(columns[5])->Err_0)
    } else if first_error(soa_numbers(columns)) is Some {
        Err(first_error(soa_numbers(columns))->0)
    } else {
        Ok(
            RecordView::SOA {
                zone: record_head(columns)->Ok_0.0,
                ttl: record_head(columns)->Ok_0.1,
                nameserver: columns[4],
                admin: columns[5],
                serial: soa_numbers(columns)[0]->Ok_0,
                refresh: soa_numbers(columns)[1]->Ok_0,
                retry: soa_numbers(columns)[2]->Ok_0,
                expire: soa_numbers(columns)[3]->Ok_0,
                minimum: soa_numbers(columns)[4]->Ok_0,
            },
        )
    }
}

/// A record of any other type keeps its data as the columns that follow the
/// type.
pub open spec fn parse_unknown(columns: Seq<Seq<char>>) -> Result<RecordView, ParseErrorView>
    recommends
        columns.len() >= 4,
{
    if record_head(columns) is Err {
        Err(record_head(columns)->Err_0)
    } else {
        Ok(
            RecordView::Unknown {
                name: record_head(columns)->Ok_0.0,
                ttl: record_head(columns)->Ok_0.1,
                record_type: columns[3],
                rdata: columns.skip(4),
            },
        )
    }
}

/// The record that a line holds. Its fourth column names the type, and the
/// type decides how the other columns are read.
pub open spec fn parse_record(line: Seq<char>) -> Result<RecordView, ParseErrorView> {
    let columns = words(line);
    if columns.len() < 4 {
        Err(ParseErrorView::MissingRecordType)
    } else if columns[3] == "A"@ {
        parse_a(columns)
    } else if columns[3] == "NS"@ {
        parse_ns(columns)
    } else if columns[3] == "SOA"@ {
        parse_soa(columns)
    } else {
        parse_unknown(columns)
    }
}

fn read_number(column: &Vec<char>) -> (number: Result<u32, ParseError>)
    ensures
        match number {
            Ok(n) => number_column(column@) == Ok::<u32, ParseErrorView>(n),
            Err(e) => number_column(column@) == Err::<u32, ParseErrorView>(e@),
        },
{
    match parse_number(column, 0xffff_ffff) {
        Some(n) => Ok(n as u32),
        None => Err(ParseError::InvalidNumber(to_text(column))),
    }
}

fn read_name(column: &Vec<char>) -> (name: Result<String, ParseError>)
    ensures
        match name {
            Ok(text) => name_column(column@) == Ok::<Seq<char>, ParseErrorView>(text@),
            Err(e) => name_column(column@) == Err::<Seq<char>, ParseErrorView>(e@),
        },
{
    if column.len() > 0 && column[column.len() - 1] == '.' {
        Ok(to_text(column))
    } else {
        Err(ParseError::InvalidFqdn(to_text(column)))
    }
}

fn read_head(columns: &Vec<Vec<char>>) -> (head: Result<(String, u32), ParseError>)
    requires
        columns@.len() >= 4,
    ensures
        match head {
            Ok((name, ttl)) => record_head(views(columns@)) == Ok::<
                (Seq<char>, u32),
                ParseErrorView,
            >((name@, ttl)),
            Err(e) => record_head(views(columns@)) == Err::<(Seq<char>, u32), ParseErrorView>(e@),
        },
{
    if !same_text(&columns[2], "IN") {
        return Err(ParseError::UnknownClass(to_text(&columns[2])));
    }
    let name = match read_name(&columns[0]) {
        Ok(name) => name,
        Err(e) => {
            return Err(e);
        },
    };
    let ttl = match read_number(&columns[1]) {
        Ok(ttl) => ttl,
        Err(e) => {
            return Err(e);
        },
    };
    Ok((name, ttl))
}

fn read_a(columns: &Vec<Vec<char>>) -> (record: Result<Record, ParseError>)
    requires
        columns@.len() >= 4,
    ensures
        match record {
            Ok(r) => parse_a(views(columns@)) == Ok::<RecordView, ParseErrorView>(r@),
            Err(e) => parse_a(views(columns@)) == Err::<RecordView, ParseErrorView>(e@),
        },
{
    if columns.len() != 5 {
        return Err(ParseError::ColumnCount(5));
    }
    let (fqdn, ttl) = match read_head(columns) {
        Ok(head) => head,
        Err(e) => {
            return Err(e);
        },
    };
    match parse_ipv4(&columns[4]) {
        Some(ipv4_addr) => Ok(Record::A(A { fqdn, ttl, ipv4_addr })),
        None => Err(ParseError::InvalidAddress(to_text(&columns[4]))),
    }
}

fn read_ns(columns: &Vec<Vec<char>>) -> (record: Result<Record, ParseError>)
    requires
        columns@.len() >= 4,
    ensures
        match record {
            Ok(r) => parse_ns(views(columns@)) == Ok::<RecordView, ParseErrorView>(r@),
            Err(e) => parse_ns(views(columns@)) == Err::<RecordView, ParseErrorView>(e@),
        },
{
    if columns.len() != 5 {
        return Err(ParseError::ColumnCount(5));
    }
    let (zone, ttl) = match read_head(columns) {
        Ok(head) => head,
        Err(e) => {
            return Err(e);
        },
    };
    match read_name(&columns[4]) {
        Ok(nameserver) => Ok(Record::NS(NS { zone, ttl, nameserver })),
        Err(e) => Err(e),
    }
}

fn read_soa(columns: &Vec<Vec<char>>) -> (record: Result<Record, ParseError>)
    requires
        columns@.len() >= 4,
    ensures
        match record {
            Ok(r) => parse_soa(views(columns@)) == Ok::<RecordView, ParseErrorView>(r@),
            Err(e) => parse_soa(views(columns@)) == Err::<RecordView, ParseErrorView>(e@),
        },
{
    if columns.len() != 11 {
        return Err(ParseError::ColumnCount(11));
    }
    let (zone, ttl) = match read_head(columns) {
        Ok(head) => head,
        Err(e) => {
            return Err(e);
        },
    };
    let nameserver = match read_name(&columns[4]) {
        Ok(name) => name,
        Err(e) => {
            return Err(e);
        },
    };
    let admin = match read_name(&columns[5]) {
        Ok(name) => name,
        Err(e) => {
            return Err(e);
        },
    };
    let ghost numbers = soa_numbers(views(columns@));
    proof {
        reveal_with_fuel(first_error, 6);
        assert(numbers.drop_first() =~= seq![numbers[1], numbers[2], numbers[3], numbers[4]]);
        assert(numbers.drop_first().drop_first() =~= seq![numbers[2], numbers[3], numbers[4]]);
        assert(numbers.drop_first().drop_first().drop_first() =~= seq![numbers[3], numbers[4]]);
        assert(numbers.drop_first().drop_first().drop_first().drop_first() =~= seq![numbers[4]]);
        assert(numbers.drop_first().drop_first().drop_first().drop_first().drop_first()
            =~= Seq::<Result<u32, ParseErrorView>>::empty());
    }
    let serial = match read_number(&columns[6]) {
        Ok(n) => n,
        Err(e) => {
            return Err(e);
        },
    };
    let refresh = match read_number(&columns[7]) {
        Ok(n) => n,
        Err(e) => {
            return Err(e);
        },
    };
    let retry = match read_number(&columns[8]) {
        Ok(n) => n,
        Err(e) => {
            return Err(e);
        },
    };
    let expire = match read_number(&columns[9]) {
        Ok(n) => n,
        Err(e) => {
            return Err(e);
        },
    };
    let minimum = match read_number(&columns[10]) {
        Ok(n) => n,
        Err(e) => {
            return Err(e);
        },
    };
    Ok(
        Record::SOA(
            SOA { zone, ttl, nameserver, admin, serial, refresh, retry, expire, minimum },
        ),
    )
}

fn read_unknown(columns: &Vec<Vec<char>>) -> (record: Result<Record, ParseError>)
    requires
        columns@.len() >= 4,
    ensures
        match record {
            Ok(r) => parse_unknown(views(columns@)) == Ok::<RecordView, ParseErrorView>(r@),
            Err(e) => parse_unknown(views(columns@)) == Err::<RecordView, ParseErrorView>(e@),
        },
{
    let (name, ttl) = match read_head(columns) {
        Ok(head) => head,
        Err(e) => {
            return Err(e);
        },
    };
    let record_type = to_text(&columns[3]);
    let mut rdata: Vec<String> = Vec::new();
    let mut i: usize = 4;
    while i < columns.len()
        invariant
            4 <= i <= columns@.len(),
            text_views(rdata@) == views(columns@).subrange(4, i as int),
        decreases columns@.len() - i,
    {
        let ghost before = text_views(rdata@);
        let column = to_text(&columns[i]);
        rdata.push(column);
        i += 1;
        assert(text_views(rdata@) =~= before.push(column@));
        assert(text_views(rdata@) =~= views(columns@).subrange(4, i as int));
    }
    assert(views(columns@).subrange(4, i as int) =~= views(columns@).skip(4));
    Ok(Record::Unknown(Unknown { name, ttl, record_type, rdata }))
}

impl Record {
    /// Reads the record that a line of `dig`'s output holds.
    pub fn from_chars(line: &Vec<char>) -> (record: Result<Record, ParseError>)
        ensures
            match record {
                Ok(r) => parse_record(line@) == Ok::<RecordView, ParseErrorView>(r@),
                Err(e) => parse_record(line@) == Err::<RecordView, ParseErrorView>(e@),
            },
    {
        let columns = split_words(line);
        if columns.len() < 4 {
            return Err(ParseError::MissingRecordType);
        }
        if same_text(&columns[3], "A") {
            read_a(&columns)
        } else if same_text(&columns[3], "NS") {
            read_ns(&columns)
        } else if same_text(&columns[3], "SOA") {
            read_soa(&columns)
        } else {
            read_unknown(&columns)
        }
    }

    /// Reads the record that a line of `dig`'s output holds.
    pub fn parse(line: &str) -> (record: Result<Record, ParseError>)
        ensures
            match record {
                Ok(r) => parse_record(line@) == Ok::<RecordView, ParseErrorView>(r@),
                Err(e) => parse_record(line@) == Err::<RecordView, ParseErrorView>(e@),
            },
    {
        let chars = to_chars(line);
        Record::from_chars(&chars)
    }
}

impl core::str::FromStr for Record {
    type Err = ParseError;

    fn from_str(line: &str) -> (record: Result<Record, ParseError>)
        ensures
            match record {
                Ok(r) => parse_record(line@) == Ok::<RecordView, ParseErrorView>(r@),
                Err(e) => parse_record(line@) == Err::<RecordView, ParseErrorView>(e@),
            },
    {
        Record::parse(line)
    }
}

} // verus!
