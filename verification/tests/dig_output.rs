use dns_bootstrap::dig::DigFlags;
use dns_bootstrap::dig::DigOutput;
use dns_bootstrap::dig::DigStatus;
use dns_bootstrap::dig::EdeFault;
use dns_bootstrap::dig::ExtendedDnsError;
use dns_bootstrap::error::ParseError;
use dns_bootstrap::record::Record;

type Result<T> = std::result::Result<T, ParseError>;

#[test]
fn dig_nxdomain() -> Result<()> {
    // $ dig nonexistent.domain.
    let input = "
; <<>> DiG 9.18.18-0ubuntu0.22.04.1-Ubuntu <<>> nonexistent.domain.
;; global options: +cmd
;; Got answer:
;; ->>HEADER<<- opcode: QUERY, status: NXDOMAIN, id: 45583
;; flags: qr rd ra; QUERY: 1, ANSWER: 0, AUTHORITY: 0, ADDITIONAL: 1

;; OPT PSEUDOSECTION:
; EDNS: version: 0, flags:; udp: 1232
;; QUESTION SECTION:
;nonexistent.domain.		IN	A

;; Query time: 3 msec
;; SERVER: 192.168.1.1#53(192.168.1.1) (UDP)
;; WHEN: Tue Feb 06 15:00:12 UTC 2024
;; MSG SIZE  rcvd: 47
";

    let output: DigOutput = input.parse()?;

    assert_eq!(DigStatus::NXDOMAIN, output.status);
    assert_eq!(
        DigFlags {
            qr: true,
            recursion_desired: true,
            recursion_available: true,
            ..DigFlags::default()
        },
        output.flags
    );
    assert!(output.answer.is_empty());

    Ok(())
}

#[test]
fn authority_section() -> Result<()> {
    // $ dig A .
    let input = "
; <<>> DiG 9.18.24 <<>> A .
;; global options: +cmd
;; Got answer:
;; ->>HEADER<<- opcode: QUERY, status: NOERROR, id: 39670
;; flags: qr rd ra; QUERY: 1, ANSWER: 0, AUTHORITY: 1, ADDITIONAL: 1

;; OPT PSEUDOSECTION:
; EDNS: version: 0, flags:; udp: 1232
;; QUESTION SECTION:
;.				IN	A

;; AUTHORITY SECTION:
.			2910	IN	SOA	a.root-servers.net. nstld.verisign-grs.com. 2024022600 1800 900 604800 86400

;; Query time: 43 msec
;; SERVER: 192.168.1.1#53(192.168.1.1) (UDP)
;; WHEN: Mon Feb 26 11:55:50 CET 2024
;; MSG SIZE  rcvd: 103
";

    let output: DigOutput = input.parse()?;

    let [record] = output.authority.try_into().expect("exactly one record");

    assert!(matches!(record, Record::SOA(..)));

    Ok(())
}

#[test]
fn additional_section() -> Result<()> {
    // $ dig @a.root-servers.net. +norecurse NS .
    // but with most records removed from each section to keep this short
    let input =
        "; <<>> DiG 9.18.24-0ubuntu0.22.04.1-Ubuntu <<>> @a.root-servers.net. +norecurse NS .
; (2 servers found)
;; global options: +cmd
;; Got answer:
;; ->>HEADER<<- opcode: QUERY, status: NOERROR, id: 3739
;; flags: qr aa; QUERY: 1, ANSWER: 13, AUTHORITY: 0, ADDITIONAL: 27

;; OPT PSEUDOSECTION:
; EDNS: version: 0, flags:; udp: 4096
;; QUESTION SECTION:
;.              IN  NS

;; ANSWER SECTION:
.           518400  IN  NS  l.root-servers.net.

;; ADDITIONAL SECTION:
l.root-servers.net. 518400  IN  A   199.7.83.42

;; Query time: 20 msec
;; SERVER: 198.41.0.4#53(a.root-servers.net.) (UDP)
;; WHEN: Fri Jul 12 18:14:04 CEST 2024
;; MSG SIZE  rcvd: 811
";

    let output: DigOutput = input.parse()?;

    let [record] = output.additional.try_into().expect("exactly one record");

    assert!(matches!(record, Record::A(..)));

    Ok(())
}

#[test]
fn ede() -> Result<()> {
    let input = "; <<>> DiG 9.18.24-1-Debian <<>> +recurse +nodnssec +adflag +nocdflag @192.168.176.5 A example.nameservers.com.
; (1 server found)
;; global options: +cmd
;; Got answer:
;; ->>HEADER<<- opcode: QUERY, status: SERVFAIL, id: 49801
;; flags: qr rd ra; QUERY: 1, ANSWER: 0, AUTHORITY: 0, ADDITIONAL: 1

;; OPT PSEUDOSECTION:
; EDNS: version: 0, flags:; udp: 1232
; EDE: 9 (DNSKEY Missing)
;; QUESTION SECTION:
;example.nameservers.com.	IN	A

;; Query time: 26 msec
;; SERVER: 192.168.176.5#53(192.168.176.5) (UDP)
;; WHEN: Tue Mar 05 17:45:29 UTC 2024
;; MSG SIZE  rcvd: 58
";

    let output: DigOutput = input.parse()?;

    assert!(output.ede.into_iter().eq([ExtendedDnsError::DnskeyMissing]));

    Ok(())
}

#[test]
fn multiple_ede() -> Result<()> {
    let input = "; <<>> DiG 9.18.28-1~deb12u2-Debian <<>> @1.1.1.1 allow-query-none.extended-dns-errors.com.
; (1 server found)
;; global options: +cmd
;; Got answer:
;; ->>HEADER<<- opcode: QUERY, status: SERVFAIL, id: 57468
;; flags: qr rd ra; QUERY: 1, ANSWER: 0, AUTHORITY: 0, ADDITIONAL: 1

;; OPT PSEUDOSECTION:
; EDNS: version: 0, flags:; udp: 1232
; EDE: 9 (DNSKEY Missing): (no SEP matching the DS found for allow-query-none.extended-dns-errors.com.)
; EDE: 18 (Prohibited)
; EDE: 22 (No Reachable Authority): (at delegation allow-query-none.extended-dns-errors.com.)
;; QUESTION SECTION:
;allow-query-none.extended-dns-errors.com. IN A

;; Query time: 98 msec
;; SERVER: 1.1.1.1#53(1.1.1.1) (UDP)
;; WHEN: Fri Aug 23 14:24:40 UTC 2024
;; MSG SIZE  rcvd: 216";

    let output: DigOutput = input.parse()?;

    assert!(output.ede.into_iter().eq([
        ExtendedDnsError::DnskeyMissing,
        ExtendedDnsError::Prohibited,
        ExtendedDnsError::NoReachableAuthority,
    ]));

    Ok(())
}

#[test]
fn status_names() {
    assert_eq!("NOERROR".parse(), Ok(DigStatus::NOERROR));
    assert_eq!("NXDOMAIN".parse(), Ok(DigStatus::NXDOMAIN));
    assert_eq!("REFUSED".parse(), Ok(DigStatus::REFUSED));
    assert_eq!("SERVFAIL".parse(), Ok(DigStatus::SERVFAIL));
    assert_eq!(
        "noerror".parse::<DigStatus>(),
        Err(ParseError::UnknownStatus("noerror".to_string()))
    );
    assert!(DigStatus::NOERROR.is_noerror());
    assert!(!DigStatus::NOERROR.is_nxdomain());
    assert!(DigStatus::NXDOMAIN.is_nxdomain());
    assert!(DigStatus::SERVFAIL.is_servfail());
    assert!(!DigStatus::REFUSED.is_servfail());
}

#[test]
fn flags_are_set_where_named() {
    let flags: DigFlags = "  aa   cd ad aa ".parse().unwrap();
    assert_eq!(
        flags,
        DigFlags {
            authoritative_answer: true,
            checking_disabled: true,
            authenticated_data: true,
            ..DigFlags::default()
        }
    );
    assert_eq!("".parse(), Ok(DigFlags::default()));
}

#[test]
fn first_unknown_flag_is_reported() {
    assert_eq!(
        "qr xx rd yy".parse::<DigFlags>(),
        Err(ParseError::UnknownFlag("xx".to_string()))
    );
}

#[test]
fn ede_codes() {
    let read = |text: &str| {
        assert_eq!(ExtendedDnsError::unsupported_code(text), None);
        assert_eq!(text.parse(), ExtendedDnsError::from_str(text));
        ExtendedDnsError::from_str(text)
    };
    assert_eq!(read("1"), Ok(ExtendedDnsError::UnsupportedDnskeyAlgorithm));
    assert_eq!(read("6"), Ok(ExtendedDnsError::DnssecBogus));
    assert_eq!(read("+9"), Ok(ExtendedDnsError::DnskeyMissing));
    assert_eq!(read("010"), Ok(ExtendedDnsError::RrsigsMissing));
    assert_eq!(read("18"), Ok(ExtendedDnsError::Prohibited));
    assert_eq!(read("22"), Ok(ExtendedDnsError::NoReachableAuthority));
    assert_eq!(ExtendedDnsError::NoReachableAuthority.code(), 22);
    assert_eq!(
        read("65536"),
        Err(ParseError::InvalidNumber("65536".to_string()))
    );
    assert_eq!(read(""), Err(ParseError::InvalidNumber(String::new())));
    assert_eq!(read("-1"), Err(ParseError::InvalidNumber("-1".to_string())));
}

#[test]
fn codes_without_a_name_are_told_apart() {
    assert_eq!(ExtendedDnsError::unsupported_code("2"), Some(2));
    assert_eq!(ExtendedDnsError::unsupported_code("0"), Some(0));
    assert_eq!(ExtendedDnsError::unsupported_code("+23"), Some(23));
    assert_eq!(ExtendedDnsError::unsupported_code("65535"), Some(65535));
    for code in 0..=u16::MAX {
        let named = ExtendedDnsError::from_code(code).is_some();
        assert_eq!(named, [1, 6, 9, 10, 18, 22].contains(&code));
        let text = code.to_string();
        assert_eq!(
            ExtendedDnsError::unsupported_code(&text),
            if named { None } else { Some(code) }
        );
    }
    assert_eq!(ExtendedDnsError::unsupported_code("65536"), None);
    assert_eq!(ExtendedDnsError::unsupported_code("x"), None);
    assert_eq!(ExtendedDnsError::unsupported_code(""), None);
}

const HEADER: &str = ";; ->>HEADER<<- opcode: QUERY, status: NOERROR, id: 1\n;; flags: qr; QUERY: 1\n";

fn error_of(input: &str) -> ParseError {
    assert_eq!(DigOutput::ede_fault(input), None);
    DigOutput::from_str(input).unwrap_err()
}

#[test]
fn missing_lines_are_reported_flags_first() {
    assert_eq!(error_of(""), ParseError::LineNotFound(dns_bootstrap::error::Header::Flags));
    assert_eq!(
        error_of(";; flags: qr; QUERY: 1\n"),
        ParseError::LineNotFound(dns_bootstrap::error::Header::Status)
    );
    assert_eq!(
        error_of(";; ->>HEADER<<- opcode: QUERY, status: NOERROR, id: 1\n"),
        ParseError::LineNotFound(dns_bootstrap::error::Header::Flags)
    );
}

#[test]
fn repeated_lines_are_reported() {
    let twice = format!("{HEADER};; flags: qr; QUERY: 1\n");
    assert_eq!(
        error_of(&twice),
        ParseError::LineRepeated(dns_bootstrap::error::Header::Flags)
    );
    let twice = format!("{HEADER};; ->>HEADER<<- opcode: QUERY, status: NOERROR, id: 1\n");
    assert_eq!(
        error_of(&twice),
        ParseError::LineRepeated(dns_bootstrap::error::Header::Status)
    );
    let twice = format!("{HEADER};; ANSWER SECTION:\n\n;; ANSWER SECTION:\n");
    assert_eq!(
        error_of(&twice),
        ParseError::LineRepeated(dns_bootstrap::error::Header::Answer)
    );
}

#[test]
fn missing_delimiter_comes_before_repetition() {
    let input = format!("{HEADER};; flags: qr rd\n");
    assert_eq!(
        error_of(&input),
        ParseError::MissingDelimiter(dns_bootstrap::error::Header::Flags)
    );
    let input = format!("{HEADER};; ->>HEADER<<- opcode: QUERY, status: NOERROR\n");
    assert_eq!(
        error_of(&input),
        ParseError::MissingDelimiter(dns_bootstrap::error::Header::Status)
    );
}

#[test]
fn duplicate_and_unsupported_ede_are_faults() {
    let input = format!("{HEADER}; EDE: 9 (DNSKEY Missing)\n; EDE: 9\n");
    assert_eq!(
        DigOutput::ede_fault(&input),
        Some(EdeFault::Duplicate(ExtendedDnsError::DnskeyMissing))
    );
    let input = format!("{HEADER}; EDE: 3 (Stale Answer)\n");
    assert_eq!(
        DigOutput::ede_fault(&input),
        Some(EdeFault::Unsupported(3))
    );
    let input = "; EDE: 18\n; EDE: 22\n; EDE: 4\n; EDE: 18\n";
    assert_eq!(DigOutput::ede_fault(input), Some(EdeFault::Unsupported(4)));
}

#[test]
fn fault_counts_only_where_reading_comes_to_it() {
    // An error on an earlier line ends the reading before the fault.
    let input = ";; flags: qr zz; QUERY: 1\n; EDE: 3\n";
    assert_eq!(DigOutput::ede_fault(input), None);
    assert_eq!(
        DigOutput::from_str(input).unwrap_err(),
        ParseError::UnknownFlag("zz".to_string())
    );
    // Inside a section the line is taken for a record.
    let input = format!("{HEADER};; ANSWER SECTION:\n; EDE: 3\n");
    assert_eq!(DigOutput::ede_fault(&input), None);
    assert_eq!(
        DigOutput::from_str(&input).unwrap_err(),
        ParseError::MissingRecordType
    );
    // A text that is no number is an error, not a fault.
    let input = format!("{HEADER}; EDE: 70000\n");
    assert_eq!(DigOutput::ede_fault(&input), None);
    assert_eq!(
        DigOutput::from_str(&input).unwrap_err(),
        ParseError::InvalidNumber("70000".to_string())
    );
    // A sound text has no fault.
    let input = format!("{HEADER}; EDE: 9\n; EDE: 18\n");
    assert_eq!(DigOutput::ede_fault(&input), None);
    assert!(DigOutput::from_str(&input).is_ok());
}

#[test]
fn ede_are_kept_in_ascending_order() {
    let input = format!("{HEADER}; EDE: 22\n; EDE: 1 (x)\n; EDE: 10\n");
    let output: DigOutput = DigOutput::from_str(&input).unwrap();
    assert_eq!(
        output.ede,
        vec![
            ExtendedDnsError::UnsupportedDnskeyAlgorithm,
            ExtendedDnsError::RrsigsMissing,
            ExtendedDnsError::NoReachableAuthority,
        ]
    );
}

#[test]
fn section_ends_at_empty_line_or_end_of_text() {
    let input = format!(
        "{HEADER};; ANSWER SECTION:\r\n. 1 IN NS a.\r\n. 2 IN NS b.\r\n\r\n. 3 IN NS c.\n;; AUTHORITY SECTION:\n. 4 IN NS d."
    );
    let output: DigOutput = DigOutput::from_str(&input).unwrap();
    assert_eq!(output.answer.len(), 2);
    assert_eq!(output.authority.len(), 1);
    assert!(output.additional.is_empty());
    match &output.authority[0] {
        Record::NS(ns) => {
            assert_eq!(ns.zone, ".");
            assert_eq!(ns.ttl, 4);
            assert_eq!(ns.nameserver, "d.");
        }
        other => panic!("unexpected record {other:?}"),
    }
}

#[test]
fn bad_record_in_section_is_an_error() {
    let input = format!("{HEADER};; ANSWER SECTION:\n;; flags: qr;\n");
    assert_eq!(error_of(&input), ParseError::MissingRecordType);
}

#[test]
fn bad_flag_or_status_in_the_output_is_an_error() {
    assert_eq!(
        error_of(";; flags: qr zz; QUERY: 1\n"),
        ParseError::UnknownFlag("zz".to_string())
    );
    assert_eq!(
        error_of(";; ->>HEADER<<- opcode: QUERY, status: FORMERR, id: 1\n"),
        ParseError::UnknownStatus("FORMERR".to_string())
    );
    assert_eq!(
        error_of("; EDE: x9 (DNSKEY Missing)\n"),
        ParseError::InvalidNumber("x9".to_string())
    );
}

#[test]
fn lines_that_begin_otherwise_are_passed_over() {
    let input = format!("garbage\n;; flags qr;\n ;; flags: aa;\n{HEADER};; Query time: 3 msec\n");
    let output: DigOutput = DigOutput::from_str(&input).unwrap();
    assert_eq!(output.status, DigStatus::NOERROR);
    assert_eq!(
        output.flags,
        DigFlags {
            qr: true,
            ..DigFlags::default()
        }
    );
    assert!(output.ede.is_empty());
    assert!(output.answer.is_empty());
    assert!(output.authority.is_empty());
    assert!(output.additional.is_empty());
}
