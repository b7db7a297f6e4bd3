//! A `dig` client in a container: how it is asked, before the answer is read.

use vstd::prelude::*;
use vstd::string::StringExecFns;
use crate::ipv4::format_ipv4;
use crate::ipv4::ipv4_text;
use crate::number::decimal;
use crate::number::format_number;
use crate::record::RecordType;
use crate::text::text_views;
use crate::text::to_text;

verus! {

/// The container that the client tools run in.
#[derive(Clone, Debug, PartialEq, Eq)]
pub struct Client {
    pub id: String,
    pub name: String,
    pub ipv4_addr: u32,
}

/// The options of one query.
#[derive(Clone, Copy, Debug, PartialEq, Eq, Structural)]
pub struct DigSettings {
    pub adflag: bool,
    pub cdflag: bool,
    pub dnssec: bool,
    pub recurse: bool,
    pub timeout: Option<u8>,
}

/// Where `delv` looks for its trust anchor inside the container.
pub open spec fn trust_anchor_path() -> Seq<char> {
    "/etc/bind.keys"@
}

/// The seconds that `dig` waits for an answer where the settings name none.
pub const DEFAULT_TIMEOUT_SECS: u8 = 5;

impl DigSettings {
    /// No flag set, no timeout named.
    pub open spec fn spec_default() -> DigSettings {
        DigSettings { adflag: false, cdflag: false, dnssec: false, recurse: false, timeout: None }
    }

    /// Sets the AD bit in the query
    pub fn authentic_data(&mut self) -> (settings: &mut Self)
        ensures
            *settings == (DigSettings { adflag: true, ..*old(self) }),
            *final(self) == *final(settings),
    {
        self.adflag = true;
        self
    }

    /// The option that sets or clears the AD bit.
    pub open spec fn spec_adflag(&self) -> Seq<char> {
        if self.adflag {
            "+adflag"@
        } else {
            "+noadflag"@
        }
    }

    /// The option that sets or clears the AD bit.
    pub fn adflag(&self) -> (flag: &'static str)
        ensures
            flag@ == self.spec_adflag(),
    {
        if self.adflag {
            "+adflag"
        } else {
            "+noadflag"
        }
    }

    /// Sets the CD bit in the query
    pub fn checking_disabled(&mut self) -> (settings: &mut Self)
        ensures
            *settings == (DigSettings { cdflag: true, ..*old(self) }),
            *final(self) == *final(settings),
    {
        self.cdflag = true;
        self
    }

    /// The option that sets or clears the CD bit.
    pub open spec fn spec_cdflag(&self) -> Seq<char> {
        if self.cdflag {
            "+cdflag"@
        } else {
            "+nocdflag"@
        }
    }

    /// The option that sets or clears the CD bit.
    pub fn cdflag(&self) -> (flag: &'static str)
        ensures
            flag@ == self.spec_cdflag(),
    {
        if self.cdflag {
            "+cdflag"
        } else {
            "+nocdflag"
        }
    }

    /// Sets the DO bit in the query
    pub fn dnssec(&mut self) -> (settings: &mut Self)
        ensures
            *settings == (DigSettings { dnssec: true, ..*old(self) }),
            *final(self) == *final(settings),
    {
        self.dnssec = true;
        self
    }

    /// The option that sets or clears the DO bit.
    pub open spec fn spec_do_bit(&self) -> Seq<char> {
        if self.dnssec {
            "+dnssec"@
        } else {
            "+nodnssec"@
        }
    }

    /// The option that sets or clears the DO bit.
    pub fn do_bit(&self) -> (flag: &'static str)
        ensures
            flag@ == self.spec_do_bit(),
    {
        if self.dnssec {
            "+dnssec"
        } else {
            "+nodnssec"
        }
    }

    /// Sets the RD bit in the query
    pub fn recurse(&mut self) -> (settings: &mut Self)
        ensures
            *settings == (DigSettings { recurse: true, ..*old(self) }),
            *final(self) == *final(settings),
    {
        self.recurse = true;
        self
    }

    /// The option that sets or clears the RD bit.
    pub open spec fn spec_rdflag(&self) -> Seq<char> {
        if self.recurse {
            "+recurse"@
        } else {
            "+norecurse"@
        }
    }

    /// The option that sets or clears the RD bit.
    pub fn rdflag(&self) -> (flag: &'static str)
        ensures
            flag@ == self.spec_rdflag(),
    {
        if self.recurse {
            "+recurse"
        } else {
            "+norecurse"
        }
    }

    /// Sets the timeout for the query, specified in seconds
    pub fn timeout(&mut self, timeout: u8) -> (settings: &mut Self)
        ensures
            *settings == (DigSettings { timeout: Some(timeout), ..*old(self) }),
            *final(self) == *final(settings),
    {
        self.timeout = Some(timeout);
        self
    }

    /// The seconds that `dig` waits: those named, or five.
    pub open spec fn spec_timeout_secs(&self) -> u8 {
        match self.timeout {
            Some(timeout) => timeout,
            None => DEFAULT_TIMEOUT_SECS,
        }
    }

    /// The option that sets the timeout.
    pub open spec fn spec_timeoutflag(&self) -> Seq<char> {
        "+timeout="@ + decimal(self.spec_timeout_secs() as nat)
    }

    /// The option that sets the timeout.
    pub fn timeoutflag(&self) -> (flag: String)
        ensures
            flag@ == self.spec_timeoutflag(),
    {
        let secs: u8 = match self.timeout {
            Some(timeout) => timeout,
            None => DEFAULT_TIMEOUT_SECS,
        };
        let digits = to_text(&format_number(secs as u64));
        let mut flag = String::from_str("+timeout=");
        flag.append(digits.as_str());
        flag
    }
}

impl Default for DigSettings {
    fn default() -> (settings: DigSettings)
        ensures
            settings == DigSettings::spec_default(),
    {
        DigSettings { adflag: false, cdflag: false, dnssec: false, recurse: false, timeout: None }
    }
}

/// The server that a query is sent to, as `dig` and `delv` want it written.
pub open spec fn server_argument(server: u32) -> Seq<char> {
    "@"@ + ipv4_text(server)
}

/// The command line that asks `dig` one question.
pub open spec fn dig_arguments(
    settings: DigSettings,
    server: u32,
    record_type: RecordType,
    fqdn: Seq<char>,
) -> Seq<Seq<char>> {
    seq![
        "dig"@,
        settings.spec_rdflag(),
        settings.spec_do_bit(),
        settings.spec_adflag(),
        settings.spec_cdflag(),
        settings.spec_timeoutflag(),
        server_argument(server),
        record_type.spec_as_str(),
        fqdn,
    ]
}

/// The command line that asks `delv` one question.
pub open spec fn delv_arguments(server: u32, record_type: RecordType, fqdn: Seq<char>) -> Seq<
    Seq<char>,
> {
    seq![
        "delv"@,
        server_argument(server),
        "-a"@,
        trust_anchor_path(),
        fqdn,
        record_type.spec_as_str(),
    ]
}

fn server_flag(server: u32) -> (flag: String)
    ensures
        flag@ == server_argument(server),
{
    let address = format_ipv4(server);
    let mut flag = String::from_str("@");
    flag.append(address.as_str());
    flag
}

impl Client {
    /// The client in the container with this id, name and address.
    pub fn new(id: String, name: String, ipv4_addr: u32) -> (client: Client)
        ensures
            client.id == id,
            client.name == name,
            client.ipv4_addr == ipv4_addr,
    {
        Client { id, name, ipv4_addr }
    }

    /// The id of the client's container.
    pub fn container_id(&self) -> (id: &str)
        ensures
            id@ == self.id@,
    {
        self.id.as_str()
    }

    /// The name of the client's container.
    pub fn container_name(&self) -> (name: &str)
        ensures
            name@ == self.name@,
    {
        self.name.as_str()
    }

    /// The address of the client's container.
    pub fn ipv4_addr(&self) -> (addr: u32)
        ensures
            addr == self.ipv4_addr,
    {
        self.ipv4_addr
    }

    /// Where the trust anchor is copied to before `delv` runs.
    pub fn trust_anchor_path() -> (path: &'static str)
        ensures
            path@ == trust_anchor_path(),
    {
        "/etc/bind.keys"
    }

    /// The command that validates `fqdn` with `delv` against the trust anchor
    /// at `trust_anchor_path`. The trust anchor must hold a key.
    pub fn delv(&self, server: u32, record_type: RecordType, fqdn: &str, trust_anchor_keys: usize) -> (command:
        Vec<String>)
        requires
            trust_anchor_keys > 0,
        ensures
            text_views(command@) == delv_arguments(server, record_type, fqdn@),
    {
        let mut command: Vec<String> = Vec::new();
        command.push(String::from_str("delv"));
        command.push(server_flag(server));
        command.push(String::from_str("-a"));
        command.push(String::from_str("/etc/bind.keys"));
        command.push(String::from_str(fqdn));
        command.push(String::from_str(record_type.as_str()));
        assert(text_views(command@) =~= delv_arguments(server, record_type, fqdn@));
        command
    }

    /// The command that asks `server` for the records of type `record_type`
    /// at `fqdn`. What it prints is read by `DigOutput::from_str`.
    pub fn dig(&self, settings: DigSettings, server: u32, record_type: RecordType, fqdn: &str) -> (command:
        Vec<String>)
        ensures
            text_views(command@) == dig_arguments(settings, server, record_type, fqdn@),
    {
        let mut command: Vec<String> = Vec::new();
        command.push(String::from_str("dig"));
        command.push(String::from_str(settings.rdflag()));
        command.push(String::from_str(settings.do_bit()));
        command.push(String::from_str(settings.adflag()));
        command.push(String::from_str(settings.cdflag()));
        command.push(settings.timeoutflag());
        command.push(server_flag(server));
        command.push(String::from_str(record_type.as_str()));
        command.push(String::from_str(fqdn));
        assert(text_views(command@) =~= dig_arguments(settings, server, record_type, fqdn@));
        command
    }
}

} // verus!
