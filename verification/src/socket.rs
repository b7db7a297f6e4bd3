//! The socket factory: what has to be done to a socket, and in which order,
//! before it can be handed to the query engine.
//!
//! An IPv6 socket is restricted to IPv6 before it is bound. Without that, the
//! IPv6 wildcard would also take the traffic of the IPv4 wildcard, and the
//! two binds of the default plan would collide.

use vstd::prelude::*;
use vstd::string::StringExecFns;
use crate::net::Family;
use crate::net::IpAddress;
use crate::net::SocketKind;
use crate::net::Transport;
use crate::number::decimal;
use crate::number::format_number;
use crate::text::to_text;

verus! {

/// How many connections a listening stream socket lets wait.
pub const STREAM_BACKLOG: u32 = 128;

/// One thing done to a socket.
#[derive(Clone, Copy, Debug, PartialEq, Eq, Structural)]
pub enum SocketStep {
    /// Create the socket.
    Create { family: Family, kind: SocketKind },
    /// Restrict the socket to IPv6, so that it takes no IPv4-mapped traffic.
    SetOnlyV6,
    /// Make the socket non-blocking.
    SetNonblocking,
    /// Bind the socket to its address and port.
    Bind { address: IpAddress, port: u16 },
    /// Let the socket listen for connections.
    Listen { backlog: u32 },
    /// Hand the socket to the asynchronous runtime.
    Adopt,
}

/// A socket that could not be set up: where it was to listen, for which
/// transport, the step that failed and what the system said.
#[derive(Clone, Debug, PartialEq, Eq)]
pub struct BindError {
    pub address: IpAddress,
    pub port: u16,
    pub transport: Transport,
    pub step: SocketStep,
    pub os_error: String,
}

/// The restriction to IPv6, for an IPv6 address only.
pub open spec fn only_v6_steps(address: IpAddress) -> Seq<SocketStep> {
    if address.spec_family() == Family::V6 {
        seq![SocketStep::SetOnlyV6]
    } else {
        Seq::empty()
    }
}

/// Listening with the fixed backlog, for a stream socket only.
pub open spec fn listen_steps(kind: SocketKind) -> Seq<SocketStep> {
    if kind == SocketKind::Stream {
        seq![SocketStep::Listen { backlog: STREAM_BACKLOG }]
    } else {
        Seq::empty()
    }
}

/// The steps that set up a socket of `kind` on `address` and `port`, in
/// order: create it in the family of the address, restrict it to IPv6 where
/// that is its family, make it non-blocking, bind it, let it listen where it
/// is a stream socket, and hand it over.
pub open spec fn socket_steps(kind: SocketKind, address: IpAddress, port: u16) -> Seq<SocketStep> {
    seq![SocketStep::Create { family: address.spec_family(), kind }] + only_v6_steps(address)
        + seq![SocketStep::SetNonblocking, SocketStep::Bind { address, port }] + listen_steps(kind)
        + seq![SocketStep::Adopt]
}

/// The steps that set up a socket of `kind` on `address` and `port`.
pub fn bind_steps(kind: SocketKind, address: IpAddress, port: u16) -> (steps: Vec<SocketStep>)
    ensures
        steps@ == socket_steps(kind, address, port),
{
    let mut steps: Vec<SocketStep> = Vec::new();
    steps.push(SocketStep::Create { family: address.family(), kind });
    if address.is_ipv6() {
        steps.push(SocketStep::SetOnlyV6);
    }
    steps.push(SocketStep::SetNonblocking);
    steps.push(SocketStep::Bind { address, port });
    match kind {
        SocketKind::Stream => {
            steps.push(SocketStep::Listen { backlog: STREAM_BACKLOG });
        },
        SocketKind::Datagram => {},
    }
    steps.push(SocketStep::Adopt);
    assert(steps@ =~= socket_steps(kind, address, port));
    steps
}

/// The steps that set up a listening stream socket.
pub fn bind_stream(address: IpAddress, port: u16) -> (steps: Vec<SocketStep>)
    ensures
        steps@ == socket_steps(SocketKind::Stream, address, port),
{
    bind_steps(SocketKind::Stream, address, port)
}

/// The steps that set up a datagram socket.
pub fn bind_datagram(address: IpAddress, port: u16) -> (steps: Vec<SocketStep>)
    ensures
        steps@ == socket_steps(SocketKind::Datagram, address, port),
{
    bind_steps(SocketKind::Datagram, address, port)
}

/// The steps that set up the socket of a transport.
pub fn transport_socket(transport: Transport, address: IpAddress, port: u16) -> (steps: Vec<
    SocketStep,
>)
    ensures
        steps@ == socket_steps(transport.spec_socket_kind(), address, port),
{
    bind_steps(transport.socket_kind(), address, port)
}

impl BindError {
    /// The error of the step `step` that failed with `os_error`.
    pub fn new(
        transport: Transport,
        address: IpAddress,
        port: u16,
        step: SocketStep,
        os_error: String,
    ) -> (error: BindError)
        ensures
            error.transport == transport,
            error.address == address,
            error.port == port,
            error.step == step,
            error.os_error == os_error,
    {
        BindError { address, port, transport, step, os_error }
    }

    /// The error in words: the transport, the address and the port that the
    /// socket was for, the step that failed, and what the system said.
    pub open spec fn spec_message(&self) -> Seq<char> {
        "failed to bind to "@ + self.transport.spec_name() + " socket address "@
            + self.address.spec_to_text() + " port "@ + decimal(self.port as nat) + " ("@
            + self.step.spec_name() + "): "@ + self.os_error@
    }

    /// The error in words: the transport, the address and the port that the
    /// socket was for, the step that failed, and what the system said.
    pub fn message(&self) -> (text: String)
        ensures
            text@ == self.spec_message(),
    {
        let address = self.address.to_text();
        let port = to_text(&format_number(self.port as u64));
        let mut text = String::from_str("failed to bind to ");
        text.append(self.transport.name());
        text.append(" socket address ");
        text.append(address.as_str());
        text.append(" port ");
        text.append(port.as_str());
        text.append(" (");
        text.append(self.step.name());
        text.append("): ");
        text.append(self.os_error.as_str());
        text
    }
}

impl SocketStep {
    /// The step in a word or two, for messages.
    pub open spec fn spec_name(self) -> Seq<char> {
        match self {
            SocketStep::Create { .. } => "create"@,
            SocketStep::SetOnlyV6 => "set IPv6 only"@,
            SocketStep::SetNonblocking => "set non-blocking"@,
            SocketStep::Bind { .. } => "bind"@,
            SocketStep::Listen { .. } => "listen"@,
            SocketStep::Adopt => "hand over"@,
        }
    }

    /// The step in a word or two, for messages.
    pub fn name(self) -> (name: &'static str)
        ensures
            name@ == self.spec_name(),
    {
        match self {
            SocketStep::Create { .. } => "create",
            SocketStep::SetOnlyV6 => "set IPv6 only",
            SocketStep::SetNonblocking => "set non-blocking",
            SocketStep::Bind { .. } => "bind",
            SocketStep::Listen { .. } => "listen",
            SocketStep::Adopt => "hand over",
        }
    }
}

/// A socket being set up: the steps, how many of them are done, and the
/// error that ended the attempt, if one did.
///
/// The steps are performed strictly in order. The first one that fails ends
/// the attempt; nothing is retried.
#[derive(Clone, Debug, PartialEq, Eq)]
pub struct SocketSetup {
    pub transport: Transport,
    pub address: IpAddress,
    pub port: u16,
    pub steps: Vec<SocketStep>,
    pub done: usize,
    pub failure: Option<BindError>,
}

impl SocketSetup {
    /// The steps are those of the transport's socket, and a failure is that
    /// of the step that was due, for the socket that was being set up.
    pub open spec fn wf(&self) -> bool {
        &&& self.steps@ == socket_steps(
            self.transport.spec_socket_kind(),
            self.address,
            self.port,
        )
        &&& self.done <= self.steps@.len()
        &&& self.failure is Some ==> {
            &&& self.done < self.steps@.len()
            &&& self.failure->0.step == self.steps@[self.done as int]
            &&& self.failure->0.transport == self.transport
            &&& self.failure->0.address == self.address
            &&& self.failure->0.port == self.port
        }
    }

    /// The step that is due: none once a step has failed or all are done.
    pub open spec fn spec_current(&self) -> Option<SocketStep> {
        if self.failure is None && self.done < self.steps@.len() {
            Some(self.steps@[self.done as int])
        } else {
            None
        }
    }

    /// Whether the socket is ready: every step is done.
    pub open spec fn spec_is_ready(&self) -> bool {
        self.failure is None && self.done == self.steps@.len()
    }

    /// Starts setting up the socket of `transport` on `address` and `port`.
    pub fn new(transport: Transport, address: IpAddress, port: u16) -> (setup: SocketSetup)
        ensures
            setup.wf(),
            setup.transport == transport,
            setup.address == address,
            setup.port == port,
            setup.done == 0,
            setup.failure is None,
    {
        SocketSetup {
            transport,
            address,
            port,
            steps: transport_socket(transport, address, port),
            done: 0,
            failure: None,
        }
    }

    /// The step to perform now.
    pub fn current(&self) -> (step: Option<SocketStep>)
        requires
            self.wf(),
        ensures
            step == self.spec_current(),
    {
        if self.failure.is_none() && self.done < self.steps.len() {
            Some(self.steps[self.done])
        } else {
            None
        }
    }

    /// Records that the step that was due succeeded. Where no step is due
    /// nothing changes.
    pub fn succeed(&mut self)
        requires
            old(self).wf(),
        ensures
            final(self).wf(),
            final(self).transport == old(self).transport,
            final(self).address == old(self).address,
            final(self).port == old(self).port,
            final(self).steps == old(self).steps,
            final(self).failure == old(self).failure,
            final(self).done == if old(self).spec_current() is Some {
                old(self).done + 1
            } else {
                old(self).done as int
            },
    {
        if self.failure.is_none() && self.done < self.steps.len() {
            self.done = self.done + 1;
        }
    }

    /// Records that the step that was due failed with `os_error`, which ends
    /// the attempt. Where no step is due nothing changes.
    pub fn fail(&mut self, os_error: String)
        requires
            old(self).wf(),
        ensures
            final(self).wf(),
            final(self).transport == old(self).transport,
            final(self).address == old(self).address,
            final(self).port == old(self).port,
            final(self).steps == old(self).steps,
            final(self).done == old(self).done,
            final(self).spec_current() is None,
            match old(self).spec_current() {
                Some(step) => final(self).failure == Some(
                    (BindError {
                        address: old(self).address,
                        port: old(self).port,
                        transport: old(self).transport,
                        step,
                        os_error,
                    }),
                ),
                None => final(self).failure == old(self).failure,
            },
    {
        if self.failure.is_none() && self.done < self.steps.len() {
            let step = self.steps[self.done];
            self.failure = Some(
                BindError::new(self.transport, self.address, self.port, step, os_error),
            );
        }
    }

    /// Whether the socket is ready to be registered.
    pub fn is_ready(&self) -> (ready: bool)
        requires
            self.wf(),
        ensures
            ready == self.spec_is_ready(),
    {
        self.failure.is_none() && self.done == self.steps.len()
    }
}

/// Every IPv6 socket is restricted to IPv6 before it is bound, whatever its
/// kind and port; an IPv4 socket never is.
pub proof fn ipv6_socket_is_v6_only(kind: SocketKind, address: IpAddress, port: u16)
    ensures
        address.spec_family() == Family::V6 ==> socket_steps(kind, address, port)[1]
            == SocketStep::SetOnlyV6 && socket_steps(kind, address, port)[3] == (SocketStep::Bind {
            address,
            port,
        }),
        address.spec_family() == Family::V4 ==> !socket_steps(kind, address, port).contains(
            SocketStep::SetOnlyV6,
        ),
        forall|i: int, j: int|
            0 <= i < socket_steps(kind, address, port).len() && 0 <= j < socket_steps(
                kind,
                address,
                port,
            ).len() && socket_steps(kind, address, port)[i] == SocketStep::SetOnlyV6
                && socket_steps(kind, address, port)[j] is Bind ==> i < j,
{
}

/// Every socket is created first, in the family of its address, made
/// non-blocking and bound before it is handed over, and handed over last. A
/// stream socket listens with the fixed backlog between bind and hand-over; a
/// datagram socket never listens.
pub proof fn socket_is_ready_when_adopted(kind: SocketKind, address: IpAddress, port: u16)
    ensures
        socket_steps(kind, address, port)[0] == (SocketStep::Create {
            family: address.spec_family(),
            kind,
        }),
        socket_steps(kind, address, port).last() == SocketStep::Adopt,
        forall|i: int|
            0 <= i < socket_steps(kind, address, port).len() - 1 ==> socket_steps(
                kind,
                address,
                port,
            )[i] != SocketStep::Adopt,
        exists|i: int, j: int|
            0 <= i < j < socket_steps(kind, address, port).len() - 1 && socket_steps(
                kind,
                address,
                port,
            )[i] == SocketStep::SetNonblocking && socket_steps(kind, address, port)[j] == (
            SocketStep::Bind { address, port }),
        kind == SocketKind::Stream ==> socket_steps(kind, address, port)[socket_steps(
            kind,
            address,
            port,
        ).len() - 2] == (SocketStep::Listen { backlog: 128 }),
        kind == SocketKind::Datagram ==> forall|i: int|
            0 <= i < socket_steps(kind, address, port).len() ==> !(socket_steps(
                kind,
                address,
                port,
            )[i] is Listen),
{
    let steps = socket_steps(kind, address, port);
    if address.spec_family() == Family::V6 {
        assert(steps[2] == SocketStep::SetNonblocking && steps[3] == (SocketStep::Bind {
            address,
            port,
        }));
    } else {
        assert(steps[1] == SocketStep::SetNonblocking && steps[2] == (SocketStep::Bind {
            address,
            port,
        }));
    }
}

} // verus!
