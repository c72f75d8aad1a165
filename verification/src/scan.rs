//! The scan orchestrator: a state machine stepped by its caller, who owns
//! the raw channel and performs the actual send and receive around it.
//!
//! One scan moves `Idle -> Sending -> Listening -> (Terminated | Failed)`.
//! The caller builds the session, sends the frame the session hands back,
//! then loops: each receive outcome (a frame, a timeout, a fatal error)
//! comes in as one event, and the top of each iteration is the cooperative
//! cancellation point.  The engine itself sets no overall deadline; only
//! each receive call is bounded.

use vstd::prelude::*;
use crate::error::ScanError;
use crate::frame::{
    build_arp_request, spec_arp_request_frame_bytes, spec_arp_request_header,
    spec_arp_request_message, spec_encode_arp_message, EthernetFrame,
};
use crate::iface::{IpAssignment, Ipv4Address, MacAddress, NetInterface};
use crate::matcher::{spec_extract_reply, try_extract_reply};

verus! {

/// Read timeout of one receive call, in milliseconds.  This bounds how
/// promptly the loop reaches its cancellation point.
pub const DATALINK_RCV_TIMEOUT: u64 = 500;

/// The phases of one scan.
#[derive(Clone, Copy, PartialEq, Eq, Structural, Debug)]
pub enum ScanState {
    /// No request prepared yet.
    Idle,
    /// The request frame is built and waits to go out.
    Sending,
    /// The request is out; inbound frames are being examined.
    Listening,
    /// Stopped cooperatively by the caller.
    Terminated,
    /// A configuration or fatal I/O error ended the scan.
    Failed,
}

/// One outcome of a receive call, handed in by the channel's owner.
pub enum RecvEvent {
    /// The raw bytes of one link-layer frame.
    Frame(Vec<u8>),
    /// The read timeout elapsed with no data: not an error, the loop's
    /// chance to check for cancellation.
    Timeout,
    /// A non-timeout I/O failure: the channel is gone.
    Fatal,
}

/// The first IPv4 assignment of an interface, the scan's source address.
pub open spec fn spec_first_ipv4(ips: Seq<IpAssignment>) -> Option<Ipv4Address>
    decreases ips.len(),
{
    if ips.len() == 0 {
        None
    } else if ips[0] is V4 {
        Some(ips[0]->V4_0)
    } else {
        spec_first_ipv4(ips.skip(1))
    }
}

proof fn lemma_first_ipv4_skip(ips: Seq<IpAssignment>, i: int)
    requires
        0 <= i <= ips.len(),
        forall|j: int| 0 <= j < i ==> !ips[j].spec_is_v4(),
    ensures
        spec_first_ipv4(ips) == spec_first_ipv4(ips.skip(i)),
    decreases i,
{
    if i > 0 {
        assert(!ips[0].spec_is_v4());
        assert forall|j: int| 0 <= j < i - 1 implies !ips.skip(1)[j].spec_is_v4() by {
            assert(ips.skip(1)[j] == ips[j + 1]);
        }
        lemma_first_ipv4_skip(ips.skip(1), i - 1);
        assert(ips.skip(1).skip(i - 1) =~= ips.skip(i));
        assert(ips.skip(0) =~= ips);
    } else {
        assert(ips.skip(0) =~= ips);
    }
}

/// Finds the scan's source address: the first IPv4 assignment of the
/// interface, or `NoSourceAddress` when none is bound to it.
pub fn get_source_ip_from_interface(interface: &NetInterface) -> (r: Result<
    Ipv4Address,
    ScanError,
>)
    ensures
        r == match spec_first_ipv4(interface.ips@) {
            Some(ip) => Ok::<Ipv4Address, ScanError>(ip),
            None => Err::<Ipv4Address, ScanError>(ScanError::NoSourceAddress),
        },
{
    let ghost ips = interface.ips@;
    let mut i: usize = 0;
    while i < interface.ips.len()
        invariant
            0 <= i <= ips.len(),
            ips == interface.ips@,
            forall|j: int| 0 <= j < i ==> !ips[j].spec_is_v4(),
        decreases ips.len() - i,
    {
        match interface.ips[i] {
            IpAssignment::V4(ip) => {
                proof {
                    lemma_first_ipv4_skip(ips, i as int);
                    assert(ips.skip(i as int)[0] == ips[i as int]);
                }
                return Ok(ip);
            },
            IpAssignment::V6 => {},
        }
        i = i + 1;
    }
    proof {
        lemma_first_ipv4_skip(ips, ips.len() as int);
        assert(ips.skip(ips.len() as int).len() == 0);
    }
    Err(ScanError::NoSourceAddress)
}

/// The outstanding request: created when a scan starts, destroyed when
/// the scan terminates or fails.  Records the identity the request frame
/// carried and, once it went out, the caller's clock reading of the send.
#[derive(Clone, Copy, PartialEq, Eq, Structural, Debug)]
pub struct ScanRequest {
    /// The hardware address the request carried as sender.
    pub sender_hw: MacAddress,
    /// The source IPv4 address derived from the interface.
    pub source_ipv4: Ipv4Address,
    /// Caller-supplied timestamp of the outbound send, in milliseconds;
    /// absent until the frame went out.  Recorded, never interpreted.
    pub sent_at_millis: Option<u64>,
}

/// One scan run: the state the orchestrator is in, the outstanding
/// request while one is live, the error that ended the scan if one did,
/// and the append-only record of observed replies, in the order the
/// channel delivered them.
#[derive(Debug)]
pub struct ScanSession {
    pub state: ScanState,
    pub request: Option<ScanRequest>,
    pub error: Option<ScanError>,
    pub results: Vec<(MacAddress, Ipv4Address)>,
}

impl ScanSession {
    /// Internal consistency: exactly the failed session carries an error,
    /// and a request is outstanding exactly while the scan is live.
    pub open spec fn wf(self) -> bool {
        &&& (self.state is Failed <==> self.error is Some)
        &&& (self.state is Sending || self.state is Listening ==> self.request is Some)
        &&& (self.state is Idle ==> self.request is None)
    }

    pub fn new() -> (s: ScanSession)
        ensures
            s.wf(),
            s.state == ScanState::Idle,
            s.request is None,
            s.error is None,
            s.results@ == Seq::<(MacAddress, Ipv4Address)>::empty(),
    {
        ScanSession { state: ScanState::Idle, request: None, error: None, results: Vec::new() }
    }

    /// `Idle -> Sending`: derives the source IPv4 from the interface's
    /// first v4 assignment and builds the request frame.  An interface
    /// without an IPv4 address or without a hardware address fails the
    /// session here, before any channel exists and before anything is
    /// sent.
    pub fn start(&mut self, iface: &NetInterface) -> (r: Result<EthernetFrame, ScanError>)
        requires
            old(self).wf(),
            old(self).state == ScanState::Idle,
        ensures
            final(self).wf(),
            final(self).results@ == old(self).results@,
            r is Ok <==> (spec_first_ipv4(iface.ips@) is Some && iface.mac is Some),
            spec_first_ipv4(iface.ips@) is None ==> r == Err::<EthernetFrame, ScanError>(
                ScanError::NoSourceAddress,
            ),
            spec_first_ipv4(iface.ips@) is Some && iface.mac is None ==> r == Err::<
                EthernetFrame,
                ScanError,
            >(ScanError::ConfigurationError),
            r is Err ==> (final(self).state == ScanState::Failed && final(self).error == Some(r->Err_0)
                && final(self).request is None),
            r is Ok ==> {
                let frame = r->Ok_0;
                &&& final(self).state == ScanState::Sending
                &&& final(self).error is None
                &&& final(self).request == Some(
                    ScanRequest {
                        sender_hw: iface.mac->0,
                        source_ipv4: spec_first_ipv4(iface.ips@)->Some_0,
                        sent_at_millis: None,
                    },
                )
                &&& frame.header == spec_arp_request_header(iface.mac->0)
                &&& frame.payload@ == spec_encode_arp_message(
                    spec_arp_request_message(iface.mac->0, spec_first_ipv4(iface.ips@)->Some_0),
                )
                &&& frame.is_arp_carrier()
                &&& frame.spec_bytes() == spec_arp_request_frame_bytes(
                    iface.mac->0,
                    spec_first_ipv4(iface.ips@)->Some_0,
                )
            },
    {
        let source_ip = match get_source_ip_from_interface(iface) {
            Ok(ip) => ip,
            Err(e) => {
                self.state = ScanState::Failed;
                self.error = Some(e);
                return Err(e);
            },
        };
        match build_arp_request(iface, source_ip) {
            Ok(frame) => {
                self.state = ScanState::Sending;
                self.request = Some(
                    ScanRequest {
                        sender_hw: frame.header.source,
                        source_ipv4: source_ip,
                        sent_at_millis: None,
                    },
                );
                Ok(frame)
            },
            Err(e) => {
                self.state = ScanState::Failed;
                self.error = Some(e);
                Err(e)
            },
        }
    }

    /// `Sending -> Listening` once the single outbound frame went out,
    /// recording the caller's clock reading of the send.  The send is
    /// fire-and-forget, so a failure is fatal: ARP offers no delivery
    /// guarantee to retry against.
    pub fn on_send_result(&mut self, sent: bool, sent_at_millis: u64)
        requires
            old(self).wf(),
            old(self).state == ScanState::Sending,
        ensures
            final(self).wf(),
            final(self).results@ == old(self).results@,
            sent ==> {
                &&& final(self).state == ScanState::Listening
                &&& final(self).error is None
                &&& final(self).request == Some(
                    ScanRequest {
                        sender_hw: old(self).request->Some_0.sender_hw,
                        source_ipv4: old(self).request->Some_0.source_ipv4,
                        sent_at_millis: Some(sent_at_millis),
                    },
                )
            },
            !sent ==> (final(self).state == ScanState::Failed && final(self).error == Some(
                ScanError::SendFailed,
            ) && final(self).request is None),
    {
        if sent {
            self.state = ScanState::Listening;
            if let Some(request) = self.request {
                self.request = Some(
                    ScanRequest {
                        sender_hw: request.sender_hw,
                        source_ipv4: request.source_ipv4,
                        sent_at_millis: Some(sent_at_millis),
                    },
                );
            }
        } else {
            self.state = ScanState::Failed;
            self.error = Some(ScanError::SendFailed);
            self.request = None;
        }
    }

    /// One listening step.  A matched reply is appended to the results and
    /// also returned, and listening continues: several hosts may answer.
    /// A timeout is no error and changes nothing.  A fatal receive error
    /// ends the scan.
    pub fn on_receive(&mut self, event: RecvEvent) -> (r: Option<(MacAddress, Ipv4Address)>)
        requires
            old(self).wf(),
            old(self).state == ScanState::Listening,
        ensures
            final(self).wf(),
            match event {
                RecvEvent::Frame(raw) => {
                    &&& final(self).state == ScanState::Listening
                    &&& final(self).request == old(self).request
                    &&& final(self).error is None
                    &&& r == spec_extract_reply(raw@)
                    &&& match spec_extract_reply(raw@) {
                        Some(pair) => final(self).results@ == old(self).results@.push(pair),
                        None => final(self).results@ == old(self).results@,
                    }
                },
                RecvEvent::Timeout => {
                    &&& final(self).state == ScanState::Listening
                    &&& final(self).request == old(self).request
                    &&& final(self).error is None
                    &&& r is None
                    &&& final(self).results@ == old(self).results@
                },
                RecvEvent::Fatal => {
                    &&& final(self).state == ScanState::Failed
                    &&& final(self).request is None
                    &&& final(self).error == Some(ScanError::ChannelFailed)
                    &&& r is None
                    &&& final(self).results@ == old(self).results@
                },
            },
    {
        match event {
            RecvEvent::Frame(raw) => {
                match try_extract_reply(&raw) {
                    Some(pair) => {
                        self.results.push(pair);
                        Some(pair)
                    },
                    None => None,
                }
            },
            RecvEvent::Timeout => None,
            RecvEvent::Fatal => {
                self.state = ScanState::Failed;
                self.request = None;
                self.error = Some(ScanError::ChannelFailed);
                None
            },
        }
    }

    /// `Listening -> Terminated`: the cooperative cancellation point the
    /// caller reaches at the top of each receive iteration.
    pub fn cancel(&mut self)
        requires
            old(self).wf(),
            old(self).state == ScanState::Listening,
        ensures
            final(self).wf(),
            final(self).state == ScanState::Terminated,
            final(self).request is None,
            final(self).error is None,
            final(self).results@ == old(self).results@,
    {
        self.state = ScanState::Terminated;
        self.request = None;
    }

    /// Records a failure the channel's owner detected itself, such as the
    /// platform offering no Ethernet channel kind for the interface.
    pub fn fail(&mut self, err: ScanError)
        requires
            old(self).wf(),
            !(old(self).state is Failed),
        ensures
            final(self).wf(),
            final(self).state == ScanState::Failed,
            final(self).request is None,
            final(self).error == Some(err),
            final(self).results@ == old(self).results@,
    {
        self.state = ScanState::Failed;
        self.request = None;
        self.error = Some(err);
    }
}

} // verus!
