//! The packet pump: admission rules for the two unidirectional loops that
//! copy raw IP packets between the tunnel device and the virtual IP stack.
//!
//! The loops themselves are driven by the surrounding program; the decisions
//! they take on each packet are made here.

use vstd::prelude::*;

verus! {

/// Minimum length of a well-formed raw IP packet: the fixed IPv4 header.
pub const MIN_IP_HEADER_LEN: usize = 20;

/// A raw packet is forwarded by the pump only if it is at least one IP
/// header long and no longer than the configured MTU.
pub open spec fn packet_ok(p: Seq<u8>, mtu: int) -> bool {
    MIN_IP_HEADER_LEN <= p.len() <= mtu
}

/// Decides whether the ingress pump admits one raw packet.
pub fn ingress_admits(pkt: &Vec<u8>, mtu: usize) -> (r: bool)
    ensures
        r == packet_ok(pkt@, mtu as int),
{
    MIN_IP_HEADER_LEN <= pkt.len() && pkt.len() <= mtu
}

/// What the ingress loop does with one read from the tunnel device.
#[derive(Debug)]
pub enum IngressAction {
    /// Hand this packet to the virtual IP stack's inbound sink.
    Forward(Vec<u8>),
    /// The bytes read do not form a forwardable packet; read on.
    DropPacket,
    /// A zero-length read: the device is gone, the loop terminates.
    Shutdown,
}

/// One step of the ingress loop: `n` bytes were read from the tunnel device
/// into `buf`. A zero read shuts the loop down; otherwise the length-bounded
/// copy of the bytes read is forwarded exactly when it is a well-formed,
/// MTU-bounded packet.
pub fn ingress_step(buf: &Vec<u8>, n: usize, mtu: usize) -> (r: IngressAction)
    requires
        n <= buf.len(),
    ensures
        n == 0 ==> r is Shutdown,
        n > 0 && packet_ok(buf@.take(n as int), mtu as int) ==> (r matches IngressAction::Forward(p)
            && p@ == buf@.take(n as int)),
        n > 0 && !packet_ok(buf@.take(n as int), mtu as int) ==> r is DropPacket,
{
    if n == 0 {
        return IngressAction::Shutdown;
    }
    let pkt = copy_prefix(buf, n);
    if ingress_admits(&pkt, mtu) {
        IngressAction::Forward(pkt)
    } else {
        IngressAction::DropPacket
    }
}

/// Length-bounded copy: the first `n` bytes of `buf`, as an owned packet.
pub fn copy_prefix(buf: &Vec<u8>, n: usize) -> (r: Vec<u8>)
    requires
        n <= buf.len(),
    ensures
        r@ == buf@.take(n as int),
{
    let mut out: Vec<u8> = Vec::new();
    let mut i: usize = 0;
    while i < n
        invariant
            i <= n <= buf.len(),
            out@ == buf@.take(i as int),
        decreases n - i,
    {
        out.push(buf[i]);
        proof {
            assert(buf@.take(i + 1 as int) =~= buf@.take(i as int).push(buf@[i as int]));
        }
        i = i + 1;
    }
    out
}

/// The packets the ingress loop hands to the stack, given the packets read
/// from the device: the well-formed ones, in reading order.
pub open spec fn forwarded(input: Seq<Seq<u8>>, mtu: int) -> Seq<Seq<u8>>
    decreases input.len(),
{
    if input.len() == 0 {
        Seq::empty()
    } else {
        let rest = forwarded(input.drop_last(), mtu);
        if packet_ok(input.last(), mtu) {
            rest.push(input.last())
        } else {
            rest
        }
    }
}

/// Runs the ingress admission over a whole sequence of reads, preserving
/// the order in which the packets were read.
pub fn pump_ingress(input: &Vec<Vec<u8>>, mtu: usize) -> (out: Vec<Vec<u8>>)
    ensures
        out.deep_view() == forwarded(input.deep_view(), mtu as int),
{
    let mut out: Vec<Vec<u8>> = Vec::new();
    let mut i: usize = 0;
    while i < input.len()
        invariant
            i <= input.len(),
            out.deep_view() == forwarded(input.deep_view().take(i as int), mtu as int),
        decreases input.len() - i,
    {
        let ghost pre = out.deep_view();
        let pkt = copy_prefix(&input[i], input[i].len());
        proof {
            assert(pkt@ =~= input.deep_view()[i as int]);
        }
        let ghost pv = pkt@;
        if ingress_admits(&pkt, mtu) {
            out.push(pkt);
            proof {
                assert(out.deep_view() =~~= pre.push(pv));
            }
        }
        proof {
            let iv = input.deep_view();
            assert(iv.take(i + 1 as int).drop_last() =~= iv.take(i as int));
            assert(iv.take(i + 1 as int).last() == iv[i as int]);
        }
        i = i + 1;
    }
    proof {
        assert(input.deep_view().take(input.len() as int) =~= input.deep_view());
    }
    out
}

/// Feeding the ingress loop only well-formed, MTU-bounded packets delivers
/// every packet to the stack's inbound sink, in the order it was read, with
/// no drops.
pub proof fn lemma_ingress_order_preserved(input: Seq<Seq<u8>>, mtu: int)
    requires
        forall|i: int| 0 <= i < input.len() ==> packet_ok(#[trigger] input[i], mtu),
    ensures
        forwarded(input, mtu) == input,
    decreases input.len(),
{
    if input.len() > 0 {
        assert(forall|i: int|
            0 <= i < input.drop_last().len() ==> packet_ok(#[trigger] input.drop_last()[i], mtu));
        lemma_ingress_order_preserved(input.drop_last(), mtu);
        assert(input.drop_last().push(input.last()) =~= input);
    } else {
        assert(forwarded(input, mtu) =~= input);
    }
}

/// Fate of one egress write against the tunnel device.
#[derive(Clone, Copy, PartialEq, Eq, Structural, Debug)]
pub enum EgressStatus {
    /// The packet was written in full; pull the next one.
    Delivered,
    /// A partial write: an adapter fault, fatal for the egress loop, since
    /// an IP packet is not resumable mid-write.
    AdapterFault,
}

/// One step of the egress loop: a packet of `pkt_len` bytes was handed to
/// the tunnel device, which accepted `written` of them. Anything short of
/// the full packet is an adapter fault.
pub fn egress_step(pkt_len: usize, written: usize) -> (r: EgressStatus)
    ensures
        r == EgressStatus::Delivered <==> written == pkt_len,
{
    if written == pkt_len {
        EgressStatus::Delivered
    } else {
        EgressStatus::AdapterFault
    }
}

} // verus!
