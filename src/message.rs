//! SNMP messages: the v1, v2c and v3 envelopes, their decoding and encoding,
//! and the Response that acknowledges an InformRequest.

use vstd::prelude::*;
use crate::ber::{
    copy_range, expect, expect_int, lemma_be_value_small, lemma_split_tlv, lemma_tlv_len, push_tlv,
    read_expected, read_int, read_tlv, read_u32, split_tlv, tlv, uint_value, TAG_INTEGER,
    TAG_OCTET_STRING, TAG_SEQUENCE,
};
use crate::error::Error;

verus! {

pub const TAG_GET_REQUEST: u8 = 0xA0;

pub const TAG_RESPONSE: u8 = 0xA2;

pub const TAG_TRAP_V1: u8 = 0xA4;

pub const TAG_INFORM_REQUEST: u8 = 0xA6;

pub const TAG_REPORT: u8 = 0xA8;

/// Longest field that the encoders frame; longer ones make them fail.
pub const MAX_FIELD: usize = 0x0800_0000;

/// The PDU tags of SNMPv1.
pub open spec fn is_v1_pdu_tag(t: u8) -> bool {
    TAG_GET_REQUEST <= t <= TAG_TRAP_V1
}

/// The PDU tags of SNMPv2 (RFC 3416): all but the obsolete v1 Trap.
pub open spec fn is_v2_pdu_tag(t: u8) -> bool {
    TAG_GET_REQUEST <= t <= TAG_REPORT && t != TAG_TRAP_V1
}

/// An SNMPv2 PDU. Integer fields hold their INTEGER content octets; the
/// variable bindings are the content of the VarBindList SEQUENCE.
pub struct Pdu {
    pub tag: u8,
    pub request_id: Vec<u8>,
    pub error_status: Vec<u8>,
    pub error_index: Vec<u8>,
    pub variable_bindings: Vec<u8>,
}

pub struct PduView {
    pub tag: u8,
    pub request_id: Seq<u8>,
    pub error_status: Seq<u8>,
    pub error_index: Seq<u8>,
    pub variable_bindings: Seq<u8>,
}

impl View for Pdu {
    type V = PduView;

    open spec fn view(&self) -> PduView {
        PduView {
            tag: self.tag,
            request_id: self.request_id@,
            error_status: self.error_status@,
            error_index: self.error_index@,
            variable_bindings: self.variable_bindings@,
        }
    }
}

/// An SNMPv1 message: the community and the PDU, kept as its tag and content.
pub struct V1Message {
    pub community: Vec<u8>,
    pub pdu_tag: u8,
    pub pdu: Vec<u8>,
}

pub struct V1View {
    pub community: Seq<u8>,
    pub pdu_tag: u8,
    pub pdu: Seq<u8>,
}

impl View for V1Message {
    type V = V1View;

    open spec fn view(&self) -> V1View {
        V1View { community: self.community@, pdu_tag: self.pdu_tag, pdu: self.pdu@ }
    }
}

/// An SNMPv2c message, with the encoded Response when the PDU is an InformRequest.
pub struct V2Message {
    pub community: Vec<u8>,
    pub pdu: Pdu,
    pub response: Option<Vec<u8>>,
}

pub struct V2View {
    pub community: Seq<u8>,
    pub pdu: PduView,
    pub response: Option<Seq<u8>>,
}

pub open spec fn bytes_view(o: Option<Vec<u8>>) -> Option<Seq<u8>> {
    match o {
        Some(v) => Some(v@),
        None => None,
    }
}

impl View for V2Message {
    type V = V2View;

    open spec fn view(&self) -> V2View {
        V2View { community: self.community@, pdu: self.pdu@, response: bytes_view(self.response) }
    }
}

/// Fields of a PDU body with tag `tag`: three INTEGERs and the VarBindList.
pub open spec fn parse_pdu_body(tag: u8, c: Seq<u8>) -> Option<PduView> {
    match expect_int(c) {
        None => None,
        Some((rid, r1)) => match expect_int(r1) {
            None => None,
            Some((es, r2)) => match expect_int(r2) {
                None => None,
                Some((ei, r3)) => match expect(r3, TAG_SEQUENCE) {
                    None => None,
                    Some((vb, r4)) => if r4.len() == 0 {
                        Some(
                            PduView {
                                tag,
                                request_id: rid,
                                error_status: es,
                                error_index: ei,
                                variable_bindings: vb,
                            },
                        )
                    } else {
                        None
                    },
                },
            },
        },
    }
}

/// The content of the outer SEQUENCE of `s` after its version INTEGER, and
/// the version's content octets.
pub open spec fn after_version(s: Seq<u8>) -> Option<(Seq<u8>, Seq<u8>)> {
    match expect(s, TAG_SEQUENCE) {
        None => None,
        Some((body, _trailing)) => match expect_int(body) {
            None => None,
            Some((v, rest)) => Some((v, rest)),
        },
    }
}

/// Community and PDU (tag, content) of a community-based message.
pub open spec fn parse_community_pdu(s: Seq<u8>) -> Option<(Seq<u8>, u8, Seq<u8>)> {
    match after_version(s) {
        None => None,
        Some((_v, r1)) => match expect(r1, TAG_OCTET_STRING) {
            None => None,
            Some((comm, r2)) => match split_tlv(r2) {
                None => None,
                Some((t, pc, r3)) => if r3.len() == 0 {
                    Some((comm, t, pc))
                } else {
                    None
                },
            },
        },
    }
}

pub const TAG_OBJECT_IDENTIFIER: u8 = 0x06;

pub const TAG_IP_ADDRESS: u8 = 0x40;

pub const TAG_TIMETICKS: u8 = 0x43;

/// Whether `c` is the body of a v1 Trap-PDU: enterprise, agent-addr (four
/// octets), generic-trap, specific-trap, time-stamp and variable bindings.
pub open spec fn is_v1_trap_body(c: Seq<u8>) -> bool {
    match expect(c, TAG_OBJECT_IDENTIFIER) {
        None => false,
        Some((_e, r1)) => match expect(r1, TAG_IP_ADDRESS) {
            None => false,
            Some((addr, r2)) => addr.len() == 4 && match expect_int(r2) {
                None => false,
                Some((_g, r3)) => match expect_int(r3) {
                    None => false,
                    Some((_sp, r4)) => match expect(r4, TAG_TIMETICKS) {
                        None => false,
                        Some((_t, r5)) => match expect(r5, TAG_SEQUENCE) {
                            None => false,
                            Some((_vb, r6)) => r6.len() == 0,
                        },
                    },
                },
            },
        },
    }
}

/// Whether `c` is the body of a v1 PDU with tag `t`.
pub open spec fn is_v1_pdu_body(t: u8, c: Seq<u8>) -> bool {
    if t == TAG_TRAP_V1 {
        is_v1_trap_body(c)
    } else {
        parse_pdu_body(t, c) is Some
    }
}

fn check_v1_trap_body(data: &[u8], cs: usize, ce: usize) -> (r: bool)
    requires
        cs <= ce <= data@.len(),
    ensures
        r == is_v1_trap_body(data@.subrange(cs as int, ce as int)),
{
    let (_a0, a1) = match read_expected(data, cs, ce, TAG_OBJECT_IDENTIFIER) {
        Some(x) => x,
        None => return false,
    };
    let (b0, b1) = match read_expected(data, a1, ce, TAG_IP_ADDRESS) {
        Some(x) => x,
        None => return false,
    };
    if b1 - b0 != 4 {
        return false;
    }
    let (_c0, c1) = match read_int(data, b1, ce) {
        Some(x) => x,
        None => return false,
    };
    let (_d0, d1) = match read_int(data, c1, ce) {
        Some(x) => x,
        None => return false,
    };
    let (_e0, e1) = match read_expected(data, d1, ce, TAG_TIMETICKS) {
        Some(x) => x,
        None => return false,
    };
    let (_f0, f1) = match read_expected(data, e1, ce, TAG_SEQUENCE) {
        Some(x) => x,
        None => return false,
    };
    f1 == ce
}

/// An SNMPv1 message read from `s`.
pub open spec fn parse_v1(s: Seq<u8>) -> Option<V1View> {
    match parse_community_pdu(s) {
        Some((comm, t, pc)) => if is_v1_pdu_tag(t) && is_v1_pdu_body(t, pc) {
            Some(V1View { community: comm, pdu_tag: t, pdu: pc })
        } else {
            None
        },
        None => None,
    }
}

/// Community and PDU of an SNMPv2c message read from `s`.
pub open spec fn parse_v2c(s: Seq<u8>) -> Option<(Seq<u8>, PduView)> {
    match parse_community_pdu(s) {
        Some((comm, t, pc)) => if is_v2_pdu_tag(t) {
            match parse_pdu_body(t, pc) {
                Some(p) => Some((comm, p)),
                None => None,
            }
        } else {
            None
        },
        None => None,
    }
}

/// Encoding of a PDU.
pub open spec fn pdu_bytes(p: PduView) -> Seq<u8> {
    tlv(
        p.tag,
        tlv(TAG_INTEGER, p.request_id) + tlv(TAG_INTEGER, p.error_status) + tlv(
            TAG_INTEGER,
            p.error_index,
        ) + tlv(TAG_SEQUENCE, p.variable_bindings),
    )
}

/// Whether every field of `p` is short enough to be framed.
pub open spec fn pdu_fits(p: PduView) -> bool {
    p.request_id.len() <= MAX_FIELD && p.error_status.len() <= MAX_FIELD && p.error_index.len()
        <= MAX_FIELD && p.variable_bindings.len() <= MAX_FIELD
}

/// Encoding of an SNMPv2c message.
pub open spec fn v2c_bytes(community: Seq<u8>, p: PduView) -> Seq<u8> {
    tlv(
        TAG_SEQUENCE,
        tlv(TAG_INTEGER, seq![1u8]) + tlv(TAG_OCTET_STRING, community) + pdu_bytes(p),
    )
}

/// The Response that acknowledges `p`: same request-id and variable
/// bindings, error-status and error-index zero.
pub open spec fn response_pdu(p: PduView) -> PduView {
    PduView {
        tag: TAG_RESPONSE,
        request_id: p.request_id,
        error_status: seq![0u8],
        error_index: seq![0u8],
        variable_bindings: p.variable_bindings,
    }
}

/// The encoded acknowledgement of an InformRequest, when its fields can be framed.
pub open spec fn response_bytes(community: Seq<u8>, p: PduView) -> Option<Seq<u8>> {
    if community.len() <= MAX_FIELD && pdu_fits(response_pdu(p)) {
        Some(v2c_bytes(community, response_pdu(p)))
    } else {
        None
    }
}

fn read_pdu_body(data: &[u8], tag: u8, cs: usize, ce: usize) -> (r: Option<Pdu>)
    requires
        cs <= ce <= data@.len(),
    ensures
        match parse_pdu_body(tag, data@.subrange(cs as int, ce as int)) {
            Some(v) => r matches Some(p) && p@ == v,
            None => r is None,
        },
{
    let (a0, a1) = match read_int(data, cs, ce) {
        Some(x) => x,
        None => return None,
    };
    let (b0, b1) = match read_int(data, a1, ce) {
        Some(x) => x,
        None => return None,
    };
    let (c0, c1) = match read_int(data, b1, ce) {
        Some(x) => x,
        None => return None,
    };
    let (d0, d1) = match read_expected(data, c1, ce, TAG_SEQUENCE) {
        Some(x) => x,
        None => return None,
    };
    if d1 != ce {
        return None;
    }
    Some(
        Pdu {
            tag,
            request_id: copy_range(data, a0, a1),
            error_status: copy_range(data, b0, b1),
            error_index: copy_range(data, c0, c1),
            variable_bindings: copy_range(data, d0, d1),
        },
    )
}

/// Reads the version INTEGER; returns its content bounds and the bounds of
/// what follows it inside the outer SEQUENCE.
fn read_version(data: &[u8]) -> (r: Option<(usize, usize, usize, usize)>)
    ensures
        match after_version(data@) {
            Some((v, rest)) => r matches Some((vs, ve, rs, re)) && vs <= ve <= data@.len() && rs
                <= re <= data@.len() && v == data@.subrange(vs as int, ve as int) && rest
                == data@.subrange(rs as int, re as int),
            None => r is None,
        },
{
    assert(data@.subrange(0, data@.len() as int) =~= data@);
    let (bs, be) = match read_expected(data, 0, data.len(), TAG_SEQUENCE) {
        Some(x) => x,
        None => return None,
    };
    let (vs, ve) = match read_int(data, bs, be) {
        Some(x) => x,
        None => return None,
    };
    Some((vs, ve, ve, be))
}

fn read_community_pdu(data: &[u8]) -> (r: Option<(Vec<u8>, u8, usize, usize)>)
    ensures
        match parse_community_pdu(data@) {
            Some((comm, t, pc)) => r matches Some((c, tag, ps, pe)) && c@ == comm && tag == t && ps
                <= pe <= data@.len() && pc == data@.subrange(ps as int, pe as int),
            None => r is None,
        },
{
    let (_vs, _ve, rs, re) = match read_version(data) {
        Some(x) => x,
        None => return None,
    };
    let (cs, ce) = match read_expected(data, rs, re, TAG_OCTET_STRING) {
        Some(x) => x,
        None => return None,
    };
    let (t, ps, pe) = match read_tlv(data, ce, re) {
        Some(x) => x,
        None => return None,
    };
    if pe != re {
        return None;
    }
    Some((copy_range(data, cs, ce), t, ps, pe))
}

/// Decodes an SNMPv1 message.
pub fn read_v1(data: &[u8]) -> (r: Option<V1Message>)
    ensures
        match parse_v1(data@) {
            Some(v) => r matches Some(m) && m@ == v,
            None => r is None,
        },
{
    let (community, t, ps, pe) = match read_community_pdu(data) {
        Some(x) => x,
        None => return None,
    };
    if t < TAG_GET_REQUEST || t > TAG_TRAP_V1 {
        return None;
    }
    let well_formed = if t == TAG_TRAP_V1 {
        check_v1_trap_body(data, ps, pe)
    } else {
        read_pdu_body(data, t, ps, pe).is_some()
    };
    if !well_formed {
        return None;
    }
    Some(V1Message { community, pdu_tag: t, pdu: copy_range(data, ps, pe) })
}

/// Decodes the community and PDU of an SNMPv2c message.
pub fn read_v2c(data: &[u8]) -> (r: Option<(Vec<u8>, Pdu)>)
    ensures
        match parse_v2c(data@) {
            Some((comm, p)) => r matches Some((c, q)) && c@ == comm && q@ == p,
            None => r is None,
        },
{
    let (community, t, ps, pe) = match read_community_pdu(data) {
        Some(x) => x,
        None => return None,
    };
    if t < TAG_GET_REQUEST || t > TAG_REPORT || t == TAG_TRAP_V1 {
        return None;
    }
    match read_pdu_body(data, t, ps, pe) {
        Some(p) => Some((community, p)),
        None => None,
    }
}

/// Appends the encoding of `p`.
pub fn push_pdu(out: &mut Vec<u8>, p: &Pdu)
    requires
        pdu_fits(p@),
    ensures
        final(out)@ == old(out)@ + pdu_bytes(p@),
{
    let mut body: Vec<u8> = Vec::new();
    push_tlv(&mut body, TAG_INTEGER, p.request_id.as_slice());
    push_tlv(&mut body, TAG_INTEGER, p.error_status.as_slice());
    push_tlv(&mut body, TAG_INTEGER, p.error_index.as_slice());
    push_tlv(&mut body, TAG_SEQUENCE, p.variable_bindings.as_slice());
    proof {
        lemma_tlv_len(TAG_INTEGER, p.request_id@);
        lemma_tlv_len(TAG_INTEGER, p.error_status@);
        lemma_tlv_len(TAG_INTEGER, p.error_index@);
        lemma_tlv_len(TAG_SEQUENCE, p.variable_bindings@);
    }
    assert(body@ =~= tlv(TAG_INTEGER, p.request_id@) + tlv(TAG_INTEGER, p.error_status@) + tlv(
        TAG_INTEGER,
        p.error_index@,
    ) + tlv(TAG_SEQUENCE, p.variable_bindings@));
    push_tlv(out, p.tag, body.as_slice());
}

/// Encodes an SNMPv2c message with community `community` and PDU `p`.
pub fn encode_v2c(community: &[u8], p: &Pdu) -> (r: Option<Vec<u8>>)
    ensures
        bytes_view(r) == (if community@.len() <= MAX_FIELD && pdu_fits(p@) {
            Some(v2c_bytes(community@, p@))
        } else {
            None
        }),
{
    if community.len() > MAX_FIELD || p.request_id.len() > MAX_FIELD || p.error_status.len()
        > MAX_FIELD || p.error_index.len() > MAX_FIELD || p.variable_bindings.len() > MAX_FIELD {
        return None;
    }
    let mut body: Vec<u8> = Vec::new();
    let version: Vec<u8> = vec![1u8];
    push_tlv(&mut body, TAG_INTEGER, version.as_slice());
    push_tlv(&mut body, TAG_OCTET_STRING, community);
    push_pdu(&mut body, p);
    proof {
        lemma_tlv_len(TAG_INTEGER, version@);
        lemma_tlv_len(TAG_OCTET_STRING, community@);
        let pb = tlv(TAG_INTEGER, p@.request_id) + tlv(TAG_INTEGER, p@.error_status) + tlv(
            TAG_INTEGER,
            p@.error_index,
        ) + tlv(TAG_SEQUENCE, p@.variable_bindings);
        lemma_tlv_len(TAG_INTEGER, p@.request_id);
        lemma_tlv_len(TAG_INTEGER, p@.error_status);
        lemma_tlv_len(TAG_INTEGER, p@.error_index);
        lemma_tlv_len(TAG_SEQUENCE, p@.variable_bindings);
        lemma_tlv_len(p.tag, pb);
        assert(version@ =~= seq![1u8]);
    }
    assert(body@ =~= tlv(TAG_INTEGER, seq![1u8]) + tlv(TAG_OCTET_STRING, community@) + pdu_bytes(
        p@,
    ));
    let mut out: Vec<u8> = Vec::new();
    push_tlv(&mut out, TAG_SEQUENCE, body.as_slice());
    assert(out@ =~= v2c_bytes(community@, p@));
    Some(out)
}

/// Encodes the Response that acknowledges the InformRequest `p` received
/// with community `community`.
pub fn inform_response(community: &[u8], p: &Pdu) -> (r: Option<Vec<u8>>)
    ensures
        bytes_view(r) == response_bytes(community@, p@),
{
    let resp = Pdu {
        tag: TAG_RESPONSE,
        request_id: copy_range(p.request_id.as_slice(), 0, p.request_id.len()),
        error_status: vec![0u8],
        error_index: vec![0u8],
        variable_bindings: copy_range(
            p.variable_bindings.as_slice(),
            0,
            p.variable_bindings.len(),
        ),
    };
    assert(p.request_id@.subrange(0, p.request_id@.len() as int) =~= p.request_id@);
    assert(p.variable_bindings@.subrange(0, p.variable_bindings@.len() as int)
        =~= p.variable_bindings@);
    assert(resp.error_status@ =~= seq![0u8]);
    assert(resp.error_index@ =~= seq![0u8]);
    assert(resp@ == response_pdu(p@));
    encode_v2c(community, &resp)
}


/// msgGlobalData of an SNMPv3 message; integers as INTEGER content octets.
pub struct HeaderData {
    pub msg_id: Vec<u8>,
    pub max_size: Vec<u8>,
    pub flags: Vec<u8>,
    pub security_model: Vec<u8>,
}

pub struct HeaderView {
    pub msg_id: Seq<u8>,
    pub max_size: Seq<u8>,
    pub flags: Seq<u8>,
    pub security_model: Seq<u8>,
}

impl View for HeaderData {
    type V = HeaderView;

    open spec fn view(&self) -> HeaderView {
        HeaderView {
            msg_id: self.msg_id@,
            max_size: self.max_size@,
            flags: self.flags@,
            security_model: self.security_model@,
        }
    }
}

/// UsmSecurityParameters (RFC 3414); boots and time as INTEGER content octets.
pub struct UsmSecurityParameters {
    pub authoritative_engine_id: Vec<u8>,
    pub authoritative_engine_boots: Vec<u8>,
    pub authoritative_engine_time: Vec<u8>,
    pub user_name: Vec<u8>,
    pub authentication_parameters: Vec<u8>,
    pub privacy_parameters: Vec<u8>,
}

pub struct UsmView {
    pub engine_id: Seq<u8>,
    pub engine_boots: Seq<u8>,
    pub engine_time: Seq<u8>,
    pub user_name: Seq<u8>,
    pub auth_params: Seq<u8>,
    pub priv_params: Seq<u8>,
}

impl View for UsmSecurityParameters {
    type V = UsmView;

    open spec fn view(&self) -> UsmView {
        UsmView {
            engine_id: self.authoritative_engine_id@,
            engine_boots: self.authoritative_engine_boots@,
            engine_time: self.authoritative_engine_time@,
            user_name: self.user_name@,
            auth_params: self.authentication_parameters@,
            priv_params: self.privacy_parameters@,
        }
    }
}

/// The security parameters of an SNMPv3 message, by security model.
pub enum SecurityParameters {
    USM(UsmSecurityParameters),
}

/// A ScopedPDU: context engine ID, context name and the PDU.
pub struct ScopedPdu {
    pub context_engine_id: Vec<u8>,
    pub context_name: Vec<u8>,
    pub data: Pdu,
}

pub struct ScopedPduView {
    pub context_engine_id: Seq<u8>,
    pub context_name: Seq<u8>,
    pub data: PduView,
}

impl View for ScopedPdu {
    type V = ScopedPduView;

    open spec fn view(&self) -> ScopedPduView {
        ScopedPduView {
            context_engine_id: self.context_engine_id@,
            context_name: self.context_name@,
            data: self.data@,
        }
    }
}

/// msgData: a plaintext ScopedPDU or the octets of an encrypted one.
pub enum ScopedPduData {
    CleartextPdu(ScopedPdu),
    EncryptedPdu(Vec<u8>),
}

pub enum ScopedDataView {
    Cleartext(ScopedPduView),
    Encrypted(Seq<u8>),
}

impl View for ScopedPduData {
    type V = ScopedDataView;

    open spec fn view(&self) -> ScopedDataView {
        match self {
            ScopedPduData::CleartextPdu(p) => ScopedDataView::Cleartext(p@),
            ScopedPduData::EncryptedPdu(c) => ScopedDataView::Encrypted(c@),
        }
    }
}

/// An SNMPv3 message with its USM security parameters decoded.
pub struct V3Message {
    pub global_data: HeaderData,
    pub security_parameters: SecurityParameters,
    pub scoped_data: ScopedPduData,
    pub response: Option<Vec<u8>>,
}

pub struct V3View {
    pub global_data: HeaderView,
    pub usm: UsmView,
    pub scoped_data: ScopedDataView,
    pub response: Option<Seq<u8>>,
}

impl View for V3Message {
    type V = V3View;

    open spec fn view(&self) -> V3View {
        V3View {
            global_data: self.global_data@,
            usm: match self.security_parameters {
                SecurityParameters::USM(u) => u@,
            },
            scoped_data: self.scoped_data@,
            response: bytes_view(self.response),
        }
    }
}

/// A decoded message of any version.
pub enum Message {
    V1(V1Message),
    V2C(V2Message),
    V3(V3Message),
}

pub enum MessageView {
    V1(V1View),
    V2C(V2View),
    V3(V3View),
}

impl View for Message {
    type V = MessageView;

    open spec fn view(&self) -> MessageView {
        match self {
            Message::V1(m) => MessageView::V1(m@),
            Message::V2C(m) => MessageView::V2C(m@),
            Message::V3(m) => MessageView::V3(m@),
        }
    }
}

pub open spec fn parse_header_data(c: Seq<u8>) -> Option<HeaderView> {
    match expect_int(c) {
        None => None,
        Some((id, r1)) => match expect_int(r1) {
            None => None,
            Some((ms, r2)) => match expect(r2, TAG_OCTET_STRING) {
                None => None,
                Some((fl, r3)) => match expect_int(r3) {
                    None => None,
                    Some((sm, r4)) => if r4.len() == 0 {
                        Some(HeaderView { msg_id: id, max_size: ms, flags: fl, security_model: sm })
                    } else {
                        None
                    },
                },
            },
        },
    }
}

/// USM security parameters read from the msgSecurityParameters octets.
pub open spec fn parse_usm(s: Seq<u8>) -> Option<UsmView> {
    match expect(s, TAG_SEQUENCE) {
        None => None,
        Some((b, _trailing)) => match expect(b, TAG_OCTET_STRING) {
            None => None,
            Some((eid, r1)) => match expect_int(r1) {
                None => None,
                Some((bo, r2)) => match expect_int(r2) {
                    None => None,
                    Some((ti, r3)) => match expect(r3, TAG_OCTET_STRING) {
                        None => None,
                        Some((un, r4)) => match expect(r4, TAG_OCTET_STRING) {
                            None => None,
                            Some((ap, r5)) => match expect(r5, TAG_OCTET_STRING) {
                                None => None,
                                Some((pp, r6)) => if r6.len() == 0 {
                                    Some(
                                        UsmView {
                                            engine_id: eid,
                                            engine_boots: bo,
                                            engine_time: ti,
                                            user_name: un,
                                            auth_params: ap,
                                            priv_params: pp,
                                        },
                                    )
                                } else {
                                    None
                                },
                            },
                        },
                    },
                },
            },
        },
    }
}

pub open spec fn parse_scoped_body(c: Seq<u8>) -> Option<ScopedPduView> {
    match expect(c, TAG_OCTET_STRING) {
        None => None,
        Some((ce, r1)) => match expect(r1, TAG_OCTET_STRING) {
            None => None,
            Some((cn, r2)) => match split_tlv(r2) {
                None => None,
                Some((t, pc, r3)) => if r3.len() == 0 && is_v2_pdu_tag(t) {
                    match parse_pdu_body(t, pc) {
                        Some(p) => Some(
                            ScopedPduView { context_engine_id: ce, context_name: cn, data: p },
                        ),
                        None => None,
                    }
                } else {
                    None
                },
            },
        },
    }
}

/// A ScopedPDU read from the start of `s`; octets after it (cipher
/// padding) are ignored.
pub open spec fn parse_scoped_pdu(s: Seq<u8>) -> Option<ScopedPduView> {
    match expect(s, TAG_SEQUENCE) {
        Some((c, _padding)) => parse_scoped_body(c),
        None => None,
    }
}

/// Header, security-parameter octets and msgData of an SNMPv3 message.
pub open spec fn parse_v3_envelope(s: Seq<u8>) -> Option<(HeaderView, Seq<u8>, ScopedDataView)> {
    match after_version(s) {
        None => None,
        Some((_v, r1)) => match expect(r1, TAG_SEQUENCE) {
            None => None,
            Some((gd, r2)) => match parse_header_data(gd) {
                None => None,
                Some(h) => match expect(r2, TAG_OCTET_STRING) {
                    None => None,
                    Some((sp, r3)) => match split_tlv(r3) {
                        None => None,
                        Some((t, c, r4)) => if r4.len() != 0 {
                            None
                        } else if t == TAG_OCTET_STRING {
                            Some((h, sp, ScopedDataView::Encrypted(c)))
                        } else if t == TAG_SEQUENCE {
                            match parse_scoped_body(c) {
                                Some(p) => Some((h, sp, ScopedDataView::Cleartext(p))),
                                None => None,
                            }
                        } else {
                            None
                        },
                    },
                },
            },
        },
    }
}

/// An SNMPv3 message read from `s`.
pub open spec fn parse_v3(s: Seq<u8>) -> Result<V3View, Error> {
    match parse_v3_envelope(s) {
        None => Err(Error::ASNDecodeError),
        Some((h, sp, sd)) => match parse_usm(sp) {
            None => Err(Error::USMParamDecodeError),
            Some(u) => Ok(V3View { global_data: h, usm: u, scoped_data: sd, response: None }),
        },
    }
}

/// What `decode_message` gives for `s`.
#[verifier::opaque]
pub open spec fn decoded(s: Seq<u8>) -> Result<MessageView, Error> {
    match after_version(s) {
        None => Err(Error::ASNDecodeError),
        Some((v, _rest)) => if uint_value(v) == Some(0nat) {
            match parse_v1(s) {
                Some(m) => Ok(MessageView::V1(m)),
                None => Err(Error::ASNDecodeError),
            }
        } else if uint_value(v) == Some(1nat) {
            match parse_v2c(s) {
                None => Err(Error::ASNDecodeError),
                Some((c, p)) => if p.tag == TAG_INFORM_REQUEST {
                    match response_bytes(c, p) {
                        Some(r) => Ok(
                            MessageView::V2C(V2View { community: c, pdu: p, response: Some(r) }),
                        ),
                        None => Err(Error::ASNEncodeError),
                    }
                } else {
                    Ok(MessageView::V2C(V2View { community: c, pdu: p, response: None }))
                },
            }
        } else if uint_value(v) == Some(3nat) {
            match parse_v3(s) {
                Ok(m) => Ok(MessageView::V3(m)),
                Err(e) => Err(e),
            }
        } else {
            Err(Error::UnknownSNMPVersion)
        },
    }
}

pub open spec fn message_result_view(r: Result<Message, Error>) -> Result<MessageView, Error> {
    match r {
        Ok(m) => Ok(m@),
        Err(e) => Err(e),
    }
}

fn read_header_data(data: &[u8], cs: usize, ce: usize) -> (r: Option<HeaderData>)
    requires
        cs <= ce <= data@.len(),
    ensures
        match parse_header_data(data@.subrange(cs as int, ce as int)) {
            Some(v) => r matches Some(h) && h@ == v,
            None => r is None,
        },
{
    let (a0, a1) = match read_int(data, cs, ce) {
        Some(x) => x,
        None => return None,
    };
    let (b0, b1) = match read_int(data, a1, ce) {
        Some(x) => x,
        None => return None,
    };
    let (c0, c1) = match read_expected(data, b1, ce, TAG_OCTET_STRING) {
        Some(x) => x,
        None => return None,
    };
    let (d0, d1) = match read_int(data, c1, ce) {
        Some(x) => x,
        None => return None,
    };
    if d1 != ce {
        return None;
    }
    Some(
        HeaderData {
            msg_id: copy_range(data, a0, a1),
            max_size: copy_range(data, b0, b1),
            flags: copy_range(data, c0, c1),
            security_model: copy_range(data, d0, d1),
        },
    )
}

/// Decodes USM security parameters from the msgSecurityParameters octets.
pub fn read_usm(data: &[u8]) -> (r: Option<UsmSecurityParameters>)
    ensures
        match parse_usm(data@) {
            Some(v) => r matches Some(u) && u@ == v,
            None => r is None,
        },
{
    assert(data@.subrange(0, data@.len() as int) =~= data@);
    let (bs, be) = match read_expected(data, 0, data.len(), TAG_SEQUENCE) {
        Some(x) => x,
        None => return None,
    };
    let (a0, a1) = match read_expected(data, bs, be, TAG_OCTET_STRING) {
        Some(x) => x,
        None => return None,
    };
    let (b0, b1) = match read_int(data, a1, be) {
        Some(x) => x,
        None => return None,
    };
    let (c0, c1) = match read_int(data, b1, be) {
        Some(x) => x,
        None => return None,
    };
    let (d0, d1) = match read_expected(data, c1, be, TAG_OCTET_STRING) {
        Some(x) => x,
        None => return None,
    };
    let (e0, e1) = match read_expected(data, d1, be, TAG_OCTET_STRING) {
        Some(x) => x,
        None => return None,
    };
    let (f0, f1) = match read_expected(data, e1, be, TAG_OCTET_STRING) {
        Some(x) => x,
        None => return None,
    };
    if f1 != be {
        return None;
    }
    Some(
        UsmSecurityParameters {
            authoritative_engine_id: copy_range(data, a0, a1),
            authoritative_engine_boots: copy_range(data, b0, b1),
            authoritative_engine_time: copy_range(data, c0, c1),
            user_name: copy_range(data, d0, d1),
            authentication_parameters: copy_range(data, e0, e1),
            privacy_parameters: copy_range(data, f0, f1),
        },
    )
}

fn read_scoped_body(data: &[u8], cs: usize, ce: usize) -> (r: Option<ScopedPdu>)
    requires
        cs <= ce <= data@.len(),
    ensures
        match parse_scoped_body(data@.subrange(cs as int, ce as int)) {
            Some(v) => r matches Some(p) && p@ == v,
            None => r is None,
        },
{
    let (a0, a1) = match read_expected(data, cs, ce, TAG_OCTET_STRING) {
        Some(x) => x,
        None => return None,
    };
    let (b0, b1) = match read_expected(data, a1, ce, TAG_OCTET_STRING) {
        Some(x) => x,
        None => return None,
    };
    let (t, ps, pe) = match read_tlv(data, b1, ce) {
        Some(x) => x,
        None => return None,
    };
    if pe != ce || t < TAG_GET_REQUEST || t > TAG_REPORT || t == TAG_TRAP_V1 {
        return None;
    }
    match read_pdu_body(data, t, ps, pe) {
        Some(p) => Some(
            ScopedPdu {
                context_engine_id: copy_range(data, a0, a1),
                context_name: copy_range(data, b0, b1),
                data: p,
            },
        ),
        None => None,
    }
}

/// Decodes a ScopedPDU from the start of `data`, ignoring what follows it.
pub fn read_scoped_pdu(data: &[u8]) -> (r: Option<ScopedPdu>)
    ensures
        match parse_scoped_pdu(data@) {
            Some(v) => r matches Some(p) && p@ == v,
            None => r is None,
        },
{
    assert(data@.subrange(0, data@.len() as int) =~= data@);
    match read_expected(data, 0, data.len(), TAG_SEQUENCE) {
        Some((cs, ce)) => read_scoped_body(data, cs, ce),
        None => None,
    }
}

fn decode_v3_message(data: &[u8]) -> (r: Result<Message, Error>)
    ensures
        message_result_view(r) == match parse_v3(data@) {
            Ok(m) => Ok(MessageView::V3(m)),
            Err(e) => Err(e),
        },
{
    let (_vs, _ve, rs, re) = match read_version(data) {
        Some(x) => x,
        None => return Err(Error::ASNDecodeError),
    };
    let (gs, ge) = match read_expected(data, rs, re, TAG_SEQUENCE) {
        Some(x) => x,
        None => return Err(Error::ASNDecodeError),
    };
    let header = match read_header_data(data, gs, ge) {
        Some(h) => h,
        None => return Err(Error::ASNDecodeError),
    };
    let (ss, se) = match read_expected(data, ge, re, TAG_OCTET_STRING) {
        Some(x) => x,
        None => return Err(Error::ASNDecodeError),
    };
    let (t, cs, ce) = match read_tlv(data, se, re) {
        Some(x) => x,
        None => return Err(Error::ASNDecodeError),
    };
    if ce != re {
        return Err(Error::ASNDecodeError);
    }
    let scoped = if t == TAG_OCTET_STRING {
        ScopedPduData::EncryptedPdu(copy_range(data, cs, ce))
    } else if t == TAG_SEQUENCE {
        match read_scoped_body(data, cs, ce) {
            Some(p) => ScopedPduData::CleartextPdu(p),
            None => return Err(Error::ASNDecodeError),
        }
    } else {
        return Err(Error::ASNDecodeError);
    };
    let sp = copy_range(data, ss, se);
    let usm = match read_usm(sp.as_slice()) {
        Some(u) => u,
        None => return Err(Error::USMParamDecodeError),
    };
    Ok(
        Message::V3(
            V3Message {
                global_data: header,
                security_parameters: SecurityParameters::USM(usm),
                scoped_data: scoped,
                response: None,
            },
        ),
    )
}

fn decode_v2_message(data: &[u8]) -> (r: Result<Message, Error>)
    ensures
        message_result_view(r) == match parse_v2c(data@) {
            None => Err(Error::ASNDecodeError),
            Some((c, p)) => if p.tag == TAG_INFORM_REQUEST {
                match response_bytes(c, p) {
                    Some(b) => Ok(MessageView::V2C(V2View { community: c, pdu: p, response: Some(b) })),
                    None => Err(Error::ASNEncodeError),
                }
            } else {
                Ok(MessageView::V2C(V2View { community: c, pdu: p, response: None }))
            },
        },
{
    let (community, pdu) = match read_v2c(data) {
        Some(x) => x,
        None => return Err(Error::ASNDecodeError),
    };
    let mut response: Option<Vec<u8>> = None;
    if pdu.tag == TAG_INFORM_REQUEST {
        match inform_response(community.as_slice(), &pdu) {
            Some(b) => {
                response = Some(b);
            },
            None => return Err(Error::ASNEncodeError),
        }
    }
    Ok(Message::V2C(V2Message { community, pdu, response }))
}

/// Decodes an SNMP message of version 1, 2c or 3, after reading its version
/// field; for an InformRequest the acknowledging Response is encoded too.
pub fn decode_message(data: &[u8]) -> (r: Result<Message, Error>)
    ensures
        message_result_view(r) == decoded(data@),
        r matches Ok(Message::V3(m)) ==> m.response is None,
{
    reveal(decoded);
    let (vs, ve, _rs, _re) = match read_version(data) {
        Some(x) => x,
        None => return Err(Error::ASNDecodeError),
    };
    match read_u32(data, vs, ve) {
        Some(0) => match read_v1(data) {
            Some(m) => Ok(Message::V1(m)),
            None => Err(Error::ASNDecodeError),
        },
        Some(1) => decode_v2_message(data),
        Some(3) => decode_v3_message(data),
        _ => Err(Error::UnknownSNMPVersion),
    }
}


/// Encoding of msgGlobalData.
pub open spec fn header_bytes(h: HeaderView) -> Seq<u8> {
    tlv(
        TAG_SEQUENCE,
        tlv(TAG_INTEGER, h.msg_id) + tlv(TAG_INTEGER, h.max_size) + tlv(TAG_OCTET_STRING, h.flags)
            + tlv(TAG_INTEGER, h.security_model),
    )
}

pub open spec fn header_fits(h: HeaderView) -> bool {
    h.msg_id.len() <= MAX_FIELD && h.max_size.len() <= MAX_FIELD && h.flags.len() <= MAX_FIELD
        && h.security_model.len() <= MAX_FIELD
}

/// Encoding of USM security parameters.
pub open spec fn usm_bytes(u: UsmView) -> Seq<u8> {
    tlv(
        TAG_SEQUENCE,
        tlv(TAG_OCTET_STRING, u.engine_id) + tlv(TAG_INTEGER, u.engine_boots) + tlv(
            TAG_INTEGER,
            u.engine_time,
        ) + tlv(TAG_OCTET_STRING, u.user_name) + tlv(TAG_OCTET_STRING, u.auth_params) + tlv(
            TAG_OCTET_STRING,
            u.priv_params,
        ),
    )
}

pub open spec fn usm_fits(u: UsmView) -> bool {
    u.engine_id.len() <= MAX_FIELD && u.engine_boots.len() <= MAX_FIELD && u.engine_time.len()
        <= MAX_FIELD && u.user_name.len() <= MAX_FIELD && u.auth_params.len() <= MAX_FIELD
        && u.priv_params.len() <= MAX_FIELD
}

/// Encoding of msgData.
pub open spec fn scoped_data_bytes(d: ScopedDataView) -> Seq<u8> {
    match d {
        ScopedDataView::Encrypted(c) => tlv(TAG_OCTET_STRING, c),
        ScopedDataView::Cleartext(p) => tlv(
            TAG_SEQUENCE,
            tlv(TAG_OCTET_STRING, p.context_engine_id) + tlv(TAG_OCTET_STRING, p.context_name)
                + pdu_bytes(p.data),
        ),
    }
}

pub open spec fn scoped_data_fits(d: ScopedDataView) -> bool {
    match d {
        ScopedDataView::Encrypted(c) => c.len() <= MAX_FIELD,
        ScopedDataView::Cleartext(p) => p.context_engine_id.len() <= MAX_FIELD
            && p.context_name.len() <= MAX_FIELD && pdu_fits(p.data),
    }
}

/// Encoding of an SNMPv3 message whose msgSecurityParameters octets are `sp`.
pub open spec fn v3_bytes(h: HeaderView, sp: Seq<u8>, d: ScopedDataView) -> Seq<u8> {
    tlv(
        TAG_SEQUENCE,
        tlv(TAG_INTEGER, seq![3u8]) + header_bytes(h) + tlv(TAG_OCTET_STRING, sp)
            + scoped_data_bytes(d),
    )
}

pub open spec fn v3_fits(h: HeaderView, sp: Seq<u8>, d: ScopedDataView) -> bool {
    header_fits(h) && sp.len() <= 8 * MAX_FIELD && scoped_data_fits(d)
}

/// Encodes USM security parameters.
pub fn encode_usm(u: &UsmSecurityParameters) -> (r: Option<Vec<u8>>)
    ensures
        bytes_view(r) == (if usm_fits(u@) {
            Some(usm_bytes(u@))
        } else {
            None
        }),
        r matches Some(b) ==> b@.len() <= 8 * MAX_FIELD,
{
    if u.authoritative_engine_id.len() > MAX_FIELD || u.authoritative_engine_boots.len() > MAX_FIELD
        || u.authoritative_engine_time.len() > MAX_FIELD || u.user_name.len() > MAX_FIELD
        || u.authentication_parameters.len() > MAX_FIELD || u.privacy_parameters.len() > MAX_FIELD {
        return None;
    }
    let mut body: Vec<u8> = Vec::new();
    push_tlv(&mut body, TAG_OCTET_STRING, u.authoritative_engine_id.as_slice());
    push_tlv(&mut body, TAG_INTEGER, u.authoritative_engine_boots.as_slice());
    push_tlv(&mut body, TAG_INTEGER, u.authoritative_engine_time.as_slice());
    push_tlv(&mut body, TAG_OCTET_STRING, u.user_name.as_slice());
    push_tlv(&mut body, TAG_OCTET_STRING, u.authentication_parameters.as_slice());
    push_tlv(&mut body, TAG_OCTET_STRING, u.privacy_parameters.as_slice());
    proof {
        lemma_tlv_len(TAG_OCTET_STRING, u@.engine_id);
        lemma_tlv_len(TAG_INTEGER, u@.engine_boots);
        lemma_tlv_len(TAG_INTEGER, u@.engine_time);
        lemma_tlv_len(TAG_OCTET_STRING, u@.user_name);
        lemma_tlv_len(TAG_OCTET_STRING, u@.auth_params);
        lemma_tlv_len(TAG_OCTET_STRING, u@.priv_params);
    }
    let mut out: Vec<u8> = Vec::new();
    push_tlv(&mut out, TAG_SEQUENCE, body.as_slice());
    proof {
        lemma_tlv_len(TAG_SEQUENCE, body@);
    }
    assert(out@ =~= usm_bytes(u@));
    Some(out)
}

fn push_header(out: &mut Vec<u8>, h: &HeaderData)
    requires
        header_fits(h@),
    ensures
        final(out)@ == old(out)@ + header_bytes(h@),
        header_bytes(h@).len() <= 4 * MAX_FIELD + 30,
{
    let mut body: Vec<u8> = Vec::new();
    push_tlv(&mut body, TAG_INTEGER, h.msg_id.as_slice());
    push_tlv(&mut body, TAG_INTEGER, h.max_size.as_slice());
    push_tlv(&mut body, TAG_OCTET_STRING, h.flags.as_slice());
    push_tlv(&mut body, TAG_INTEGER, h.security_model.as_slice());
    proof {
        lemma_tlv_len(TAG_INTEGER, h@.msg_id);
        lemma_tlv_len(TAG_INTEGER, h@.max_size);
        lemma_tlv_len(TAG_OCTET_STRING, h@.flags);
        lemma_tlv_len(TAG_INTEGER, h@.security_model);
        lemma_tlv_len(TAG_SEQUENCE, body@);
    }
    assert(body@ =~= tlv(TAG_INTEGER, h@.msg_id) + tlv(TAG_INTEGER, h@.max_size) + tlv(
        TAG_OCTET_STRING,
        h@.flags,
    ) + tlv(TAG_INTEGER, h@.security_model));
    push_tlv(out, TAG_SEQUENCE, body.as_slice());
}

fn push_scoped_data(out: &mut Vec<u8>, d: &ScopedPduData)
    requires
        scoped_data_fits(d@),
    ensures
        final(out)@ == old(out)@ + scoped_data_bytes(d@),
        scoped_data_bytes(d@).len() <= 6 * MAX_FIELD + 60,
{
    match d {
        ScopedPduData::EncryptedPdu(c) => {
            proof {
                lemma_tlv_len(TAG_OCTET_STRING, c@);
            }
            push_tlv(out, TAG_OCTET_STRING, c.as_slice());
        },
        ScopedPduData::CleartextPdu(p) => {
            let mut body: Vec<u8> = Vec::new();
            push_tlv(&mut body, TAG_OCTET_STRING, p.context_engine_id.as_slice());
            push_tlv(&mut body, TAG_OCTET_STRING, p.context_name.as_slice());
            push_pdu(&mut body, &p.data);
            proof {
                let q = p.data@;
                lemma_tlv_len(TAG_OCTET_STRING, p.context_engine_id@);
                lemma_tlv_len(TAG_OCTET_STRING, p.context_name@);
                lemma_tlv_len(TAG_INTEGER, q.request_id);
                lemma_tlv_len(TAG_INTEGER, q.error_status);
                lemma_tlv_len(TAG_INTEGER, q.error_index);
                lemma_tlv_len(TAG_SEQUENCE, q.variable_bindings);
                lemma_tlv_len(
                    q.tag,
                    tlv(TAG_INTEGER, q.request_id) + tlv(TAG_INTEGER, q.error_status) + tlv(
                        TAG_INTEGER,
                        q.error_index,
                    ) + tlv(TAG_SEQUENCE, q.variable_bindings),
                );
                lemma_tlv_len(TAG_SEQUENCE, body@);
            }
            assert(body@ =~= tlv(TAG_OCTET_STRING, p@.context_engine_id) + tlv(
                TAG_OCTET_STRING,
                p@.context_name,
            ) + pdu_bytes(p@.data));
            push_tlv(out, TAG_SEQUENCE, body.as_slice());
        },
    }
}

/// Encodes an SNMPv3 message with header `h`, msgSecurityParameters octets
/// `sp` and msgData `d`.
pub fn encode_v3(h: &HeaderData, sp: &[u8], d: &ScopedPduData) -> (r: Option<Vec<u8>>)
    ensures
        bytes_view(r) == (if v3_fits(h@, sp@, d@) {
            Some(v3_bytes(h@, sp@, d@))
        } else {
            None
        }),
{
    if h.msg_id.len() > MAX_FIELD || h.max_size.len() > MAX_FIELD || h.flags.len() > MAX_FIELD
        || h.security_model.len() > MAX_FIELD || sp.len() > 8 * MAX_FIELD {
        return None;
    }
    let fits = match d {
        ScopedPduData::EncryptedPdu(c) => c.len() <= MAX_FIELD,
        ScopedPduData::CleartextPdu(p) => p.context_engine_id.len() <= MAX_FIELD
            && p.context_name.len() <= MAX_FIELD && p.data.request_id.len() <= MAX_FIELD
            && p.data.error_status.len() <= MAX_FIELD && p.data.error_index.len() <= MAX_FIELD
            && p.data.variable_bindings.len() <= MAX_FIELD,
    };
    if !fits {
        return None;
    }
    let mut body: Vec<u8> = Vec::new();
    let version: Vec<u8> = vec![3u8];
    push_tlv(&mut body, TAG_INTEGER, version.as_slice());
    push_header(&mut body, h);
    push_tlv(&mut body, TAG_OCTET_STRING, sp);
    push_scoped_data(&mut body, d);
    proof {
        lemma_tlv_len(TAG_INTEGER, version@);
        lemma_tlv_len(TAG_OCTET_STRING, sp@);
        assert(version@ =~= seq![3u8]);
    }
    assert(body@ =~= tlv(TAG_INTEGER, seq![3u8]) + header_bytes(h@) + tlv(TAG_OCTET_STRING, sp@)
        + scoped_data_bytes(d@));
    let mut out: Vec<u8> = Vec::new();
    push_tlv(&mut out, TAG_SEQUENCE, body.as_slice());
    Some(out)
}


proof fn lemma_pdu_round_trip(p: PduView, rest: Seq<u8>)
    requires
        pdu_fits(p),
        is_v2_pdu_tag(p.tag),
        p.request_id.len() > 0,
        p.error_status.len() > 0,
        p.error_index.len() > 0,
    ensures
        split_tlv(pdu_bytes(p) + rest) == Some(
            (
                p.tag,
                tlv(TAG_INTEGER, p.request_id) + tlv(TAG_INTEGER, p.error_status) + tlv(
                    TAG_INTEGER,
                    p.error_index,
                ) + tlv(TAG_SEQUENCE, p.variable_bindings),
                rest,
            ),
        ),
        parse_pdu_body(
            p.tag,
            tlv(TAG_INTEGER, p.request_id) + tlv(TAG_INTEGER, p.error_status) + tlv(
                TAG_INTEGER,
                p.error_index,
            ) + tlv(TAG_SEQUENCE, p.variable_bindings),
        ) == Some(p),
{
    let t1 = tlv(TAG_INTEGER, p.request_id);
    let t2 = tlv(TAG_INTEGER, p.error_status);
    let t3 = tlv(TAG_INTEGER, p.error_index);
    let t4 = tlv(TAG_SEQUENCE, p.variable_bindings);
    let body = t1 + t2 + t3 + t4;
    lemma_tlv_len(TAG_INTEGER, p.request_id);
    lemma_tlv_len(TAG_INTEGER, p.error_status);
    lemma_tlv_len(TAG_INTEGER, p.error_index);
    lemma_tlv_len(TAG_SEQUENCE, p.variable_bindings);
    lemma_split_tlv(p.tag, body, rest);
    assert(body =~= t1 + (t2 + t3 + t4));
    lemma_split_tlv(TAG_INTEGER, p.request_id, t2 + t3 + t4);
    assert(t2 + t3 + t4 =~= t2 + (t3 + t4));
    lemma_split_tlv(TAG_INTEGER, p.error_status, t3 + t4);
    lemma_split_tlv(TAG_INTEGER, p.error_index, t4);
    assert(t4 =~= t4 + Seq::<u8>::empty());
    lemma_split_tlv(TAG_SEQUENCE, p.variable_bindings, Seq::<u8>::empty());
}

/// An SNMPv2c message encoding decodes back to its community and PDU.
pub proof fn lemma_v2c_round_trip(community: Seq<u8>, p: PduView)
    requires
        community.len() <= MAX_FIELD,
        pdu_fits(p),
        is_v2_pdu_tag(p.tag),
        p.request_id.len() > 0,
        p.error_status.len() > 0,
        p.error_index.len() > 0,
    ensures
        parse_v2c(v2c_bytes(community, p)) == Some((community, p)),
        after_version(v2c_bytes(community, p)) matches Some((v, _r)) && v == seq![1u8],
{
    let tv = tlv(TAG_INTEGER, seq![1u8]);
    let tc = tlv(TAG_OCTET_STRING, community);
    let tp = pdu_bytes(p);
    let body = tv + tc + tp;
    lemma_tlv_len(TAG_INTEGER, seq![1u8]);
    lemma_tlv_len(TAG_OCTET_STRING, community);
    lemma_pdu_round_trip(p, Seq::<u8>::empty());
    assert(tp =~= tp + Seq::<u8>::empty());
    let pb = tlv(TAG_INTEGER, p.request_id) + tlv(TAG_INTEGER, p.error_status) + tlv(
        TAG_INTEGER,
        p.error_index,
    ) + tlv(TAG_SEQUENCE, p.variable_bindings);
    lemma_tlv_len(TAG_INTEGER, p.request_id);
    lemma_tlv_len(TAG_INTEGER, p.error_status);
    lemma_tlv_len(TAG_INTEGER, p.error_index);
    lemma_tlv_len(TAG_SEQUENCE, p.variable_bindings);
    lemma_tlv_len(p.tag, pb);
    let s = v2c_bytes(community, p);
    lemma_split_tlv(TAG_SEQUENCE, body, Seq::<u8>::empty());
    assert(s + Seq::<u8>::empty() =~= s);
    assert(expect(s, TAG_SEQUENCE) == Some((body, Seq::<u8>::empty())));
    assert(body =~= tv + (tc + tp));
    lemma_split_tlv(TAG_INTEGER, seq![1u8], tc + tp);
    assert(expect_int(body) == Some((seq![1u8], tc + tp)));
    assert(after_version(s) == Some((seq![1u8], tc + tp)));
    lemma_split_tlv(TAG_OCTET_STRING, community, tp);
    assert(expect(tc + tp, TAG_OCTET_STRING) == Some((community, tp)));
    assert(split_tlv(tp) == Some((p.tag, pb, Seq::<u8>::empty())));
    assert(parse_community_pdu(s) == Some((community, p.tag, pb)));
}

/// Any InformRequest encoded with any community decodes with a response
/// attached; that response decodes as a Response with the same community,
/// request-id and variable bindings and error-status and error-index 0,
/// whatever they were in the request.
pub proof fn lemma_inform_encoding_acknowledged(community: Seq<u8>, p: PduView)
    requires
        community.len() <= MAX_FIELD,
        pdu_fits(p),
        p.tag == TAG_INFORM_REQUEST,
        p.request_id.len() > 0,
        p.error_status.len() > 0,
        p.error_index.len() > 0,
    ensures
        decoded(v2c_bytes(community, p)) == Ok::<MessageView, Error>(
            MessageView::V2C(
                V2View {
                    community,
                    pdu: p,
                    response: Some(v2c_bytes(community, response_pdu(p))),
                },
            ),
        ),
        decoded(v2c_bytes(community, response_pdu(p))) == Ok::<MessageView, Error>(
            MessageView::V2C(V2View { community, pdu: response_pdu(p), response: None }),
        ),
        uint_value(response_pdu(p).error_status) == Some(0nat),
        uint_value(response_pdu(p).error_index) == Some(0nat),
{
    reveal(decoded);
    lemma_v2c_round_trip(community, p);
    lemma_v2c_round_trip(community, response_pdu(p));
    lemma_be_value_small(seq![1u8]);
    lemma_be_value_small(seq![0u8]);
}

/// The response attached to a decoded InformRequest decodes as a v2c
/// message with the same community whose PDU is a Response with the same
/// request-id and variable bindings and with error-status and error-index 0.
pub proof fn lemma_inform_response(s: Seq<u8>)
    requires
        decoded(s) matches Ok(MessageView::V2C(m)) && m.pdu.tag == TAG_INFORM_REQUEST,
    ensures
        ({
            let m = decoded(s)->Ok_0->V2C_0;
            &&& m.response matches Some(r) && decoded(r) == Ok::<MessageView, Error>(
                MessageView::V2C(
                    V2View { community: m.community, pdu: response_pdu(m.pdu), response: None },
                ),
            )
            &&& response_pdu(m.pdu).tag == TAG_RESPONSE
            &&& response_pdu(m.pdu).request_id == m.pdu.request_id
            &&& uint_value(response_pdu(m.pdu).error_status) == Some(0nat)
            &&& uint_value(response_pdu(m.pdu).error_index) == Some(0nat)
            &&& response_pdu(m.pdu).variable_bindings == m.pdu.variable_bindings
        }),
{
    reveal(decoded);
    let m = decoded(s)->Ok_0->V2C_0;
    let (c, p) = parse_v2c(s).unwrap();
    let q = response_pdu(p);
    lemma_v2c_round_trip(c, q);
    lemma_be_value_small(seq![1u8]);
    lemma_be_value_small(seq![0u8]);
}

} // verus!
