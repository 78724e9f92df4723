use vstd::prelude::*;
use vstd::string::{StrSliceExecFns, StringExecFns};
use crate::balance::Amount;
use crate::id::{Address, Id};
use crate::strutil::{find_char, seq_contains, str_contains, str_starts_with};
use crate::token::{IbcToken, Token};
use crate::transaction::FaultKind;
use crate::transfer::{DenominatedAmount, MaspTxId, NATIVE_DENOM_PLACES};

verus! {

/// One hop of a token's provenance: the (port, channel) pair a chain stamped
/// onto the denomination when the token crossed it.
#[derive(Debug, Clone, PartialEq, Eq, Hash)]
pub struct TracePrefix {
    pub port: String,
    pub channel: String,
}

/// A denomination together with the ordered hops it has traversed, outermost
/// hop first; its canonical string is `port/channel/.../base`.
#[derive(Debug, Clone, PartialEq, Eq, Hash)]
pub struct PrefixedDenom {
    pub trace_path: Vec<TracePrefix>,
    pub base_denom: String,
}

/// The characters one hop contributes to the canonical denomination string.
pub open spec fn prefix_text(p: TracePrefix) -> Seq<char> {
    p.port@ + "/"@ + p.channel@ + "/"@
}

/// The characters a whole hop path contributes, in order.
pub open spec fn path_text(path: Seq<TracePrefix>) -> Seq<char>
    decreases path.len(),
{
    if path.len() == 0 {
        Seq::empty()
    } else {
        path_text(path.drop_last()) + prefix_text(path.last())
    }
}

/// The canonical string of a prefixed denomination.
pub open spec fn denom_text(d: PrefixedDenom) -> Seq<char> {
    path_text(d.trace_path@) + d.base_denom@
}

/// Whether the trace already starts with the hop `(port, channel)`.
pub open spec fn trace_starts_with(d: PrefixedDenom, port: Seq<char>, channel: Seq<char>) -> bool {
    &&& d.trace_path@.len() > 0
    &&& d.trace_path@[0].port@ == port
    &&& d.trace_path@[0].channel@ == channel
}

/// The canonical trace synthesized for local bookkeeping when the token is
/// not native to the local chain: the receiving hop prefixed onto the
/// original denomination.
pub open spec fn synthesized_trace_text(
    receiver_port: Seq<char>,
    receiver_channel: Seq<char>,
    d: PrefixedDenom,
) -> Seq<char> {
    receiver_port + "/"@ + receiver_channel + "/"@ + denom_text(d)
}

/// What the trace resolver returns: `None` means the token is native to the
/// local chain; `Some` carries the synthesized canonical trace.
pub open spec fn resolved_trace(
    d: PrefixedDenom,
    sender_port: Seq<char>,
    sender_channel: Seq<char>,
    receiver_port: Seq<char>,
    receiver_channel: Seq<char>,
) -> Option<Seq<char>> {
    if !trace_starts_with(d, sender_port, sender_channel) {
        // Native to the sending chain: wrap it with the receiving hop.
        Some(synthesized_trace_text(receiver_port, receiver_channel, d))
    } else if d.trace_path@.len() == 1 {
        // Stripping the sender's hop empties the trace: native to the local chain.
        None
    } else {
        // The token has passed through at least one other chain.
        Some(synthesized_trace_text(receiver_port, receiver_channel, d))
    }
}

/// Render the canonical string of a prefixed denomination.
pub fn denom_to_string(d: &PrefixedDenom) -> (r: String)
    ensures
        r@ == denom_text(*d),
{
    let mut s = String::new();
    let mut i: usize = 0;
    while i < d.trace_path.len()
        invariant
            i <= d.trace_path@.len(),
            s@ == path_text(d.trace_path@.take(i as int)),
        decreases d.trace_path@.len() - i,
    {
        s.append(d.trace_path[i].port.as_str());
        s.append("/");
        s.append(d.trace_path[i].channel.as_str());
        s.append("/");
        proof {
            let taken = d.trace_path@.take(i + 1int);
            assert(taken.drop_last() =~= d.trace_path@.take(i as int));
            assert(taken.last() == d.trace_path@[i as int]);
        }
        i += 1;
    }
    proof {
        assert(d.trace_path@.take(d.trace_path@.len() as int) =~= d.trace_path@);
    }
    s.append(d.base_denom.as_str());
    s
}

/// Synthesize the canonical local trace for a token that is not native to the
/// local chain.
fn synthesize_trace(receiver_port: &String, receiver_channel: &String, d: &PrefixedDenom) -> (r:
    String)
    ensures
        r@ == synthesized_trace_text(receiver_port@, receiver_channel@, *d),
{
    let mut s = String::new();
    s.append(receiver_port.as_str());
    s.append("/");
    s.append(receiver_channel.as_str());
    s.append("/");
    let dt = denom_to_string(d);
    s.append(dt.as_str());
    s
}

/// Resolve an inbound denomination trace against the sending and receiving
/// port-channel pairs: `None` means the token is the local chain's native
/// one; `Some` carries the canonical trace for local bookkeeping.
pub fn get_namada_ibc_trace(
    sender_denom: &PrefixedDenom,
    sender_port: &String,
    sender_channel: &String,
    receiver_port: &String,
    receiver_channel: &String,
) -> (r: Option<String>)
    ensures
        ({
            let resolved = resolved_trace(
                *sender_denom,
                sender_port@,
                sender_channel@,
                receiver_port@,
                receiver_channel@,
            );
            match r {
                Some(s) => resolved == Some(s@),
                None => resolved is None,
            }
        }),
{
    let starts = sender_denom.trace_path.len() > 0
        && sender_denom.trace_path[0].port == *sender_port
        && sender_denom.trace_path[0].channel == *sender_channel;
    if !starts {
        // Native to the sending chain.
        Some(synthesize_trace(receiver_port, receiver_channel, sender_denom))
    } else if sender_denom.trace_path.len() == 1 {
        // The sender's hop was the whole trace: native to the local chain.
        None
    } else {
        // Relayed through at least one further chain.
        Some(synthesize_trace(receiver_port, receiver_channel, sender_denom))
    }
}

/// Law: when the incoming trace does not carry the sender's `(port, channel)`
/// hop, the resolver synthesizes a trace, and that trace begins with the
/// receiver's port and channel.
pub proof fn lemma_synthesized_trace_starts_with_receiver(
    d: PrefixedDenom,
    sender_port: Seq<char>,
    sender_channel: Seq<char>,
    receiver_port: Seq<char>,
    receiver_channel: Seq<char>,
)
    requires
        !trace_starts_with(d, sender_port, sender_channel),
    ensures
        resolved_trace(d, sender_port, sender_channel, receiver_port, receiver_channel)
            matches Some(t) && t.take(
            receiver_port.len() + 1 + receiver_channel.len() + 1 as int,
        ) == receiver_port + "/"@ + receiver_channel + "/"@,
{
    reveal_strlit("/");
    let t = synthesized_trace_text(receiver_port, receiver_channel, d);
    assert(t.take(receiver_port.len() + 1 + receiver_channel.len() + 1 as int) =~= receiver_port + "/"@
        + receiver_channel + "/"@);
}

/// Law: a trace that the sender's hop strips down to empty always resolves to
/// the local native token (`None`), never to a synthetic trace.
pub proof fn lemma_stripped_empty_resolves_native(
    d: PrefixedDenom,
    sender_port: Seq<char>,
    sender_channel: Seq<char>,
    receiver_port: Seq<char>,
    receiver_channel: Seq<char>,
)
    requires
        trace_starts_with(d, sender_port, sender_channel),
        d.trace_path@.len() == 1,
    ensures
        resolved_trace(d, sender_port, sender_channel, receiver_port, receiver_channel) is None,
{
}

/// Split a canonical denomination string back into its hop path and base
/// denomination: leading `port/channel/` pairs whose channel segment begins
/// with the standard channel prefix are consumed as hops; the remainder,
/// which may itself contain `/`, is the base. Rendering the result yields
/// the input string again.
pub fn parse_prefixed_denom(s: &str) -> (r: PrefixedDenom)
    ensures
        denom_text(r) == s@,
{
    let n = s.unicode_len();
    let mut path: Vec<TracePrefix> = Vec::new();
    let mut pos: usize = 0;
    let mut done = false;
    while !done
        invariant
            pos <= n,
            n == s@.len(),
            path_text(path@) == s@.take(pos as int),
        decreases n - pos + (if done { 0int } else { 1int }),
    {
        let o1 = find_char(s, pos, '/');
        match o1 {
            None => {
                done = true;
            },
            Some(i1) => {
                let o2 = find_char(s, i1 + 1, '/');
                match o2 {
                    None => {
                        done = true;
                    },
                    Some(i2) => {
                        let chan = s.substring_char(i1 + 1, i2);
                        if !str_starts_with(chan, "channel-") {
                            done = true;
                        } else {
                            let port = s.substring_char(pos, i1);
                            let hop = TracePrefix {
                                port: port.to_owned(),
                                channel: chan.to_owned(),
                            };
                            let ghost prior = path@;
                            path.push(hop);
                            proof {
                                reveal_strlit("/");
                                assert(path@.drop_last() =~= prior);
                                assert(path_text(path@) == path_text(prior) + prefix_text(
                                    path@.last(),
                                ));
                                assert(path_text(path@) =~= s@.take(i2 + 1int));
                            }
                            pos = i2 + 1;
                        }
                    },
                }
            },
        }
    }
    let base = s.substring_char(pos, n);
    let r = PrefixedDenom { trace_path: path, base_denom: base.to_owned() };
    proof {
        assert(denom_text(r) =~= s@);
    }
    r
}

/// The denomination's canonical string contains the configured native
/// token's canonical address. Only an ordinary account address can name the
/// native token; an internal address never matches.
pub open spec fn is_native_denom(native: Address, d: PrefixedDenom) -> bool {
    native matches Address::Account(s) && seq_contains(denom_text(d), s@)
}

/// Derive the token identity and denominated amount for an inbound transfer,
/// from the resolver's outcome. A resolved trace identifies a relayed token:
/// its canonical local address, derived from the trace by the caller, must be
/// supplied in `relayed_token_address`. No resolved trace means the local
/// native token: the original denomination must then name the configured
/// native token, else the observation is a consistency violation.
pub fn get_token_and_amount(
    maybe_ibc_trace: Option<String>,
    amount: &Amount,
    native_token: &Address,
    original_denom: &PrefixedDenom,
    relayed_token_address: Option<Id>,
) -> (r: Result<(Address, Token, DenominatedAmount), FaultKind>)
    ensures
        maybe_ibc_trace matches Some(trace) ==> match relayed_token_address {
            Some(addr) => {
                &&& r matches Ok(t)
                &&& t.0 matches Address::Account(a) && a@ == addr.text()
                &&& t.1 == Token::Ibc(IbcToken { address: addr, trace: Id::IbcTrace(trace) })
                &&& t.2 == (DenominatedAmount { amount: *amount, denom: 0 })
            },
            None => r == Err::<(Address, Token, DenominatedAmount), FaultKind>(
                FaultKind::MissingTokenAddress,
            ),
        },
        maybe_ibc_trace is None ==> if is_native_denom(*native_token, *original_denom) {
            &&& r matches Ok(t)
            &&& t.0 == *native_token
            &&& (*native_token matches Address::Account(s) ==> t.1 == Token::Native(
                Id::Account(s),
            ))
            &&& t.2 == (DenominatedAmount { amount: *amount, denom: NATIVE_DENOM_PLACES })
        } else {
            r == Err::<(Address, Token, DenominatedAmount), FaultKind>(
                FaultKind::NativeTokenMismatch,
            )
        },
{
    match maybe_ibc_trace {
        Some(trace) => match relayed_token_address {
            Some(addr) => {
                let text = addr.as_text().clone();
                Ok(
                    (
                        Address::Account(text),
                        Token::Ibc(IbcToken { address: addr, trace: Id::IbcTrace(trace) }),
                        DenominatedAmount { amount: amount.duplicate(), denom: 0 },
                    ),
                )
            },
            None => Err(FaultKind::MissingTokenAddress),
        },
        None => {
            let denom_str = denom_to_string(original_denom);
            match native_token {
                Address::Account(s) => {
                    if str_contains(denom_str.as_str(), s.as_str()) {
                        Ok(
                            (
                                Address::Account(s.clone()),
                                Token::Native(Id::Account(s.clone())),
                                DenominatedAmount::native(amount.duplicate()),
                            ),
                        )
                    } else {
                        Err(FaultKind::NativeTokenMismatch)
                    }
                },
                _ => Err(FaultKind::NativeTokenMismatch),
            }
        },
    }
}

/// The decoded payload of an inbound fungible-token packet.
#[derive(Debug, Clone, PartialEq, Eq, Hash)]
pub struct FtPacketData {
    /// The denomination the sending chain stamped on the token.
    pub denom: PrefixedDenom,
    /// The raw transferred amount.
    pub amount: Amount,
    /// The sending party, as the packet spells it.
    pub sender: String,
    /// The receiving account, already validated as an address; `None` when
    /// the packet's receiver string is not a well-formed address.
    pub receiver: Option<Address>,
}

/// An inbound packet-receive message, as the crawler decodes it.
#[derive(Debug, Clone, PartialEq, Eq, Hash)]
pub struct RecvPacketMsg {
    /// The destination port: it selects the packet's payload schema.
    pub dest_port: String,
    /// The fungible-token payload decoded from the packet data; `None` when
    /// the bytes do not decode against that schema.
    pub payload: Option<FtPacketData>,
    /// The sending chain's port.
    pub source_port: String,
    /// The sending chain's channel.
    pub source_channel: String,
    /// The destination channel.
    pub dest_channel: String,
    /// Whether a privacy-pool payload is resolvable from the envelope.
    pub has_masp_payload: bool,
}

/// A cross-chain message envelope: a packet-receive message, or any other
/// envelope kind, which this core passes through unclassified.
#[derive(Debug, Clone, PartialEq, Eq, Hash)]
pub enum MsgEnvelope {
    RecvPacket(RecvPacketMsg),
    Other,
}

/// The shielded component a legacy transfer message may carry.
#[derive(Debug, Clone, PartialEq, Eq, Hash)]
pub struct LegacyShielded {
    pub shielded_section_hash: Option<MaspTxId>,
}

/// A transfer arriving via the legacy single-account message format.
#[derive(Debug, Clone, PartialEq, Eq, Hash)]
pub struct MsgTransfer {
    /// The denomination the packet carries.
    pub denom: PrefixedDenom,
    /// The raw transferred amount.
    pub amount: Amount,
    /// The sending account, already validated as an address; `None` when the
    /// message's sender string is not a well-formed address.
    pub sender: Option<Address>,
    /// The shielded component, when the message carries one.
    pub transfer: Option<LegacyShielded>,
}

/// A decoded cross-chain message, as handed in by the crawler.
#[derive(Debug, Clone, PartialEq, Eq, Hash)]
pub enum IbcMessage {
    /// A message envelope (packet receive or otherwise).
    Envelope(MsgEnvelope),
    /// A legacy single-account transfer message.
    Transfer(MsgTransfer),
    /// A non-fungible transfer: not supported, passed through unclassified.
    NftTransfer,
}

} // verus!
