use vstd::prelude::*;
use vstd::string::StringExecFns;
use crate::balance::Amount;
use crate::ibc::{
    denom_text, denom_to_string, get_namada_ibc_trace, get_token_and_amount, is_native_denom,
    resolved_trace, IbcMessage, MsgEnvelope, MsgTransfer,
};
use crate::strutil::str_contains;
use crate::id::{Address, Id};
use crate::token::{IbcToken, Token};
use crate::transaction::{ClassificationFault, FaultKind, TransactionKind};
use crate::transfer::{Account, DenominatedAmount, MaspTxId, Transfer, NATIVE_DENOM_PLACES};

verus! {

/// A balance whose value the enclosing block may have changed: the owning
/// address and the token whose amount must be re-read.
#[derive(Debug, Clone, PartialEq, Eq, Hash)]
pub struct BalanceChange {
    pub address: Id,
    pub token: Token,
}

impl BalanceChange {
    pub fn new(address: Id, token: Token) -> (r: Self)
        ensures
            r == (BalanceChange { address, token }),
    {
        Self { address, token }
    }
}

/// The identifying fields of a governance proposal.
#[derive(Debug, Clone, Default, PartialEq, Eq, Hash)]
pub struct GovernanceProposalShort {
    pub id: u64,
    pub voting_start_epoch: u64,
    pub voting_end_epoch: u64,
}

/// A delegation edge between a validator and a delegator.
#[derive(Debug, Clone, PartialEq, Eq, Hash)]
pub struct DelegationPair {
    pub validator_address: Id,
    pub delegator_address: Id,
}

/// Every account in `entries` is owned by the privacy pool. Vacuously true of
/// an empty side.
pub open spec fn all_masp(entries: Seq<(Account, DenominatedAmount)>) -> bool {
    forall|i: int| 0 <= i < entries.len() ==> entries[i].0.owner.spec_is_masp()
}

/// At least one account in `entries` is owned by the privacy pool.
pub open spec fn any_masp(entries: Seq<(Account, DenominatedAmount)>) -> bool {
    exists|i: int| 0 <= i < entries.len() && entries[i].0.owner.spec_is_masp()
}

/// The decision table for a local (non-relayed) transfer, rows in priority
/// order, preceded by the fully-shielded short-circuit.
pub open spec fn classify_transfer(t: Transfer) -> TransactionKind {
    let shielded = t.shielded_section_hash is Some;
    if shielded && t.sources@.len() == 0 && t.targets@.len() == 0 {
        TransactionKind::ShieldedTransfer(t)
    } else if all_masp(t.sources@) && all_masp(t.targets@) && shielded {
        TransactionKind::ShieldedTransfer(t)
    } else if all_masp(t.sources@) && !any_masp(t.targets@) && shielded {
        TransactionKind::UnshieldingTransfer(t)
    } else if !any_masp(t.sources@) && all_masp(t.targets@) && shielded {
        TransactionKind::ShieldingTransfer(t)
    } else if !any_masp(t.sources@) && !any_masp(t.targets@) && !shielded {
        TransactionKind::TransparentTransfer(t)
    } else {
        TransactionKind::MixedTransfer(t)
    }
}

/// Whether all, and whether any, of the accounts on one side of a transfer
/// are owned by the privacy pool.
fn masp_presence(entries: &Vec<(Account, DenominatedAmount)>) -> (r: (bool, bool))
    ensures
        r.0 == all_masp(entries@),
        r.1 == any_masp(entries@),
{
    let mut all = true;
    let mut any = false;
    let mut i: usize = 0;
    while i < entries.len()
        invariant
            i <= entries@.len(),
            all == (forall|j: int| 0 <= j < i ==> entries@[j].0.owner.spec_is_masp()),
            any == (exists|j: int| 0 <= j < i && entries@[j].0.owner.spec_is_masp()),
        decreases entries@.len() - i,
    {
        let m = entries[i].0.owner.is_masp();
        all = all && m;
        any = any || m;
        i += 1;
    }
    (all, any)
}

/// Classify a local (non-relayed) transfer by the decision table; total and
/// deterministic.
pub fn transfer_to_tx_kind(data: Transfer) -> (r: TransactionKind)
    ensures
        r == classify_transfer(data),
        // A shielded marker with no visible account movement is always a
        // shielded transfer.
        (data.shielded_section_hash is Some && data.sources@.len() == 0 && data.targets@.len()
            == 0) ==> r == TransactionKind::ShieldedTransfer(data),
        // When every account on both sides is the privacy pool's and the
        // marker is present, the transfer is shielded.
        (all_masp(data.sources@) && all_masp(data.targets@) && data.shielded_section_hash
            is Some) ==> r == TransactionKind::ShieldedTransfer(data),
        // With no privacy-pool account on either side and no marker, the
        // transfer is transparent.
        (!any_masp(data.sources@) && !any_masp(data.targets@) && data.shielded_section_hash
            is None) ==> r == TransactionKind::TransparentTransfer(data),
        // Classification is total: anything that matches no row of the table
        // is a mixed transfer.
        ({
            let shielded = data.shielded_section_hash is Some;
            &&& !(shielded && data.sources@.len() == 0 && data.targets@.len() == 0)
            &&& !(all_masp(data.sources@) && all_masp(data.targets@) && shielded)
            &&& !(all_masp(data.sources@) && !any_masp(data.targets@) && shielded)
            &&& !(!any_masp(data.sources@) && all_masp(data.targets@) && shielded)
            &&& !(!any_masp(data.sources@) && !any_masp(data.targets@) && !shielded)
        }) ==> r == TransactionKind::MixedTransfer(data),
{
    let has_shielded = data.shielded_section_hash.is_some();
    if has_shielded && data.sources.len() == 0 && data.targets.len() == 0 {
        // A fully shielded transaction reveals no account-level movement.
        return TransactionKind::ShieldedTransfer(data);
    }
    let (all_sources, any_sources) = masp_presence(&data.sources);
    let (all_targets, any_targets) = masp_presence(&data.targets);
    if all_sources && all_targets && has_shielded {
        TransactionKind::ShieldedTransfer(data)
    } else if all_sources && !any_targets && has_shielded {
        TransactionKind::UnshieldingTransfer(data)
    } else if !any_sources && all_targets && has_shielded {
        TransactionKind::ShieldingTransfer(data)
    } else if !any_sources && !any_targets && !has_shielded {
        TransactionKind::TransparentTransfer(data)
    } else {
        TransactionKind::MixedTransfer(data)
    }
}

/// The shielded component a legacy transfer message contributes to the
/// synthesized transfer.
pub open spec fn legacy_hash(mt: MsgTransfer) -> Option<MaspTxId> {
    match mt.transfer {
        Some(ls) => ls.shielded_section_hash,
        None => None,
    }
}

/// The one-source, one-target transfer synthesized for a relayed token:
/// `amount` of the token whose canonical address string is `token_text`
/// moves from `source_owner` to `target_owner`.
pub open spec fn synthesized_transfer(
    tr: Transfer,
    source_owner: Address,
    target_owner: Address,
    token_text: Seq<char>,
    amount: Amount,
    denom: u8,
    hash: Option<MaspTxId>,
) -> bool {
    &&& tr.sources@.len() == 1
    &&& tr.targets@.len() == 1
    &&& tr.sources@[0].0.owner == source_owner
    &&& tr.targets@[0].0.owner == target_owner
    &&& (tr.sources@[0].0.token matches Address::Account(a) && a@ == token_text)
    &&& (tr.targets@[0].0.token matches Address::Account(b) && b@ == token_text)
    &&& tr.sources@[0].1 == (DenominatedAmount { amount, denom })
    &&& tr.targets@[0].1 == (DenominatedAmount { amount, denom })
    &&& tr.shielded_section_hash == hash
}

/// The token identity recorded for a relayed token: the caller-derived
/// canonical address paired with the trace it was derived from.
pub open spec fn relayed_token_id(tok: Token, addr: Id, trace_text: Seq<char>) -> bool {
    tok matches Token::Ibc(it) && it.address == addr && (it.trace matches Id::IbcTrace(ts)
        && ts@ == trace_text)
}

/// The legacy-format path for a token that is not the local native one: its
/// trace is the denomination string itself.
fn legacy_relayed_kind(
    mt: MsgTransfer,
    denom_str: String,
    relayed_token_address: Option<Id>,
) -> (r: Result<TransactionKind, ClassificationFault>)
    requires
        denom_str@ == denom_text(mt.denom),
    ensures
        match relayed_token_address {
            None => r == Err::<TransactionKind, _>(
                ClassificationFault {
                    kind: FaultKind::MissingTokenAddress,
                    message: IbcMessage::Transfer(mt),
                },
            ),
            Some(addr) => match mt.sender {
                None => r == Err::<TransactionKind, _>(
                    ClassificationFault {
                        kind: FaultKind::MalformedAddress,
                        message: IbcMessage::Transfer(mt),
                    },
                ),
                Some(snd) => {
                    &&& r matches Ok(k)
                    &&& match k {
                        TransactionKind::RelayedUnshieldingTransfer((tk, tr)) => {
                            &&& mt.transfer is Some
                            &&& relayed_token_id(tk, addr, denom_text(mt.denom))
                            &&& synthesized_transfer(
                                tr,
                                snd,
                                Address::Ibc,
                                addr.text(),
                                mt.amount,
                                0,
                                legacy_hash(mt),
                            )
                        },
                        TransactionKind::RelayedTransparentTransfer((tk, tr)) => {
                            &&& mt.transfer is None
                            &&& relayed_token_id(tk, addr, denom_text(mt.denom))
                            &&& synthesized_transfer(
                                tr,
                                snd,
                                Address::Ibc,
                                addr.text(),
                                mt.amount,
                                0,
                                legacy_hash(mt),
                            )
                        },
                        _ => false,
                    }
                },
            },
        },
{
    let addr = match relayed_token_address {
        Some(addr) => addr,
        None => {
            return Err(
                ClassificationFault {
                    kind: FaultKind::MissingTokenAddress,
                    message: IbcMessage::Transfer(mt),
                },
            );
        },
    };
    let snd = match &mt.sender {
        Some(a) => a.duplicate(),
        None => {
            return Err(
                ClassificationFault {
                    kind: FaultKind::MalformedAddress,
                    message: IbcMessage::Transfer(mt),
                },
            );
        },
    };
    let token_addr = Address::Account(addr.as_text().clone());
    let token_id = Token::Ibc(IbcToken { address: addr, trace: Id::IbcTrace(denom_str) });
    let damt = DenominatedAmount { amount: mt.amount.duplicate(), denom: 0 };
    let damt2 = damt.duplicate();
    let token_addr2 = token_addr.duplicate();
    let has_transfer = mt.transfer.is_some();
    let hash = match mt.transfer {
        Some(ls) => ls.shielded_section_hash,
        None => None,
    };
    let transfer = Transfer {
        sources: vec![(Account { owner: snd, token: token_addr }, damt)],
        targets: vec![(Account { owner: Address::Ibc, token: token_addr2 }, damt2)],
        shielded_section_hash: hash,
    };
    if has_transfer {
        Ok(TransactionKind::RelayedUnshieldingTransfer((token_id, transfer)))
    } else {
        Ok(TransactionKind::RelayedTransparentTransfer((token_id, transfer)))
    }
}

/// Classify a decoded cross-chain message. Packet kinds outside the
/// fungible-token and multi-message envelope formats pass through
/// unclassified as `RelayedMsg`; malformed or unresolvable packets yield a
/// typed fault carrying the offending message. For a token that resolves to
/// a relayed one, the caller derives the canonical local address of its
/// trace and supplies it in `relayed_token_address`.
pub fn transfer_to_ibc_tx_kind(
    ibc_data: IbcMessage,
    native_token: Address,
    relayed_token_address: Option<Id>,
) -> (r: Result<TransactionKind, ClassificationFault>)
    ensures
        ibc_data matches IbcMessage::Envelope(MsgEnvelope::Other) ==> r == Ok::<
            _,
            ClassificationFault,
        >(TransactionKind::RelayedMsg(ibc_data)),
        ibc_data matches IbcMessage::NftTransfer ==> r == Ok::<_, ClassificationFault>(
            TransactionKind::RelayedMsg(ibc_data),
        ),
        ibc_data matches IbcMessage::Envelope(MsgEnvelope::RecvPacket(msg)) ==> (if msg.dest_port@
            != "transfer"@ {
            r == Ok::<_, ClassificationFault>(TransactionKind::RelayedMsg(ibc_data))
        } else {
            match msg.payload {
                None => r == Err::<TransactionKind, _>(
                    ClassificationFault { kind: FaultKind::UndecodablePacket, message: ibc_data },
                ),
                Some(pd) => match resolved_trace(
                    pd.denom,
                    msg.source_port@,
                    msg.source_channel@,
                    msg.dest_port@,
                    msg.dest_channel@,
                ) {
                    Some(trace_text) => match relayed_token_address {
                        None => r == Err::<TransactionKind, _>(
                            ClassificationFault {
                                kind: FaultKind::MissingTokenAddress,
                                message: ibc_data,
                            },
                        ),
                        Some(addr) => match pd.receiver {
                            None => r == Err::<TransactionKind, _>(
                                ClassificationFault {
                                    kind: FaultKind::MalformedAddress,
                                    message: ibc_data,
                                },
                            ),
                            Some(rcv) => {
                                &&& r matches Ok(k)
                                &&& match k {
                                    TransactionKind::RelayedShieldingTransfer((tk, tr)) => {
                                        &&& msg.has_masp_payload
                                        &&& relayed_token_id(tk, addr, trace_text)
                                        &&& synthesized_transfer(
                                            tr,
                                            Address::Ibc,
                                            rcv,
                                            addr.text(),
                                            pd.amount,
                                            0,
                                            None,
                                        )
                                    },
                                    TransactionKind::RelayedTransparentTransfer((tk, tr)) => {
                                        &&& !msg.has_masp_payload
                                        &&& relayed_token_id(tk, addr, trace_text)
                                        &&& synthesized_transfer(
                                            tr,
                                            Address::Ibc,
                                            rcv,
                                            addr.text(),
                                            pd.amount,
                                            0,
                                            None,
                                        )
                                    },
                                    _ => false,
                                }
                            },
                        },
                    },
                    None => if is_native_denom(native_token, pd.denom) {
                        match pd.receiver {
                            None => r == Err::<TransactionKind, _>(
                                ClassificationFault {
                                    kind: FaultKind::MalformedAddress,
                                    message: ibc_data,
                                },
                            ),
                            Some(rcv) => {
                                &&& r matches Ok(k)
                                &&& (native_token matches Address::Account(s) ==> match k {
                                    TransactionKind::RelayedShieldingTransfer((tk, tr)) => {
                                        &&& msg.has_masp_payload
                                        &&& tk == Token::Native(Id::Account(s))
                                        &&& synthesized_transfer(
                                            tr,
                                            Address::Ibc,
                                            rcv,
                                            s@,
                                            pd.amount,
                                            NATIVE_DENOM_PLACES,
                                            None,
                                        )
                                    },
                                    TransactionKind::RelayedTransparentTransfer((tk, tr)) => {
                                        &&& !msg.has_masp_payload
                                        &&& tk == Token::Native(Id::Account(s))
                                        &&& synthesized_transfer(
                                            tr,
                                            Address::Ibc,
                                            rcv,
                                            s@,
                                            pd.amount,
                                            NATIVE_DENOM_PLACES,
                                            None,
                                        )
                                    },
                                    _ => false,
                                })
                            },
                        }
                    } else {
                        r == Err::<TransactionKind, _>(
                            ClassificationFault {
                                kind: FaultKind::NativeTokenMismatch,
                                message: ibc_data,
                            },
                        )
                    },
                },
            }
        }),
        ibc_data matches IbcMessage::Transfer(mt) ==> (if is_native_denom(native_token, mt.denom) {
            match mt.sender {
                None => r == Err::<TransactionKind, _>(
                    ClassificationFault { kind: FaultKind::MalformedAddress, message: ibc_data },
                ),
                Some(snd) => {
                    &&& r matches Ok(k)
                    &&& (native_token matches Address::Account(s) ==> match k {
                        TransactionKind::RelayedUnshieldingTransfer((tk, tr)) => {
                            &&& mt.transfer is Some
                            &&& tk == Token::Native(Id::Account(s))
                            &&& synthesized_transfer(
                                tr,
                                snd,
                                Address::Ibc,
                                s@,
                                mt.amount,
                                NATIVE_DENOM_PLACES,
                                legacy_hash(mt),
                            )
                        },
                        TransactionKind::RelayedTransparentTransfer((tk, tr)) => {
                            &&& mt.transfer is None
                            &&& tk == Token::Native(Id::Account(s))
                            &&& synthesized_transfer(
                                tr,
                                snd,
                                Address::Ibc,
                                s@,
                                mt.amount,
                                NATIVE_DENOM_PLACES,
                                legacy_hash(mt),
                            )
                        },
                        _ => false,
                    })
                },
            }
        } else {
            match relayed_token_address {
                None => r == Err::<TransactionKind, _>(
                    ClassificationFault { kind: FaultKind::MissingTokenAddress, message: ibc_data },
                ),
                Some(addr) => match mt.sender {
                    None => r == Err::<TransactionKind, _>(
                        ClassificationFault {
                            kind: FaultKind::MalformedAddress,
                            message: ibc_data,
                        },
                    ),
                    Some(snd) => {
                        &&& r matches Ok(k)
                        &&& match k {
                            TransactionKind::RelayedUnshieldingTransfer((tk, tr)) => {
                                &&& mt.transfer is Some
                                &&& relayed_token_id(tk, addr, denom_text(mt.denom))
                                &&& synthesized_transfer(
                                    tr,
                                    snd,
                                    Address::Ibc,
                                    addr.text(),
                                    mt.amount,
                                    0,
                                    legacy_hash(mt),
                                )
                            },
                            TransactionKind::RelayedTransparentTransfer((tk, tr)) => {
                                &&& mt.transfer is None
                                &&& relayed_token_id(tk, addr, denom_text(mt.denom))
                                &&& synthesized_transfer(
                                    tr,
                                    snd,
                                    Address::Ibc,
                                    addr.text(),
                                    mt.amount,
                                    0,
                                    legacy_hash(mt),
                                )
                            },
                            _ => false,
                        }
                    },
                },
            }
        }),
{
    match ibc_data {
        IbcMessage::Envelope(env) => match env {
            MsgEnvelope::RecvPacket(msg) => {
                let ft_port = "transfer".to_owned();
                if !(msg.dest_port == ft_port) {
                    // An unsupported packet kind: pass it through unclassified.
                    return Ok(
                        TransactionKind::RelayedMsg(
                            IbcMessage::Envelope(MsgEnvelope::RecvPacket(msg)),
                        ),
                    );
                }
                match &msg.payload {
                    None => Err(
                        ClassificationFault {
                            kind: FaultKind::UndecodablePacket,
                            message: IbcMessage::Envelope(MsgEnvelope::RecvPacket(msg)),
                        },
                    ),
                    Some(pd) => {
                        let maybe_trace = get_namada_ibc_trace(
                            &pd.denom,
                            &msg.source_port,
                            &msg.source_channel,
                            &msg.dest_port,
                            &msg.dest_channel,
                        );
                        match get_token_and_amount(
                            maybe_trace,
                            &pd.amount,
                            &native_token,
                            &pd.denom,
                            relayed_token_address,
                        ) {
                            Err(kind) => Err(
                                ClassificationFault {
                                    kind,
                                    message: IbcMessage::Envelope(MsgEnvelope::RecvPacket(msg)),
                                },
                            ),
                            Ok((token_addr, token_id, damt)) => {
                                let receiver = match &pd.receiver {
                                    Some(a) => a.duplicate(),
                                    None => {
                                        return Err(
                                            ClassificationFault {
                                                kind: FaultKind::MalformedAddress,
                                                message: IbcMessage::Envelope(
                                                    MsgEnvelope::RecvPacket(msg),
                                                ),
                                            },
                                        );
                                    },
                                };
                                let damt2 = damt.duplicate();
                                let token_addr2 = token_addr.duplicate();
                                let transfer = Transfer {
                                    sources: vec![
                                        (Account { owner: Address::Ibc, token: token_addr }, damt),
                                    ],
                                    targets: vec![
                                        (Account { owner: receiver, token: token_addr2 }, damt2),
                                    ],
                                    shielded_section_hash: None,
                                };
                                if msg.has_masp_payload {
                                    Ok(
                                        TransactionKind::RelayedShieldingTransfer(
                                            (token_id, transfer),
                                        ),
                                    )
                                } else {
                                    Ok(
                                        TransactionKind::RelayedTransparentTransfer(
                                            (token_id, transfer),
                                        ),
                                    )
                                }
                            },
                        }
                    },
                }
            },
            MsgEnvelope::Other => Ok(
                TransactionKind::RelayedMsg(IbcMessage::Envelope(MsgEnvelope::Other)),
            ),
        },
        IbcMessage::Transfer(mt) => {
            let denom_str = denom_to_string(&mt.denom);
            match &native_token {
                Address::Account(s) => {
                    if str_contains(denom_str.as_str(), s.as_str()) {
                        // The packet moves the local native token.
                        let snd = match &mt.sender {
                            Some(a) => a.duplicate(),
                            None => {
                                return Err(
                                    ClassificationFault {
                                        kind: FaultKind::MalformedAddress,
                                        message: IbcMessage::Transfer(mt),
                                    },
                                );
                            },
                        };
                        let token_addr = Address::Account(s.clone());
                        let token_id = Token::Native(Id::Account(s.clone()));
                        let damt = DenominatedAmount::native(mt.amount.duplicate());
                        let damt2 = damt.duplicate();
                        let token_addr2 = token_addr.duplicate();
                        let has_transfer = mt.transfer.is_some();
                        let hash = match mt.transfer {
                            Some(ls) => ls.shielded_section_hash,
                            None => None,
                        };
                        let transfer = Transfer {
                            sources: vec![(Account { owner: snd, token: token_addr }, damt)],
                            targets: vec![
                                (Account { owner: Address::Ibc, token: token_addr2 }, damt2),
                            ],
                            shielded_section_hash: hash,
                        };
                        if has_transfer {
                            Ok(TransactionKind::RelayedUnshieldingTransfer((token_id, transfer)))
                        } else {
                            Ok(TransactionKind::RelayedTransparentTransfer((token_id, transfer)))
                        }
                    } else {
                        legacy_relayed_kind(mt, denom_str, relayed_token_address)
                    }
                },
                _ => legacy_relayed_kind(mt, denom_str, relayed_token_address),
            }
        },
        IbcMessage::NftTransfer => Ok(TransactionKind::RelayedMsg(IbcMessage::NftTransfer)),
    }
}

} // verus!
