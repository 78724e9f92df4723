use ledger_indexer::balance::Amount;
use ledger_indexer::ibc::{
    FtPacketData, IbcMessage, MsgEnvelope, MsgTransfer, PrefixedDenom, RecvPacketMsg, TracePrefix,
};
use ledger_indexer::id::{Address, Id};
use ledger_indexer::token::{IbcToken, Token};
use ledger_indexer::transaction::{FaultKind, TransactionKind};
use ledger_indexer::transfer::{
    Account, DenominatedAmount, MaspTxId, Transfer, NATIVE_DENOM_PLACES,
};
use ledger_indexer::utils::{transfer_to_ibc_tx_kind, transfer_to_tx_kind, BalanceChange};

const NATIVE: &str = "tnam1q9gr66cvu4hrzm0sd5kmlnjje82gs3xlfg3v6nu7";

fn entry(owner: Address, amount: &str) -> (Account, DenominatedAmount) {
    (
        Account { owner, token: Address::Account(NATIVE.to_string()) },
        DenominatedAmount { amount: Amount(amount.to_string()), denom: 6 },
    )
}

fn marker() -> Option<MaspTxId> {
    Some(MaspTxId(vec![7u8; 32]))
}

#[test]
fn fully_shielded_transaction_short_circuits() {
    // A shielded marker with both sides empty reveals no account movement.
    let t = Transfer { sources: vec![], targets: vec![], shielded_section_hash: marker() };
    let r = transfer_to_tx_kind(t.clone());
    assert_eq!(r, TransactionKind::ShieldedTransfer(t));
}

#[test]
fn all_masp_with_marker_is_shielded() {
    let t = Transfer {
        sources: vec![entry(Address::Masp, "10")],
        targets: vec![entry(Address::Masp, "10")],
        shielded_section_hash: marker(),
    };
    let r = transfer_to_tx_kind(t.clone());
    assert_eq!(r, TransactionKind::ShieldedTransfer(t));
}

#[test]
fn masp_sources_transparent_targets_is_unshielding() {
    let t = Transfer {
        sources: vec![entry(Address::Masp, "10")],
        targets: vec![entry(Address::Account("tnam1someone".to_string()), "10")],
        shielded_section_hash: marker(),
    };
    let r = transfer_to_tx_kind(t.clone());
    assert_eq!(r, TransactionKind::UnshieldingTransfer(t));
}

#[test]
fn transparent_sources_masp_targets_is_shielding() {
    let t = Transfer {
        sources: vec![entry(Address::Account("tnam1someone".to_string()), "10")],
        targets: vec![entry(Address::Masp, "10")],
        shielded_section_hash: marker(),
    };
    let r = transfer_to_tx_kind(t.clone());
    assert_eq!(r, TransactionKind::ShieldingTransfer(t));
}

#[test]
fn no_masp_no_marker_is_transparent() {
    let t = Transfer {
        sources: vec![entry(Address::Account("tnam1alice".to_string()), "10")],
        targets: vec![entry(Address::Account("tnam1bob".to_string()), "10")],
        shielded_section_hash: None,
    };
    let r = transfer_to_tx_kind(t.clone());
    assert_eq!(r, TransactionKind::TransparentTransfer(t));
}

#[test]
fn unmatched_combinations_are_mixed() {
    // A privacy-pool source next to a transparent one, marker present:
    // no row of the decision table matches.
    let t = Transfer {
        sources: vec![
            entry(Address::Masp, "10"),
            entry(Address::Account("tnam1alice".to_string()), "5"),
        ],
        targets: vec![entry(Address::Account("tnam1bob".to_string()), "15")],
        shielded_section_hash: marker(),
    };
    let r = transfer_to_tx_kind(t.clone());
    assert_eq!(r, TransactionKind::MixedTransfer(t));

    // A masp account with no marker is unclassifiable by the table too.
    let t2 = Transfer {
        sources: vec![entry(Address::Masp, "10")],
        targets: vec![entry(Address::Account("tnam1bob".to_string()), "10")],
        shielded_section_hash: None,
    };
    let r2 = transfer_to_tx_kind(t2.clone());
    assert_eq!(r2, TransactionKind::MixedTransfer(t2));
}

fn recv_packet(
    path: &[(&str, &str)],
    base: &str,
    receiver: Option<Address>,
    has_masp: bool,
) -> RecvPacketMsg {
    RecvPacketMsg {
        dest_port: "transfer".to_string(),
        payload: Some(FtPacketData {
            denom: PrefixedDenom {
                trace_path: path
                    .iter()
                    .map(|(p, c)| TracePrefix { port: p.to_string(), channel: c.to_string() })
                    .collect(),
                base_denom: base.to_string(),
            },
            amount: Amount("250".to_string()),
            sender: "cosmos1sender".to_string(),
            receiver,
        }),
        source_port: "transfer".to_string(),
        source_channel: "channel-9".to_string(),
        dest_channel: "channel-0".to_string(),
        has_masp_payload: has_masp,
    }
}

fn native() -> Address {
    Address::Account(NATIVE.to_string())
}

#[test]
fn inbound_remote_token_becomes_relayed_transparent() {
    let receiver = Address::Account("tnam1receiver".to_string());
    let msg = IbcMessage::Envelope(MsgEnvelope::RecvPacket(recv_packet(
        &[],
        "uatom",
        Some(receiver.clone()),
        false,
    )));
    let derived = Id::Account("tnam1derivedtokenaddress".to_string());
    let r = transfer_to_ibc_tx_kind(msg, native(), Some(derived.clone())).unwrap();
    match r {
        TransactionKind::RelayedTransparentTransfer((tok, tr)) => {
            // The canonical trace wraps the denomination with the receiving
            // hop; the derived address is recorded beside it, and differs
            // from the trace it was derived from.
            let expected_trace = "transfer/channel-0/uatom".to_string();
            assert_eq!(
                tok,
                Token::Ibc(IbcToken {
                    address: derived,
                    trace: Id::IbcTrace(expected_trace.clone()),
                })
            );
            assert_ne!(Id::Account("tnam1derivedtokenaddress".to_string()), Id::IbcTrace(expected_trace));
            assert_eq!(tr.sources.len(), 1);
            assert_eq!(tr.targets.len(), 1);
            assert_eq!(tr.sources[0].0.owner, Address::Ibc);
            assert_eq!(tr.targets[0].0.owner, receiver);
            assert_eq!(
                tr.sources[0].0.token,
                Address::Account("tnam1derivedtokenaddress".to_string())
            );
            assert_eq!(tr.sources[0].1, DenominatedAmount { amount: Amount("250".to_string()), denom: 0 });
            assert_eq!(tr.targets[0].1, DenominatedAmount { amount: Amount("250".to_string()), denom: 0 });
            assert_eq!(tr.shielded_section_hash, None);
        }
        other => panic!("unexpected kind: {:?}", other),
    }
}

#[test]
fn inbound_native_token_with_masp_payload_is_relayed_shielding() {
    // The trace strips down to empty: local native token; the envelope
    // carries a privacy-pool payload.
    let receiver = Address::Account("tnam1receiver".to_string());
    let msg = IbcMessage::Envelope(MsgEnvelope::RecvPacket(recv_packet(
        &[("transfer", "channel-9")],
        NATIVE,
        Some(receiver.clone()),
        true,
    )));
    let r = transfer_to_ibc_tx_kind(msg, native(), None).unwrap();
    match r {
        TransactionKind::RelayedShieldingTransfer((tok, tr)) => {
            assert_eq!(tok, Token::Native(Id::Account(NATIVE.to_string())));
            assert_eq!(tr.sources[0].0.owner, Address::Ibc);
            assert_eq!(tr.targets[0].0.owner, receiver);
            assert_eq!(
                tr.sources[0].1,
                DenominatedAmount { amount: Amount("250".to_string()), denom: NATIVE_DENOM_PLACES }
            );
        }
        other => panic!("unexpected kind: {:?}", other),
    }
}

#[test]
fn undecodable_fungible_payload_is_a_typed_fault() {
    let mut packet = recv_packet(&[], "uatom", None, false);
    packet.payload = None;
    let msg = IbcMessage::Envelope(MsgEnvelope::RecvPacket(packet));
    let err = transfer_to_ibc_tx_kind(msg, native(), None).unwrap_err();
    assert_eq!(err.kind, FaultKind::UndecodablePacket);
    assert!(matches!(err.message, IbcMessage::Envelope(MsgEnvelope::RecvPacket(_))));
}

#[test]
fn malformed_receiver_is_a_typed_fault() {
    let msg = IbcMessage::Envelope(MsgEnvelope::RecvPacket(recv_packet(
        &[],
        "uatom",
        None,
        false,
    )));
    let derived = Id::Account("tnam1derivedtokenaddress".to_string());
    let err = transfer_to_ibc_tx_kind(msg, native(), Some(derived)).unwrap_err();
    assert_eq!(err.kind, FaultKind::MalformedAddress);
}

#[test]
fn missing_token_address_is_a_typed_fault() {
    let receiver = Address::Account("tnam1receiver".to_string());
    let msg = IbcMessage::Envelope(MsgEnvelope::RecvPacket(recv_packet(
        &[],
        "uatom",
        Some(receiver),
        false,
    )));
    let err = transfer_to_ibc_tx_kind(msg, native(), None).unwrap_err();
    assert_eq!(err.kind, FaultKind::MissingTokenAddress);
}

#[test]
fn native_resolution_with_foreign_denom_is_inconsistent() {
    // The trace resolves to the local native token, but the base
    // denomination does not name it: a consistency violation, surfaced.
    let receiver = Address::Account("tnam1receiver".to_string());
    let msg = IbcMessage::Envelope(MsgEnvelope::RecvPacket(recv_packet(
        &[("transfer", "channel-9")],
        "uother",
        Some(receiver),
        false,
    )));
    let err = transfer_to_ibc_tx_kind(msg, native(), None).unwrap_err();
    assert_eq!(err.kind, FaultKind::NativeTokenMismatch);
}

#[test]
fn unsupported_packet_kinds_pass_through() {
    let mut packet = recv_packet(&[], "uatom", None, false);
    packet.dest_port = "nft_transfer".to_string();
    let msg = IbcMessage::Envelope(MsgEnvelope::RecvPacket(packet.clone()));
    let r = transfer_to_ibc_tx_kind(msg, native(), None).unwrap();
    assert_eq!(
        r,
        TransactionKind::RelayedMsg(IbcMessage::Envelope(MsgEnvelope::RecvPacket(packet)))
    );

    let r2 = transfer_to_ibc_tx_kind(IbcMessage::Envelope(MsgEnvelope::Other), native(), None)
        .unwrap();
    assert_eq!(r2, TransactionKind::RelayedMsg(IbcMessage::Envelope(MsgEnvelope::Other)));

    let r3 = transfer_to_ibc_tx_kind(IbcMessage::NftTransfer, native(), None).unwrap();
    assert_eq!(r3, TransactionKind::RelayedMsg(IbcMessage::NftTransfer));
}

fn legacy_msg(base: &str, sender: Option<Address>, shielded: bool) -> MsgTransfer {
    MsgTransfer {
        denom: PrefixedDenom { trace_path: vec![], base_denom: base.to_string() },
        amount: Amount("42".to_string()),
        sender,
        transfer: if shielded {
            Some(ledger_indexer::ibc::LegacyShielded { shielded_section_hash: marker() })
        } else {
            None
        },
    }
}

#[test]
fn legacy_native_with_shielded_part_is_relayed_unshielding() {
    let sender = Address::Account("tnam1sender".to_string());
    let msg = IbcMessage::Transfer(legacy_msg(NATIVE, Some(sender.clone()), true));
    let r = transfer_to_ibc_tx_kind(msg, native(), None).unwrap();
    match r {
        TransactionKind::RelayedUnshieldingTransfer((tok, tr)) => {
            assert_eq!(tok, Token::Native(Id::Account(NATIVE.to_string())));
            assert_eq!(tr.sources[0].0.owner, sender);
            assert_eq!(tr.targets[0].0.owner, Address::Ibc);
            assert_eq!(tr.shielded_section_hash, marker());
        }
        other => panic!("unexpected kind: {:?}", other),
    }
}

#[test]
fn legacy_foreign_token_is_relayed_transparent() {
    let sender = Address::Account("tnam1sender".to_string());
    let msg = IbcMessage::Transfer(legacy_msg("uosmo", Some(sender.clone()), false));
    let derived = Id::Account("tnam1derivedtokenaddress".to_string());
    let r = transfer_to_ibc_tx_kind(msg, native(), Some(derived.clone())).unwrap();
    match r {
        TransactionKind::RelayedTransparentTransfer((tok, tr)) => {
            // The legacy path's trace is the denomination string itself.
            assert_eq!(
                tok,
                Token::Ibc(IbcToken { address: derived, trace: Id::IbcTrace("uosmo".to_string()) })
            );
            assert_eq!(tr.sources[0].0.owner, sender);
            assert_eq!(tr.targets[0].0.owner, Address::Ibc);
            assert_eq!(tr.shielded_section_hash, None);
        }
        other => panic!("unexpected kind: {:?}", other),
    }
}

#[test]
fn legacy_malformed_sender_is_a_typed_fault() {
    let msg = IbcMessage::Transfer(legacy_msg(NATIVE, None, false));
    let err = transfer_to_ibc_tx_kind(msg, native(), None).unwrap_err();
    assert_eq!(err.kind, FaultKind::MalformedAddress);
}

#[test]
fn balance_change_keeps_its_fields() {
    let c = BalanceChange::new(
        Id::Account("tnam1alice".to_string()),
        Token::Native(Id::Account(NATIVE.to_string())),
    );
    assert_eq!(c.address, Id::Account("tnam1alice".to_string()));
    assert_eq!(c.token, Token::Native(Id::Account(NATIVE.to_string())));
}
