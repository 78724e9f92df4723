use ledger_indexer::ibc::{denom_to_string, get_namada_ibc_trace, parse_prefixed_denom, PrefixedDenom, TracePrefix};

fn denom(path: &[(&str, &str)], base: &str) -> PrefixedDenom {
    PrefixedDenom {
        trace_path: path
            .iter()
            .map(|(p, c)| TracePrefix { port: p.to_string(), channel: c.to_string() })
            .collect(),
        base_denom: base.to_string(),
    }
}

#[test]
fn renders_canonical_denom_string() {
    let d = denom(&[("transfer", "channel-1")], "uatom");
    assert_eq!(denom_to_string(&d), "transfer/channel-1/uatom");
    let bare = denom(&[], "uatom");
    assert_eq!(denom_to_string(&bare), "uatom");
}

#[test]
fn remote_native_trace_starts_with_receiver_hop() {
    // The incoming trace does not carry the sender's hop: the token is native
    // to the remote chain and the synthesized trace starts with the
    // receiver's port and channel, not the sender's.
    let d = denom(&[], "uatom");
    let r = get_namada_ibc_trace(
        &d,
        &"transfer".to_string(),
        &"channel-9".to_string(),
        &"transfer".to_string(),
        &"channel-0".to_string(),
    );
    assert_eq!(r, Some("transfer/channel-0/uatom".to_string()));
    assert!(r.unwrap().starts_with("transfer/channel-0/"));
}

#[test]
fn stripping_to_empty_resolves_to_local_native() {
    // The sender's hop is the whole trace: stripping it empties the trace,
    // so the token is the local chain's native one.
    let d = denom(&[("transfer", "channel-1")], "unam");
    let r = get_namada_ibc_trace(
        &d,
        &"transfer".to_string(),
        &"channel-1".to_string(),
        &"transfer".to_string(),
        &"channel-0".to_string(),
    );
    assert_eq!(r, None);
}

#[test]
fn multi_hop_trace_is_rewrapped() {
    let d = denom(&[("transfer", "channel-1"), ("transfer", "channel-5")], "uatom");
    let r = get_namada_ibc_trace(
        &d,
        &"transfer".to_string(),
        &"channel-1".to_string(),
        &"transfer".to_string(),
        &"channel-0".to_string(),
    );
    assert_eq!(
        r,
        Some("transfer/channel-0/transfer/channel-1/transfer/channel-5/uatom".to_string())
    );
}

#[test]
fn mismatched_hop_is_treated_as_remote_native() {
    // Same port but a different channel: the prefix does not match.
    let d = denom(&[("transfer", "channel-2")], "uatom");
    let r = get_namada_ibc_trace(
        &d,
        &"transfer".to_string(),
        &"channel-1".to_string(),
        &"transfer".to_string(),
        &"channel-0".to_string(),
    );
    assert_eq!(
        r,
        Some("transfer/channel-0/transfer/channel-2/uatom".to_string())
    );
}

#[test]
fn parses_denomination_strings_back_into_hops() {
    let d = parse_prefixed_denom("transfer/channel-1/uatom");
    assert_eq!(d.trace_path.len(), 1);
    assert_eq!(d.trace_path[0].port, "transfer");
    assert_eq!(d.trace_path[0].channel, "channel-1");
    assert_eq!(d.base_denom, "uatom");
    assert_eq!(denom_to_string(&d), "transfer/channel-1/uatom");

    let bare = parse_prefixed_denom("uatom");
    assert_eq!(bare.trace_path.len(), 0);
    assert_eq!(bare.base_denom, "uatom");

    // A slash whose second segment is no channel belongs to the base.
    let odd = parse_prefixed_denom("factory/creator/coin");
    assert_eq!(odd.trace_path.len(), 0);
    assert_eq!(odd.base_denom, "factory/creator/coin");
    assert_eq!(denom_to_string(&odd), "factory/creator/coin");
}
