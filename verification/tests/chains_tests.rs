use proteus::services::chains::{ChainBuilder, ChainLink, ChainMode};

#[test]
fn test_chain_mode_as_str() {
    assert_eq!(ChainMode::Zapret.as_str(), "zapret");
    assert_eq!(ChainMode::Hybrid.as_str(), "hybrid");
    assert_eq!(ChainMode::Bypass.as_str(), "bypass");
}

#[test]
fn test_chain_difficulty() {
    assert_eq!(ChainMode::Zapret.difficulty(), "low");
    assert_eq!(ChainMode::Hybrid.difficulty(), "medium");
    assert_eq!(ChainMode::ChainedWarpZapret.difficulty(), "extreme");
}

#[test]
fn test_build_single_chain() {
    let chain = ChainBuilder::build_chain(ChainMode::Zapret);
    assert_eq!(chain.len(), 1);
    assert_eq!(chain[0].mode, ChainMode::Zapret);
}

#[test]
fn test_build_hybrid_chain() {
    let chain = ChainBuilder::build_chain(ChainMode::Hybrid);
    assert_eq!(chain.len(), 2);
    assert_eq!(chain[0].mode, ChainMode::Zapret);
    assert_eq!(chain[1].mode, ChainMode::ByeDpi);
}

#[test]
fn test_build_bypass_chain() {
    let chain = ChainBuilder::build_chain(ChainMode::Bypass);
    assert!(chain.is_empty());
}

#[test]
fn test_chained_with_socks() {
    let chain = ChainBuilder::build_chain(ChainMode::ChainedWarpZapret);
    assert_eq!(chain.len(), 2);
    assert_eq!(chain[0].socks_port, Some(1086));
    assert_eq!(chain[1].socks_port, Some(1080));
}

#[test]
fn test_all_modes() {
    let modes = ChainBuilder::all_modes();
    assert_eq!(modes.len(), 9);
}

#[test]
fn test_socks5_usage() {
    assert!(ChainMode::ChainedWarpZapret.uses_socks5());
    assert!(!ChainMode::Zapret.uses_socks5());
}

#[test]
fn every_chain_is_ordered_from_one() {
    for m in ChainBuilder::all_modes() {
        let chain = ChainBuilder::build_chain(m);
        for (i, link) in chain.iter().enumerate() {
            assert_eq!(link.order as usize, i + 1);
            assert_eq!(link.socks_port.is_some(), m.uses_socks5());
        }
    }
    assert_eq!(ChainLink::new(ChainMode::Warp, 3), ChainLink { mode: ChainMode::Warp, order: 3, socks_port: None });
    assert_eq!(ChainMode::ChainedWarpByeDpi.as_str(), "warp→byedpi");
    assert_eq!(ChainMode::Bypass.difficulty(), "none");
}
