//! ChainBuilder: DPI operating modes and the engine chains that realize them.

use vstd::prelude::*;

verus! {

/// DPI operating mode.
#[derive(Debug, Clone, Copy, PartialEq, Eq, Structural)]
pub enum ChainMode {
    /// Zapret only.
    Zapret,
    /// ByeDPI only.
    ByeDpi,
    /// Warp only.
    Warp,
    /// Zapret and ByeDPI in parallel.
    Hybrid,
    /// Warp and Zapret in parallel.
    WarpZapret,
    /// Warp and ByeDPI in parallel.
    WarpByeDpi,
    /// Warp, then Zapret (a chain through SOCKS5).
    ChainedWarpZapret,
    /// Warp, then ByeDPI (a chain through SOCKS5).
    ChainedWarpByeDpi,
    /// No protection.
    Bypass,
}

pub open spec fn mode_name(m: ChainMode) -> Seq<char> {
    match m {
        ChainMode::Zapret => "zapret"@,
        ChainMode::ByeDpi => "byedpi"@,
        ChainMode::Warp => "warp"@,
        ChainMode::Hybrid => "hybrid"@,
        ChainMode::WarpZapret => "warp+zapret"@,
        ChainMode::WarpByeDpi => "warp+byedpi"@,
        ChainMode::ChainedWarpZapret => "warp→zapret"@,
        ChainMode::ChainedWarpByeDpi => "warp→byedpi"@,
        ChainMode::Bypass => "bypass"@,
    }
}

pub open spec fn mode_difficulty(m: ChainMode) -> Seq<char> {
    match m {
        ChainMode::Zapret | ChainMode::ByeDpi | ChainMode::Warp => "low"@,
        ChainMode::Hybrid | ChainMode::WarpZapret | ChainMode::WarpByeDpi => "medium"@,
        ChainMode::ChainedWarpZapret | ChainMode::ChainedWarpByeDpi => "extreme"@,
        ChainMode::Bypass => "none"@,
    }
}

pub open spec fn mode_uses_socks5(m: ChainMode) -> bool {
    m == ChainMode::ChainedWarpZapret || m == ChainMode::ChainedWarpByeDpi
}

impl ChainMode {
    pub fn as_str(&self) -> (r: &'static str)
        ensures
            r@ == mode_name(*self),
    {
        match self {
            ChainMode::Zapret => "zapret",
            ChainMode::ByeDpi => "byedpi",
            ChainMode::Warp => "warp",
            ChainMode::Hybrid => "hybrid",
            ChainMode::WarpZapret => "warp+zapret",
            ChainMode::WarpByeDpi => "warp+byedpi",
            ChainMode::ChainedWarpZapret => "warp→zapret",
            ChainMode::ChainedWarpByeDpi => "warp→byedpi",
            ChainMode::Bypass => "bypass",
        }
    }

    /// How hard the mode is for a provider to defeat.
    pub fn difficulty(&self) -> (r: &'static str)
        ensures
            r@ == mode_difficulty(*self),
    {
        match self {
            ChainMode::Zapret | ChainMode::ByeDpi | ChainMode::Warp => "low",
            ChainMode::Hybrid | ChainMode::WarpZapret | ChainMode::WarpByeDpi => "medium",
            ChainMode::ChainedWarpZapret | ChainMode::ChainedWarpByeDpi => "extreme",
            ChainMode::Bypass => "none",
        }
    }

    /// Whether the mode runs through a SOCKS5 proxy.
    pub fn uses_socks5(&self) -> (r: bool)
        ensures
            r == mode_uses_socks5(*self),
    {
        matches!(self, ChainMode::ChainedWarpZapret | ChainMode::ChainedWarpByeDpi)
    }
}

/// One link of a chain.
#[derive(Debug, Clone, Copy, PartialEq, Eq, Structural)]
pub struct ChainLink {
    pub mode: ChainMode,
    pub order: u32,
    pub socks_port: Option<u16>,
}

impl ChainLink {
    pub fn new(mode: ChainMode, order: u32) -> (r: Self)
        ensures
            r == (ChainLink { mode, order, socks_port: None }),
    {
        ChainLink { mode, order, socks_port: None }
    }
}

/// The chain of a mode.
pub open spec fn chain_of(m: ChainMode) -> Seq<ChainLink> {
    let link = |mode: ChainMode, order: u32| ChainLink { mode, order, socks_port: None };
    match m {
        ChainMode::Zapret => seq![link(ChainMode::Zapret, 1)],
        ChainMode::ByeDpi => seq![link(ChainMode::ByeDpi, 1)],
        ChainMode::Warp => seq![link(ChainMode::Warp, 1)],
        ChainMode::Hybrid => seq![link(ChainMode::Zapret, 1), link(ChainMode::ByeDpi, 2)],
        ChainMode::WarpZapret => seq![link(ChainMode::Warp, 1), link(ChainMode::Zapret, 2)],
        ChainMode::WarpByeDpi => seq![link(ChainMode::Warp, 1), link(ChainMode::ByeDpi, 2)],
        ChainMode::ChainedWarpZapret => seq![
            ChainLink { mode: ChainMode::Warp, order: 1, socks_port: Some(1086) },
            ChainLink { mode: ChainMode::Zapret, order: 2, socks_port: Some(1080) },
        ],
        ChainMode::ChainedWarpByeDpi => seq![
            ChainLink { mode: ChainMode::Warp, order: 1, socks_port: Some(1086) },
            ChainLink { mode: ChainMode::ByeDpi, order: 2, socks_port: Some(1080) },
        ],
        ChainMode::Bypass => Seq::empty(),
    }
}

/// Every mode, in declaration order.
pub open spec fn every_mode() -> Seq<ChainMode> {
    seq![
        ChainMode::Zapret,
        ChainMode::ByeDpi,
        ChainMode::Warp,
        ChainMode::Hybrid,
        ChainMode::WarpZapret,
        ChainMode::WarpByeDpi,
        ChainMode::ChainedWarpZapret,
        ChainMode::ChainedWarpByeDpi,
        ChainMode::Bypass,
    ]
}

/// Chain builder.
pub struct ChainBuilder;

impl ChainBuilder {
    /// The chain for a mode.
    pub fn build_chain(mode: ChainMode) -> (r: Vec<ChainLink>)
        ensures
            r@ == chain_of(mode),
    {
        let r = match mode {
            ChainMode::Zapret => vec![ChainLink::new(ChainMode::Zapret, 1)],
            ChainMode::ByeDpi => vec![ChainLink::new(ChainMode::ByeDpi, 1)],
            ChainMode::Warp => vec![ChainLink::new(ChainMode::Warp, 1)],
            ChainMode::Hybrid => vec![
                ChainLink::new(ChainMode::Zapret, 1),
                ChainLink::new(ChainMode::ByeDpi, 2),
            ],
            ChainMode::WarpZapret => vec![
                ChainLink::new(ChainMode::Warp, 1),
                ChainLink::new(ChainMode::Zapret, 2),
            ],
            ChainMode::WarpByeDpi => vec![
                ChainLink::new(ChainMode::Warp, 1),
                ChainLink::new(ChainMode::ByeDpi, 2),
            ],
            ChainMode::ChainedWarpZapret => vec![
                ChainLink { mode: ChainMode::Warp, order: 1, socks_port: Some(1086) },
                ChainLink { mode: ChainMode::Zapret, order: 2, socks_port: Some(1080) },
            ],
            ChainMode::ChainedWarpByeDpi => vec![
                ChainLink { mode: ChainMode::Warp, order: 1, socks_port: Some(1086) },
                ChainLink { mode: ChainMode::ByeDpi, order: 2, socks_port: Some(1080) },
            ],
            ChainMode::Bypass => Vec::new(),
        };
        assert(r@ =~= chain_of(mode));
        r
    }

    /// All available modes.
    pub fn all_modes() -> (r: Vec<ChainMode>)
        ensures
            r@ == every_mode(),
    {
        let r = vec![
            ChainMode::Zapret,
            ChainMode::ByeDpi,
            ChainMode::Warp,
            ChainMode::Hybrid,
            ChainMode::WarpZapret,
            ChainMode::WarpByeDpi,
            ChainMode::ChainedWarpZapret,
            ChainMode::ChainedWarpByeDpi,
            ChainMode::Bypass,
        ];
        assert(r@ =~= every_mode());
        r
    }
}

/// Every chain runs its links in order 1, 2, ...; only single-engine modes
/// appear as links; a mode uses SOCKS5 exactly when its links carry SOCKS
/// ports, and then every link does.
pub proof fn chain_shape(m: ChainMode)
    ensures
        forall|i: int| 0 <= i < chain_of(m).len() ==> #[trigger] chain_of(m)[i].order == i + 1,
        forall|i: int|
            0 <= i < chain_of(m).len() ==> {
                let lm = #[trigger] chain_of(m)[i].mode;
                lm == ChainMode::Zapret || lm == ChainMode::ByeDpi || lm == ChainMode::Warp
            },
        mode_uses_socks5(m) <==> exists|i: int|
            0 <= i < chain_of(m).len() && (#[trigger] chain_of(m)[i]).socks_port is Some,
        mode_uses_socks5(m) ==> forall|i: int|
            0 <= i < chain_of(m).len() ==> (#[trigger] chain_of(m)[i]).socks_port is Some,
        (m == ChainMode::Bypass) <==> chain_of(m).len() == 0,
{
    if mode_uses_socks5(m) {
        assert(chain_of(m)[0].socks_port is Some);
    }
}

/// The engines of a chain, in link order.
pub open spec fn chain_engines(c: Seq<ChainLink>) -> Seq<ChainMode> {
    c.map_values(|l: ChainLink| l.mode)
}

/// A chain runs exactly the engines that its mode names, in the named
/// order: a single-engine mode runs that engine; Hybrid runs Zapret, then
/// ByeDPI; the Warp modes run Warp first, then the engine after `warp` in
/// their name, whether in parallel or chained; Bypass runs none. The
/// parallel and the chained form of a pair run the same engines, and only
/// the chained forms carry SOCKS ports: 1086 for Warp, 1080 for the engine
/// behind it.
pub proof fn chain_runs_the_named_engines(m: ChainMode)
    ensures
        (m == ChainMode::Zapret || m == ChainMode::ByeDpi || m == ChainMode::Warp) ==> chain_engines(
            chain_of(m),
        ) == seq![m],
        m == ChainMode::Hybrid ==> chain_engines(chain_of(m)) == seq![ChainMode::Zapret, ChainMode::ByeDpi],
        (m == ChainMode::WarpZapret || m == ChainMode::ChainedWarpZapret) ==> chain_engines(chain_of(m))
            == seq![ChainMode::Warp, ChainMode::Zapret],
        (m == ChainMode::WarpByeDpi || m == ChainMode::ChainedWarpByeDpi) ==> chain_engines(chain_of(m))
            == seq![ChainMode::Warp, ChainMode::ByeDpi],
        m == ChainMode::Bypass ==> chain_engines(chain_of(m)) == Seq::<ChainMode>::empty(),
        chain_engines(chain_of(ChainMode::WarpZapret)) == chain_engines(chain_of(ChainMode::ChainedWarpZapret)),
        chain_engines(chain_of(ChainMode::WarpByeDpi)) == chain_engines(chain_of(ChainMode::ChainedWarpByeDpi)),
        mode_uses_socks5(m) ==> chain_of(m).len() == 2 && chain_of(m)[0].socks_port == Some(1086u16)
            && chain_of(m)[1].socks_port == Some(1080u16),
        !mode_uses_socks5(m) ==> forall|i: int| 0 <= i < chain_of(m).len() ==> (#[trigger] chain_of(m)[i]).socks_port is None,
{
    assert(chain_engines(chain_of(ChainMode::WarpZapret)) =~= seq![ChainMode::Warp, ChainMode::Zapret]);
    assert(chain_engines(chain_of(ChainMode::ChainedWarpZapret)) =~= seq![ChainMode::Warp, ChainMode::Zapret]);
    assert(chain_engines(chain_of(ChainMode::WarpByeDpi)) =~= seq![ChainMode::Warp, ChainMode::ByeDpi]);
    assert(chain_engines(chain_of(ChainMode::ChainedWarpByeDpi)) =~= seq![ChainMode::Warp, ChainMode::ByeDpi]);
    assert(chain_engines(chain_of(m)) =~= match m {
        ChainMode::Zapret | ChainMode::ByeDpi | ChainMode::Warp => seq![m],
        ChainMode::Hybrid => seq![ChainMode::Zapret, ChainMode::ByeDpi],
        ChainMode::WarpZapret | ChainMode::ChainedWarpZapret => seq![ChainMode::Warp, ChainMode::Zapret],
        ChainMode::WarpByeDpi | ChainMode::ChainedWarpByeDpi => seq![ChainMode::Warp, ChainMode::ByeDpi],
        ChainMode::Bypass => Seq::<ChainMode>::empty(),
    });
}

/// The mode list holds every mode exactly once.
pub proof fn all_modes_complete(m: ChainMode)
    ensures
        every_mode().len() == 9,
        exists|i: int| 0 <= i < 9 && every_mode()[i] == m,
        forall|i: int, k: int| 0 <= i < k < 9 ==> every_mode()[i] != every_mode()[k],
{
    match m {
        ChainMode::Zapret => assert(every_mode()[0] == m),
        ChainMode::ByeDpi => assert(every_mode()[1] == m),
        ChainMode::Warp => assert(every_mode()[2] == m),
        ChainMode::Hybrid => assert(every_mode()[3] == m),
        ChainMode::WarpZapret => assert(every_mode()[4] == m),
        ChainMode::WarpByeDpi => assert(every_mode()[5] == m),
        ChainMode::ChainedWarpZapret => assert(every_mode()[6] == m),
        ChainMode::ChainedWarpByeDpi => assert(every_mode()[7] == m),
        ChainMode::Bypass => assert(every_mode()[8] == m),
    }
}

} // verus!
