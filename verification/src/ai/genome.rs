//! StrategyGenome: the full parameter set of one DPI bypass strategy.

use vstd::prelude::*;
use crate::text::{clone_opt_string, clone_strings};
use crate::outside::{fresh_id, now_millis};

verus! {

/// Type of DPI engine.
#[derive(Debug, Clone, Copy, PartialEq, Eq, Structural)]
pub enum DpiEngineType {
    Zapret,
    ByeDpi,
    Warp,
}

/// The lowercase name of an engine type.
pub open spec fn engine_type_name(t: DpiEngineType) -> Seq<char> {
    match t {
        DpiEngineType::Zapret => "zapret"@,
        DpiEngineType::ByeDpi => "byedpi"@,
        DpiEngineType::Warp => "warp"@,
    }
}

impl DpiEngineType {
    pub fn as_str(&self) -> (r: &'static str)
        ensures
            r@ == engine_type_name(*self),
    {
        match self {
            DpiEngineType::Zapret => "zapret",
            DpiEngineType::ByeDpi => "byedpi",
            DpiEngineType::Warp => "warp",
        }
    }

    /// Display text: the same as `as_str`.
    pub fn to_string(&self) -> (r: String)
        ensures
            r@ == engine_type_name(*self),
    {
        String::from_str(self.as_str())
    }
}

/// Where a strategy came from.
#[derive(Debug, Clone, Copy, PartialEq, Eq, Structural)]
pub enum StrategyOrigin {
    Builtin,
    Evolved,
    Imported,
    Manual,
}

/// Display text of an origin.
pub open spec fn origin_name(o: StrategyOrigin) -> Seq<char> {
    match o {
        StrategyOrigin::Builtin => "builtin"@,
        StrategyOrigin::Evolved => "evolved"@,
        StrategyOrigin::Imported => "imported"@,
        StrategyOrigin::Manual => "manual"@,
    }
}

impl StrategyOrigin {
    /// Display text of this origin.
    pub fn to_string(&self) -> (r: String)
        ensures
            r@ == origin_name(*self),
    {
        match self {
            StrategyOrigin::Builtin => String::from_str("builtin"),
            StrategyOrigin::Evolved => String::from_str("evolved"),
            StrategyOrigin::Imported => String::from_str("imported"),
            StrategyOrigin::Manual => String::from_str("manual"),
        }
    }
}

/// Genome of a strategy: the full set of DPI bypass parameters.
///
/// Identifiers are 128-bit UUID values; timestamps are milliseconds since the
/// Unix epoch.
#[derive(Debug)]
pub struct StrategyGenome {
    /// Unique ID.
    pub id: u128,
    /// IDs of the parent genomes (for evolved ones).
    pub parent_ids: Vec<u128>,
    /// Generation number.
    pub generation: u32,
    /// Origin.
    pub origin: StrategyOrigin,
    /// Engine type.
    pub engine_type: DpiEngineType,
    pub filter_tcp: String,
    pub filter_udp: String,
    /// Desync mode (split, fake, fakesplit, disorder, ...).
    pub desync_mode: String,
    /// Numeric split position.
    pub split_pos: Option<i32>,
    /// Semantic split position (host, endhost, midsld, sniext, endsld).
    pub split_pos_semantic: Option<String>,
    pub disorder_pos: Option<String>,
    pub fake_pos: Option<String>,
    pub oob_pos: Option<String>,
    pub disoob_pos: Option<String>,
    pub tlsrec_pos: Option<String>,
    pub fake_ttl: Option<i32>,
    pub auto_ttl: bool,
    pub md5sig: Option<bool>,
    pub fake_tls_mod: Option<String>,
    pub fake_sni: Option<String>,
    pub fake_data: Option<String>,
    pub mod_http: Option<String>,
    pub tlsminor: Option<i32>,
    pub hosts: Option<String>,
    pub hostlist: Option<String>,
    pub repeat_count: Option<i32>,
    pub cache_ttl: Option<i32>,
    pub auto: Option<String>,
    pub timeout: Option<i32>,
    pub auto_mode: Option<i32>,
    pub desync_any_protocol: Option<String>,
    pub desync_fooling: Option<String>,
    pub fake_resend: Option<String>,
    pub warp_config: Option<String>,
    pub mtu: Option<i32>,
    pub gool_enabled: bool,
    pub psiphon_enabled: bool,
    pub psiphon_country: Option<String>,
    pub scan_enabled: bool,
    pub reserved: Option<String>,
    /// Additional raw arguments.
    pub extra_args: Vec<String>,
    pub display_name: String,
    pub bat_file_name: Option<String>,
    pub source_bat_path: Option<String>,
    /// Creation time (ms since the Unix epoch).
    pub created_at: i64,
    pub orchestrator_enabled: bool,
    pub last_verification_score: Option<i32>,
    /// Last verification time (ms since the Unix epoch).
    pub last_verified_at: Option<i64>,
}

/// Mathematical model of a genome: list fields as sequences.
pub struct GenomeView {
    pub id: u128,
    pub parent_ids: Seq<u128>,
    pub generation: u32,
    pub origin: StrategyOrigin,
    pub engine_type: DpiEngineType,
    pub filter_tcp: String,
    pub filter_udp: String,
    pub desync_mode: String,
    pub split_pos: Option<i32>,
    pub split_pos_semantic: Option<String>,
    pub disorder_pos: Option<String>,
    pub fake_pos: Option<String>,
    pub oob_pos: Option<String>,
    pub disoob_pos: Option<String>,
    pub tlsrec_pos: Option<String>,
    pub fake_ttl: Option<i32>,
    pub auto_ttl: bool,
    pub md5sig: Option<bool>,
    pub fake_tls_mod: Option<String>,
    pub fake_sni: Option<String>,
    pub fake_data: Option<String>,
    pub mod_http: Option<String>,
    pub tlsminor: Option<i32>,
    pub hosts: Option<String>,
    pub hostlist: Option<String>,
    pub repeat_count: Option<i32>,
    pub cache_ttl: Option<i32>,
    pub auto: Option<String>,
    pub timeout: Option<i32>,
    pub auto_mode: Option<i32>,
    pub desync_any_protocol: Option<String>,
    pub desync_fooling: Option<String>,
    pub fake_resend: Option<String>,
    pub warp_config: Option<String>,
    pub mtu: Option<i32>,
    pub gool_enabled: bool,
    pub psiphon_enabled: bool,
    pub psiphon_country: Option<String>,
    pub scan_enabled: bool,
    pub reserved: Option<String>,
    pub extra_args: Seq<String>,
    pub display_name: String,
    pub bat_file_name: Option<String>,
    pub source_bat_path: Option<String>,
    pub created_at: i64,
    pub orchestrator_enabled: bool,
    pub last_verification_score: Option<i32>,
    pub last_verified_at: Option<i64>,
}

impl View for StrategyGenome {
    type V = GenomeView;

    open spec fn view(&self) -> GenomeView {
        GenomeView {
            id: self.id,
            parent_ids: self.parent_ids@,
            generation: self.generation,
            origin: self.origin,
            engine_type: self.engine_type,
            filter_tcp: self.filter_tcp,
            filter_udp: self.filter_udp,
            desync_mode: self.desync_mode,
            split_pos: self.split_pos,
            split_pos_semantic: self.split_pos_semantic,
            disorder_pos: self.disorder_pos,
            fake_pos: self.fake_pos,
            oob_pos: self.oob_pos,
            disoob_pos: self.disoob_pos,
            tlsrec_pos: self.tlsrec_pos,
            fake_ttl: self.fake_ttl,
            auto_ttl: self.auto_ttl,
            md5sig: self.md5sig,
            fake_tls_mod: self.fake_tls_mod,
            fake_sni: self.fake_sni,
            fake_data: self.fake_data,
            mod_http: self.mod_http,
            tlsminor: self.tlsminor,
            hosts: self.hosts,
            hostlist: self.hostlist,
            repeat_count: self.repeat_count,
            cache_ttl: self.cache_ttl,
            auto: self.auto,
            timeout: self.timeout,
            auto_mode: self.auto_mode,
            desync_any_protocol: self.desync_any_protocol,
            desync_fooling: self.desync_fooling,
            fake_resend: self.fake_resend,
            warp_config: self.warp_config,
            mtu: self.mtu,
            gool_enabled: self.gool_enabled,
            psiphon_enabled: self.psiphon_enabled,
            psiphon_country: self.psiphon_country,
            scan_enabled: self.scan_enabled,
            reserved: self.reserved,
            extra_args: self.extra_args@,
            display_name: self.display_name,
            bat_file_name: self.bat_file_name,
            source_bat_path: self.source_bat_path,
            created_at: self.created_at,
            orchestrator_enabled: self.orchestrator_enabled,
            last_verification_score: self.last_verification_score,
            last_verified_at: self.last_verified_at,
        }
    }
}

/// Every field other than the filters, desync mode, disorder position, MTU and
/// display name holds its default value, for the given engine and origin (id
/// and creation time aside).
pub open spec fn base_defaults(g: StrategyGenome, engine_type: DpiEngineType, origin: StrategyOrigin) -> bool {
    &&& g.parent_ids@.len() == 0
    &&& g.generation == 0
    &&& g.origin == origin
    &&& g.engine_type == engine_type
    &&& g.split_pos is None
    &&& g.split_pos_semantic is None
    &&& g.fake_pos is None
    &&& g.oob_pos is None
    &&& g.disoob_pos is None
    &&& g.tlsrec_pos is None
    &&& g.fake_ttl is None
    &&& !g.auto_ttl
    &&& g.md5sig is None
    &&& g.fake_tls_mod is None
    &&& g.fake_sni is None
    &&& g.fake_data is None
    &&& g.mod_http is None
    &&& g.tlsminor is None
    &&& g.hosts is None
    &&& g.hostlist is None
    &&& g.repeat_count is None
    &&& g.cache_ttl is None
    &&& g.auto is None
    &&& g.timeout is None
    &&& g.auto_mode is None
    &&& g.desync_any_protocol is None
    &&& g.desync_fooling is None
    &&& g.fake_resend is None
    &&& g.warp_config is None
    &&& !g.gool_enabled
    &&& !g.psiphon_enabled
    &&& g.psiphon_country is None
    &&& !g.scan_enabled
    &&& g.reserved is None
    &&& g.extra_args@.len() == 0
    &&& g.bat_file_name is None
    &&& g.source_bat_path is None
    &&& g.orchestrator_enabled
    &&& g.last_verification_score is None
    &&& g.last_verified_at is None
}

/// The genome carries the default value of every parameter and metadata
/// field, for the given engine and origin (id and creation time aside).
pub open spec fn has_default_fields(g: StrategyGenome, engine_type: DpiEngineType, origin: StrategyOrigin) -> bool {
    &&& base_defaults(g, engine_type, origin)
    &&& g.filter_tcp@ == Seq::<char>::empty()
    &&& g.filter_udp@ == Seq::<char>::empty()
    &&& g.desync_mode@ == "split"@
    &&& g.disorder_pos is None
    &&& g.mtu is None
    &&& g.display_name@ == Seq::<char>::empty()
}

impl Clone for StrategyGenome {
    fn clone(&self) -> (r: Self)
        ensures
            r@ == self@,
    {
        let parent_ids = self.parent_ids.clone();
        assert(parent_ids@ =~= self.parent_ids@);
        let extra_args = clone_strings(&self.extra_args);
        let r = StrategyGenome {
            id: self.id,
            parent_ids,
            generation: self.generation,
            origin: self.origin,
            engine_type: self.engine_type,
            filter_tcp: self.filter_tcp.clone(),
            filter_udp: self.filter_udp.clone(),
            desync_mode: self.desync_mode.clone(),
            split_pos: self.split_pos,
            split_pos_semantic: clone_opt_string(&self.split_pos_semantic),
            disorder_pos: clone_opt_string(&self.disorder_pos),
            fake_pos: clone_opt_string(&self.fake_pos),
            oob_pos: clone_opt_string(&self.oob_pos),
            disoob_pos: clone_opt_string(&self.disoob_pos),
            tlsrec_pos: clone_opt_string(&self.tlsrec_pos),
            fake_ttl: self.fake_ttl,
            auto_ttl: self.auto_ttl,
            md5sig: self.md5sig,
            fake_tls_mod: clone_opt_string(&self.fake_tls_mod),
            fake_sni: clone_opt_string(&self.fake_sni),
            fake_data: clone_opt_string(&self.fake_data),
            mod_http: clone_opt_string(&self.mod_http),
            tlsminor: self.tlsminor,
            hosts: clone_opt_string(&self.hosts),
            hostlist: clone_opt_string(&self.hostlist),
            repeat_count: self.repeat_count,
            cache_ttl: self.cache_ttl,
            auto: clone_opt_string(&self.auto),
            timeout: self.timeout,
            auto_mode: self.auto_mode,
            desync_any_protocol: clone_opt_string(&self.desync_any_protocol),
            desync_fooling: clone_opt_string(&self.desync_fooling),
            fake_resend: clone_opt_string(&self.fake_resend),
            warp_config: clone_opt_string(&self.warp_config),
            mtu: self.mtu,
            gool_enabled: self.gool_enabled,
            psiphon_enabled: self.psiphon_enabled,
            psiphon_country: clone_opt_string(&self.psiphon_country),
            scan_enabled: self.scan_enabled,
            reserved: clone_opt_string(&self.reserved),
            extra_args,
            display_name: self.display_name.clone(),
            bat_file_name: clone_opt_string(&self.bat_file_name),
            source_bat_path: clone_opt_string(&self.source_bat_path),
            created_at: self.created_at,
            orchestrator_enabled: self.orchestrator_enabled,
            last_verification_score: self.last_verification_score,
            last_verified_at: self.last_verified_at,
        };
        r
    }
}

impl StrategyGenome {
    /// A new genome with default values, a fresh random id and the current time.
    pub fn new(engine_type: DpiEngineType, origin: StrategyOrigin) -> (g: Self)
        ensures
            has_default_fields(g, engine_type, origin),
    {
        StrategyGenome {
            id: fresh_id(),
            parent_ids: Vec::new(),
            generation: 0,
            origin,
            engine_type,
            filter_tcp: String::new(),
            filter_udp: String::new(),
            desync_mode: String::from_str("split"),
            split_pos: None,
            split_pos_semantic: None,
            disorder_pos: None,
            fake_pos: None,
            oob_pos: None,
            disoob_pos: None,
            tlsrec_pos: None,
            fake_ttl: None,
            auto_ttl: false,
            md5sig: None,
            fake_tls_mod: None,
            fake_sni: None,
            fake_data: None,
            mod_http: None,
            tlsminor: None,
            hosts: None,
            hostlist: None,
            repeat_count: None,
            cache_ttl: None,
            auto: None,
            timeout: None,
            auto_mode: None,
            desync_any_protocol: None,
            desync_fooling: None,
            fake_resend: None,
            warp_config: None,
            mtu: None,
            gool_enabled: false,
            psiphon_enabled: false,
            psiphon_country: None,
            scan_enabled: false,
            reserved: None,
            extra_args: Vec::new(),
            display_name: String::new(),
            bat_file_name: None,
            source_bat_path: None,
            created_at: now_millis(),
            orchestrator_enabled: true,
            last_verification_score: None,
            last_verified_at: None,
        }
    }

    /// The standard Zapret genome: split desync on TCP 80 / UDP 443.
    pub fn default_zapret() -> (g: Self)
        ensures
            base_defaults(g, DpiEngineType::Zapret, StrategyOrigin::Builtin),
            g.desync_mode@ == "split"@,
            g.filter_tcp@ == "80"@,
            g.filter_udp@ == "443"@,
            g.disorder_pos is None,
            g.mtu is None,
            g.display_name@ == "zapret-default"@,
    {
        let mut g = Self::new(DpiEngineType::Zapret, StrategyOrigin::Builtin);
        g.desync_mode = String::from_str("split");
        g.filter_tcp = String::from_str("80");
        g.filter_udp = String::from_str("443");
        g.display_name = String::from_str("zapret-default");
        g
    }

    /// The standard ByeDPI genome: split desync with disorder at `1+s`.
    pub fn default_byedpi() -> (g: Self)
        ensures
            base_defaults(g, DpiEngineType::ByeDpi, StrategyOrigin::Builtin),
            g.desync_mode@ == "split"@,
            g.filter_tcp@ == Seq::<char>::empty(),
            g.filter_udp@ == Seq::<char>::empty(),
            g.disorder_pos matches Some(p) && p@ == "1+s"@,
            g.mtu is None,
            g.display_name@ == "byedpi-default"@,
    {
        let mut g = Self::new(DpiEngineType::ByeDpi, StrategyOrigin::Builtin);
        g.desync_mode = String::from_str("split");
        g.disorder_pos = Some(String::from_str("1+s"));
        g.display_name = String::from_str("byedpi-default");
        g
    }

    /// The standard Warp genome: MTU 1280.
    pub fn default_warp() -> (g: Self)
        ensures
            base_defaults(g, DpiEngineType::Warp, StrategyOrigin::Builtin),
            g.desync_mode@ == "split"@,
            g.filter_tcp@ == Seq::<char>::empty(),
            g.filter_udp@ == Seq::<char>::empty(),
            g.disorder_pos is None,
            g.mtu == Some(1280i32),
            g.display_name@ == "warp-default"@,
    {
        let mut g = Self::new(DpiEngineType::Warp, StrategyOrigin::Builtin);
        g.mtu = Some(1280);
        g.display_name = String::from_str("warp-default");
        g
    }
}

} // verus!
