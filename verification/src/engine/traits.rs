//! Common types of the DPI engines.

use vstd::prelude::*;
use crate::engine::args::{flag_if, has_pair, lemma_flag_pair, lemma_nonempty_texts_keep, lemma_parts_of_line, lemma_single, nonempty_pair, nonempty_texts, opt_num_pair, opt_pair, push_flag_if, push_literal, push_nonempty_pair, push_nonempty_texts, push_number, push_opt_num_pair, push_opt_pair, texts};
use crate::outside::now_millis;
use crate::text::dec_digits;

verus! {

/// Status of a DPI engine.
#[derive(Debug, Clone, Copy, PartialEq, Eq, Structural)]
pub enum EngineStatus {
    Stopped,
    Starting,
    Running,
    Failed,
    Crashed,
}

/// Display text of a status.
pub open spec fn status_name(s: EngineStatus) -> Seq<char> {
    match s {
        EngineStatus::Stopped => "stopped"@,
        EngineStatus::Starting => "starting"@,
        EngineStatus::Running => "running"@,
        EngineStatus::Failed => "failed"@,
        EngineStatus::Crashed => "crashed"@,
    }
}

impl EngineStatus {
    pub fn is_running(&self) -> (r: bool)
        ensures
            r == (*self == EngineStatus::Running),
    {
        matches!(self, EngineStatus::Running)
    }

    pub fn is_active(&self) -> (r: bool)
        ensures
            r == (*self == EngineStatus::Starting || *self == EngineStatus::Running),
    {
        matches!(self, EngineStatus::Starting | EngineStatus::Running)
    }

    /// Display text of this status.
    pub fn to_string(&self) -> (r: String)
        ensures
            r@ == status_name(*self),
    {
        match self {
            EngineStatus::Stopped => String::from_str("stopped"),
            EngineStatus::Starting => String::from_str("starting"),
            EngineStatus::Running => String::from_str("running"),
            EngineStatus::Failed => String::from_str("failed"),
            EngineStatus::Crashed => String::from_str("crashed"),
        }
    }
}

/// Information about a running engine process.
#[derive(Debug)]
pub struct EngineProcessInfo {
    pub pid: u32,
    pub process_name: String,
    pub status: EngineStatus,
    /// Start time (ms since the Unix epoch).
    pub started_at: i64,
    pub socks_port: Option<u16>,
}

impl EngineProcessInfo {
    /// A running process record, stamped with the current time.
    pub fn new(pid: u32, process_name: &str, socks_port: Option<u16>) -> (r: Self)
        ensures
            r.pid == pid,
            r.process_name@ == process_name@,
            r.status == EngineStatus::Running,
            r.socks_port == socks_port,
    {
        EngineProcessInfo {
            pid,
            process_name: String::from_str(process_name),
            status: EngineStatus::Running,
            started_at: now_millis(),
            socks_port,
        }
    }
}

/// An event from an engine.
#[derive(Debug, Clone)]
pub enum EngineEvent {
    StatusChanged(EngineStatus),
    MessageReceived(String),
    Error(String),
}

/// Errors of a DPI engine.
#[derive(Debug, PartialEq, Eq)]
pub enum EngineError {
    AlreadyRunning,
    NotRunning,
    ExecutableNotFound(String),
    StartFailed(String),
    StopFailed(String),
    ProbeFailed(String),
    Disposed,
}

/// Display text of an engine error.
pub open spec fn engine_error_text(e: EngineError) -> Seq<char> {
    match e {
        EngineError::AlreadyRunning => "engine already running"@,
        EngineError::NotRunning => "engine not running"@,
        EngineError::ExecutableNotFound(p) => "executable not found: "@ + p@,
        EngineError::StartFailed(m) => "start failed: "@ + m@,
        EngineError::StopFailed(m) => "stop failed: "@ + m@,
        EngineError::ProbeFailed(m) => "probe failed: "@ + m@,
        EngineError::Disposed => "engine disposed"@,
    }
}

fn prefixed(prefix: &str, m: &String) -> (r: String)
    ensures
        r@ == prefix@ + m@,
{
    let mut s = String::from_str(prefix);
    s.append(m.as_str());
    s
}

impl EngineError {
    /// Display text of this error.
    pub fn to_string(&self) -> (r: String)
        ensures
            r@ == engine_error_text(*self),
    {
        match self {
            EngineError::AlreadyRunning => String::from_str("engine already running"),
            EngineError::NotRunning => String::from_str("engine not running"),
            EngineError::ExecutableNotFound(p) => prefixed("executable not found: ", p),
            EngineError::StartFailed(m) => prefixed("start failed: ", m),
            EngineError::StopFailed(m) => prefixed("stop failed: ", m),
            EngineError::ProbeFailed(m) => prefixed("probe failed: ", m),
            EngineError::Disposed => String::from_str("engine disposed"),
        }
    }
}

/// Type of DPI engine.
#[derive(Debug, Clone, Copy, PartialEq, Eq, Structural)]
pub enum DpiEngineType {
    Zapret,
    ByeDpi,
    Warp,
}

/// The lowercase name of an engine type.
pub open spec fn engine_type_name(t: DpiEngineType) -> Seq<char> {
    match t {
        DpiEngineType::Zapret => "zapret"@,
        DpiEngineType::ByeDpi => "byedpi"@,
        DpiEngineType::Warp => "warp"@,
    }
}

impl DpiEngineType {
    pub fn as_str(&self) -> (r: &'static str)
        ensures
            r@ == engine_type_name(*self),
    {
        match self {
            DpiEngineType::Zapret => "zapret",
            DpiEngineType::ByeDpi => "byedpi",
            DpiEngineType::Warp => "warp",
        }
    }
}

/// DPI engine profile: the command-line parameters of an engine run.
#[derive(Debug)]
pub struct EngineProfile {
    pub engine_type: DpiEngineType,
    pub socks_port: u16,
    pub filter_tcp: String,
    pub filter_udp: String,
    pub desync_mode: String,
    pub split_pos: Option<String>,
    pub disorder_pos: Option<String>,
    pub fake_pos: Option<String>,
    pub oob_pos: Option<String>,
    pub disoob_pos: Option<String>,
    pub tlsrec_pos: Option<String>,
    pub fake_ttl: Option<u32>,
    pub auto_ttl: bool,
    pub md5sig: Option<bool>,
    pub fake_tls_mod: Option<String>,
    pub fake_sni: Option<String>,
    pub fake_data: Option<String>,
    pub mod_http: Option<String>,
    pub tlsminor: Option<u32>,
    pub hosts: Option<String>,
    pub hostlist: Option<String>,
    pub repeat_count: Option<u32>,
    pub cache_ttl: Option<u32>,
    pub auto: Option<String>,
    pub timeout: Option<u32>,
    pub auto_mode: Option<u32>,
    pub desync_any_protocol: Option<String>,
    pub desync_fooling: Option<String>,
    pub fake_resend: Option<String>,
    pub warp_config: Option<String>,
    pub mtu: Option<u32>,
    pub gool_enabled: bool,
    pub psiphon_enabled: bool,
    pub psiphon_country: Option<String>,
    pub scan_enabled: bool,
    pub reserved: Option<String>,
    pub extra_args: Vec<String>,
}

/// The profile holds the default values: Zapret, SOCKS port 1080, split
/// desync, every other option unset, no extra arguments.
pub open spec fn is_default_profile(p: EngineProfile) -> bool {
    &&& p.engine_type == DpiEngineType::Zapret
    &&& p.socks_port == 1080
    &&& p.filter_tcp@ == Seq::<char>::empty()
    &&& p.filter_udp@ == Seq::<char>::empty()
    &&& p.desync_mode@ == "split"@
    &&& p.split_pos is None
    &&& p.disorder_pos is None
    &&& p.fake_pos is None
    &&& p.oob_pos is None
    &&& p.disoob_pos is None
    &&& p.tlsrec_pos is None
    &&& p.fake_ttl is None
    &&& !p.auto_ttl
    &&& p.md5sig is None
    &&& p.fake_tls_mod is None
    &&& p.fake_sni is None
    &&& p.fake_data is None
    &&& p.mod_http is None
    &&& p.tlsminor is None
    &&& p.hosts is None
    &&& p.hostlist is None
    &&& p.repeat_count is None
    &&& p.cache_ttl is None
    &&& p.auto is None
    &&& p.timeout is None
    &&& p.auto_mode is None
    &&& p.desync_any_protocol is None
    &&& p.desync_fooling is None
    &&& p.fake_resend is None
    &&& p.warp_config is None
    &&& p.mtu is None
    &&& !p.gool_enabled
    &&& !p.psiphon_enabled
    &&& p.psiphon_country is None
    &&& !p.scan_enabled
    &&& p.reserved is None
    &&& p.extra_args@.len() == 0
}

impl Default for EngineProfile {
    fn default() -> (p: Self)
        ensures
            is_default_profile(p),
    {
        EngineProfile {
            engine_type: DpiEngineType::Zapret,
            socks_port: 1080,
            filter_tcp: String::new(),
            filter_udp: String::new(),
            desync_mode: String::from_str("split"),
            split_pos: None,
            disorder_pos: None,
            fake_pos: None,
            oob_pos: None,
            disoob_pos: None,
            tlsrec_pos: None,
            fake_ttl: None,
            auto_ttl: false,
            md5sig: None,
            fake_tls_mod: None,
            fake_sni: None,
            fake_data: None,
            mod_http: None,
            tlsminor: None,
            hosts: None,
            hostlist: None,
            repeat_count: None,
            cache_ttl: None,
            auto: None,
            timeout: None,
            auto_mode: None,
            desync_any_protocol: None,
            desync_fooling: None,
            fake_resend: None,
            warp_config: None,
            mtu: None,
            gool_enabled: false,
            psiphon_enabled: false,
            psiphon_country: None,
            scan_enabled: false,
            reserved: None,
            extra_args: Vec::new(),
        }
    }
}

/// The Zapret command line of a profile: filters and desync mode when non-empty,
/// each set option as a flag and its value, the auto-TTL flag, the non-empty
/// extra arguments, and `--new` last.
pub open spec fn zapret_args(p: EngineProfile) -> Seq<Seq<char>> {
    Seq::<Seq<char>>::empty()
        + nonempty_pair("--filter-tcp"@, p.filter_tcp@)
        + nonempty_pair("--filter-udp"@, p.filter_udp@)
        + nonempty_pair("--dpi-desync"@, p.desync_mode@)
        + opt_pair("--dpi-desync-split-pos"@, p.split_pos)
        + opt_pair("--dpi-desync-disorder-pos"@, p.disorder_pos)
        + opt_pair("--dpi-desync-fake-pos"@, p.fake_pos)
        + opt_pair("--dpi-desync-oob-pos"@, p.oob_pos)
        + opt_pair("--dpi-desync-disoob-pos"@, p.disoob_pos)
        + opt_pair("--dpi-desync-tlsrec-pos"@, p.tlsrec_pos)
        + opt_num_pair("--dpi-desync-ttl"@, p.fake_ttl)
        + flag_if("--dpi-desync-autottl"@, p.auto_ttl)
        + opt_pair("--dpi-desync-fake-tls-mod"@, p.fake_tls_mod)
        + opt_pair("--dpi-desync-fooling"@, p.desync_fooling)
        + opt_num_pair("--dpi-desync-repeats"@, p.repeat_count)
        + opt_pair("--hostlist"@, p.hostlist)
        + nonempty_texts(p.extra_args@)
        + seq!["--new"@]
}

/// The ByeDPI command line of a profile: `-p` and the SOCKS port, each set option
/// as a flag and its value, `--md5sig` when it is set to true, and the
/// non-empty extra arguments.
pub open spec fn byedpi_args(p: EngineProfile) -> Seq<Seq<char>> {
    Seq::<Seq<char>>::empty()
        + seq!["-p"@] + seq![dec_digits(p.socks_port as nat)]
        + opt_pair("--split"@, p.split_pos)
        + opt_pair("--disorder"@, p.disorder_pos)
        + opt_pair("--fake"@, p.fake_pos)
        + opt_pair("--oob"@, p.oob_pos)
        + opt_pair("--disoob"@, p.disoob_pos)
        + opt_pair("--tlsrec"@, p.tlsrec_pos)
        + opt_num_pair("--ttl"@, p.fake_ttl)
        + flag_if("--md5sig"@, p.md5sig == Some(true))
        + opt_pair("--fake-tls-mod"@, p.fake_tls_mod)
        + opt_pair("--fake-sni"@, p.fake_sni)
        + opt_pair("--fake-data"@, p.fake_data)
        + opt_pair("--mod-http"@, p.mod_http)
        + opt_num_pair("--tlsminor"@, p.tlsminor)
        + opt_pair("--hosts"@, p.hosts)
        + opt_num_pair("--cache-ttl"@, p.cache_ttl)
        + opt_pair("--auto"@, p.auto)
        + opt_num_pair("--timeout"@, p.timeout)
        + opt_num_pair("--auto-mode"@, p.auto_mode)
        + nonempty_texts(p.extra_args@)
}

proof fn lemma_zapret_args_filter_tcp(p: EngineProfile)
    ensures
        p.filter_tcp@.len() > 0 ==> has_pair(zapret_args(p), "--filter-tcp"@, p.filter_tcp@),
{
    if p.filter_tcp@.len() > 0 {
        lemma_parts_of_line();
        lemma_flag_pair("--filter-tcp"@, p.filter_tcp@);
    }
}

proof fn lemma_zapret_args_filter_udp(p: EngineProfile)
    ensures
        p.filter_udp@.len() > 0 ==> has_pair(zapret_args(p), "--filter-udp"@, p.filter_udp@),
{
    if p.filter_udp@.len() > 0 {
        lemma_parts_of_line();
        lemma_flag_pair("--filter-udp"@, p.filter_udp@);
    }
}

proof fn lemma_zapret_args_desync_mode(p: EngineProfile)
    ensures
        p.desync_mode@.len() > 0 ==> has_pair(zapret_args(p), "--dpi-desync"@, p.desync_mode@),
{
    if p.desync_mode@.len() > 0 {
        lemma_parts_of_line();
        lemma_flag_pair("--dpi-desync"@, p.desync_mode@);
    }
}

proof fn lemma_zapret_args_split_pos(p: EngineProfile)
    ensures
        (p.split_pos matches Some(x) ==> has_pair(zapret_args(p), "--dpi-desync-split-pos"@, x@)),
{
    if let Some(x) = p.split_pos {
        lemma_parts_of_line();
        lemma_flag_pair("--dpi-desync-split-pos"@, x@);
    }
}

proof fn lemma_zapret_args_disorder_pos(p: EngineProfile)
    ensures
        (p.disorder_pos matches Some(x) ==> has_pair(zapret_args(p), "--dpi-desync-disorder-pos"@, x@)),
{
    if let Some(x) = p.disorder_pos {
        lemma_parts_of_line();
        lemma_flag_pair("--dpi-desync-disorder-pos"@, x@);
    }
}

proof fn lemma_zapret_args_fake_pos(p: EngineProfile)
    ensures
        (p.fake_pos matches Some(x) ==> has_pair(zapret_args(p), "--dpi-desync-fake-pos"@, x@)),
{
    if let Some(x) = p.fake_pos {
        lemma_parts_of_line();
        lemma_flag_pair("--dpi-desync-fake-pos"@, x@);
    }
}

proof fn lemma_zapret_args_oob_pos(p: EngineProfile)
    ensures
        (p.oob_pos matches Some(x) ==> has_pair(zapret_args(p), "--dpi-desync-oob-pos"@, x@)),
{
    if let Some(x) = p.oob_pos {
        lemma_parts_of_line();
        lemma_flag_pair("--dpi-desync-oob-pos"@, x@);
    }
}

proof fn lemma_zapret_args_disoob_pos(p: EngineProfile)
    ensures
        (p.disoob_pos matches Some(x) ==> has_pair(zapret_args(p), "--dpi-desync-disoob-pos"@, x@)),
{
    if let Some(x) = p.disoob_pos {
        lemma_parts_of_line();
        lemma_flag_pair("--dpi-desync-disoob-pos"@, x@);
    }
}

proof fn lemma_zapret_args_tlsrec_pos(p: EngineProfile)
    ensures
        (p.tlsrec_pos matches Some(x) ==> has_pair(zapret_args(p), "--dpi-desync-tlsrec-pos"@, x@)),
{
    if let Some(x) = p.tlsrec_pos {
        lemma_parts_of_line();
        lemma_flag_pair("--dpi-desync-tlsrec-pos"@, x@);
    }
}

proof fn lemma_zapret_args_fake_ttl(p: EngineProfile)
    ensures
        (p.fake_ttl matches Some(x) ==> has_pair(zapret_args(p), "--dpi-desync-ttl"@, dec_digits(x as nat))),
{
    if let Some(x) = p.fake_ttl {
        lemma_parts_of_line();
        lemma_flag_pair("--dpi-desync-ttl"@, dec_digits(x as nat));
    }
}

proof fn lemma_zapret_args_auto_ttl(p: EngineProfile)
    ensures
        p.auto_ttl ==> zapret_args(p).contains("--dpi-desync-autottl"@),
{
    lemma_parts_of_line();
    lemma_single("--dpi-desync-autottl"@);
}

proof fn lemma_zapret_args_fake_tls_mod(p: EngineProfile)
    ensures
        (p.fake_tls_mod matches Some(x) ==> has_pair(zapret_args(p), "--dpi-desync-fake-tls-mod"@, x@)),
{
    if let Some(x) = p.fake_tls_mod {
        lemma_parts_of_line();
        lemma_flag_pair("--dpi-desync-fake-tls-mod"@, x@);
    }
}

proof fn lemma_zapret_args_desync_fooling(p: EngineProfile)
    ensures
        (p.desync_fooling matches Some(x) ==> has_pair(zapret_args(p), "--dpi-desync-fooling"@, x@)),
{
    if let Some(x) = p.desync_fooling {
        lemma_parts_of_line();
        lemma_flag_pair("--dpi-desync-fooling"@, x@);
    }
}

proof fn lemma_zapret_args_repeat_count(p: EngineProfile)
    ensures
        (p.repeat_count matches Some(x) ==> has_pair(zapret_args(p), "--dpi-desync-repeats"@, dec_digits(x as nat))),
{
    if let Some(x) = p.repeat_count {
        lemma_parts_of_line();
        lemma_flag_pair("--dpi-desync-repeats"@, dec_digits(x as nat));
    }
}

proof fn lemma_zapret_args_hostlist(p: EngineProfile)
    ensures
        (p.hostlist matches Some(x) ==> has_pair(zapret_args(p), "--hostlist"@, x@)),
{
    if let Some(x) = p.hostlist {
        lemma_parts_of_line();
        lemma_flag_pair("--hostlist"@, x@);
    }
}

proof fn lemma_zapret_args_extra(p: EngineProfile)
    ensures
        forall|k: int|
            0 <= k < p.extra_args@.len() && p.extra_args@[k]@.len() > 0 ==> zapret_args(p).contains(
                #[trigger] p.extra_args@[k]@,
            ),
{
    lemma_parts_of_line();
    lemma_nonempty_texts_keep(p.extra_args@);
}

/// Every option that a profile sets reaches the Zapret command line as its
/// flag immediately followed by its value (a non-empty filter or desync
/// mode, each set position, TTL, TLS mod, fooling, repeat count and host
/// list); the auto-TTL flag stands in it when set; every non-empty extra
/// argument stands in it; and `--new` ends it.
pub proof fn zapret_line_carries_every_option(p: EngineProfile)
    ensures
        p.filter_tcp@.len() > 0 ==> has_pair(zapret_args(p), "--filter-tcp"@, p.filter_tcp@),
        p.filter_udp@.len() > 0 ==> has_pair(zapret_args(p), "--filter-udp"@, p.filter_udp@),
        p.desync_mode@.len() > 0 ==> has_pair(zapret_args(p), "--dpi-desync"@, p.desync_mode@),
        (p.split_pos matches Some(x) ==> has_pair(zapret_args(p), "--dpi-desync-split-pos"@, x@)),
        (p.disorder_pos matches Some(x) ==> has_pair(zapret_args(p), "--dpi-desync-disorder-pos"@, x@)),
        (p.fake_pos matches Some(x) ==> has_pair(zapret_args(p), "--dpi-desync-fake-pos"@, x@)),
        (p.oob_pos matches Some(x) ==> has_pair(zapret_args(p), "--dpi-desync-oob-pos"@, x@)),
        (p.disoob_pos matches Some(x) ==> has_pair(zapret_args(p), "--dpi-desync-disoob-pos"@, x@)),
        (p.tlsrec_pos matches Some(x) ==> has_pair(zapret_args(p), "--dpi-desync-tlsrec-pos"@, x@)),
        (p.fake_ttl matches Some(x) ==> has_pair(zapret_args(p), "--dpi-desync-ttl"@, dec_digits(x as nat))),
        p.auto_ttl ==> zapret_args(p).contains("--dpi-desync-autottl"@),
        (p.fake_tls_mod matches Some(x) ==> has_pair(zapret_args(p), "--dpi-desync-fake-tls-mod"@, x@)),
        (p.desync_fooling matches Some(x) ==> has_pair(zapret_args(p), "--dpi-desync-fooling"@, x@)),
        (p.repeat_count matches Some(x) ==> has_pair(zapret_args(p), "--dpi-desync-repeats"@, dec_digits(x as nat))),
        (p.hostlist matches Some(x) ==> has_pair(zapret_args(p), "--hostlist"@, x@)),
        forall|k: int|
            0 <= k < p.extra_args@.len() && p.extra_args@[k]@.len() > 0 ==> zapret_args(p).contains(
                #[trigger] p.extra_args@[k]@,
            ),
        zapret_args(p).last() == "--new"@,
{
    lemma_zapret_args_filter_tcp(p);
    lemma_zapret_args_filter_udp(p);
    lemma_zapret_args_desync_mode(p);
    lemma_zapret_args_split_pos(p);
    lemma_zapret_args_disorder_pos(p);
    lemma_zapret_args_fake_pos(p);
    lemma_zapret_args_oob_pos(p);
    lemma_zapret_args_disoob_pos(p);
    lemma_zapret_args_tlsrec_pos(p);
    lemma_zapret_args_fake_ttl(p);
    lemma_zapret_args_auto_ttl(p);
    lemma_zapret_args_fake_tls_mod(p);
    lemma_zapret_args_desync_fooling(p);
    lemma_zapret_args_repeat_count(p);
    lemma_zapret_args_hostlist(p);
    lemma_zapret_args_extra(p);
}

proof fn lemma_byedpi_args_port(p: EngineProfile)
    ensures
        has_pair(byedpi_args(p), "-p"@, dec_digits(p.socks_port as nat)),
{
    lemma_parts_of_line();
    lemma_flag_pair("-p"@, dec_digits(p.socks_port as nat));
    assert(seq!["-p"@] + seq![dec_digits(p.socks_port as nat)] =~= seq!["-p"@, dec_digits(p.socks_port as nat)]);
}

proof fn lemma_byedpi_args_split_pos(p: EngineProfile)
    ensures
        (p.split_pos matches Some(x) ==> has_pair(byedpi_args(p), "--split"@, x@)),
{
    if let Some(x) = p.split_pos {
        lemma_parts_of_line();
        lemma_flag_pair("--split"@, x@);
    }
}

proof fn lemma_byedpi_args_disorder_pos(p: EngineProfile)
    ensures
        (p.disorder_pos matches Some(x) ==> has_pair(byedpi_args(p), "--disorder"@, x@)),
{
    if let Some(x) = p.disorder_pos {
        lemma_parts_of_line();
        lemma_flag_pair("--disorder"@, x@);
    }
}

proof fn lemma_byedpi_args_fake_pos(p: EngineProfile)
    ensures
        (p.fake_pos matches Some(x) ==> has_pair(byedpi_args(p), "--fake"@, x@)),
{
    if let Some(x) = p.fake_pos {
        lemma_parts_of_line();
        lemma_flag_pair("--fake"@, x@);
    }
}

proof fn lemma_byedpi_args_oob_pos(p: EngineProfile)
    ensures
        (p.oob_pos matches Some(x) ==> has_pair(byedpi_args(p), "--oob"@, x@)),
{
    if let Some(x) = p.oob_pos {
        lemma_parts_of_line();
        lemma_flag_pair("--oob"@, x@);
    }
}

proof fn lemma_byedpi_args_disoob_pos(p: EngineProfile)
    ensures
        (p.disoob_pos matches Some(x) ==> has_pair(byedpi_args(p), "--disoob"@, x@)),
{
    if let Some(x) = p.disoob_pos {
        lemma_parts_of_line();
        lemma_flag_pair("--disoob"@, x@);
    }
}

proof fn lemma_byedpi_args_tlsrec_pos(p: EngineProfile)
    ensures
        (p.tlsrec_pos matches Some(x) ==> has_pair(byedpi_args(p), "--tlsrec"@, x@)),
{
    if let Some(x) = p.tlsrec_pos {
        lemma_parts_of_line();
        lemma_flag_pair("--tlsrec"@, x@);
    }
}

proof fn lemma_byedpi_args_fake_ttl(p: EngineProfile)
    ensures
        (p.fake_ttl matches Some(x) ==> has_pair(byedpi_args(p), "--ttl"@, dec_digits(x as nat))),
{
    if let Some(x) = p.fake_ttl {
        lemma_parts_of_line();
        lemma_flag_pair("--ttl"@, dec_digits(x as nat));
    }
}

proof fn lemma_byedpi_args_md5sig(p: EngineProfile)
    ensures
        p.md5sig == Some(true) ==> byedpi_args(p).contains("--md5sig"@),
{
    lemma_parts_of_line();
    lemma_single("--md5sig"@);
}

proof fn lemma_byedpi_args_fake_tls_mod(p: EngineProfile)
    ensures
        (p.fake_tls_mod matches Some(x) ==> has_pair(byedpi_args(p), "--fake-tls-mod"@, x@)),
{
    if let Some(x) = p.fake_tls_mod {
        lemma_parts_of_line();
        lemma_flag_pair("--fake-tls-mod"@, x@);
    }
}

proof fn lemma_byedpi_args_fake_sni(p: EngineProfile)
    ensures
        (p.fake_sni matches Some(x) ==> has_pair(byedpi_args(p), "--fake-sni"@, x@)),
{
    if let Some(x) = p.fake_sni {
        lemma_parts_of_line();
        lemma_flag_pair("--fake-sni"@, x@);
    }
}

proof fn lemma_byedpi_args_fake_data(p: EngineProfile)
    ensures
        (p.fake_data matches Some(x) ==> has_pair(byedpi_args(p), "--fake-data"@, x@)),
{
    if let Some(x) = p.fake_data {
        lemma_parts_of_line();
        lemma_flag_pair("--fake-data"@, x@);
    }
}

proof fn lemma_byedpi_args_mod_http(p: EngineProfile)
    ensures
        (p.mod_http matches Some(x) ==> has_pair(byedpi_args(p), "--mod-http"@, x@)),
{
    if let Some(x) = p.mod_http {
        lemma_parts_of_line();
        lemma_flag_pair("--mod-http"@, x@);
    }
}

proof fn lemma_byedpi_args_tlsminor(p: EngineProfile)
    ensures
        (p.tlsminor matches Some(x) ==> has_pair(byedpi_args(p), "--tlsminor"@, dec_digits(x as nat))),
{
    if let Some(x) = p.tlsminor {
        lemma_parts_of_line();
        lemma_flag_pair("--tlsminor"@, dec_digits(x as nat));
    }
}

proof fn lemma_byedpi_args_hosts(p: EngineProfile)
    ensures
        (p.hosts matches Some(x) ==> has_pair(byedpi_args(p), "--hosts"@, x@)),
{
    if let Some(x) = p.hosts {
        lemma_parts_of_line();
        lemma_flag_pair("--hosts"@, x@);
    }
}

proof fn lemma_byedpi_args_cache_ttl(p: EngineProfile)
    ensures
        (p.cache_ttl matches Some(x) ==> has_pair(byedpi_args(p), "--cache-ttl"@, dec_digits(x as nat))),
{
    if let Some(x) = p.cache_ttl {
        lemma_parts_of_line();
        lemma_flag_pair("--cache-ttl"@, dec_digits(x as nat));
    }
}

proof fn lemma_byedpi_args_auto(p: EngineProfile)
    ensures
        (p.auto matches Some(x) ==> has_pair(byedpi_args(p), "--auto"@, x@)),
{
    if let Some(x) = p.auto {
        lemma_parts_of_line();
        lemma_flag_pair("--auto"@, x@);
    }
}

proof fn lemma_byedpi_args_timeout(p: EngineProfile)
    ensures
        (p.timeout matches Some(x) ==> has_pair(byedpi_args(p), "--timeout"@, dec_digits(x as nat))),
{
    if let Some(x) = p.timeout {
        lemma_parts_of_line();
        lemma_flag_pair("--timeout"@, dec_digits(x as nat));
    }
}

proof fn lemma_byedpi_args_auto_mode(p: EngineProfile)
    ensures
        (p.auto_mode matches Some(x) ==> has_pair(byedpi_args(p), "--auto-mode"@, dec_digits(x as nat))),
{
    if let Some(x) = p.auto_mode {
        lemma_parts_of_line();
        lemma_flag_pair("--auto-mode"@, dec_digits(x as nat));
    }
}

proof fn lemma_byedpi_args_extra(p: EngineProfile)
    ensures
        forall|k: int|
            0 <= k < p.extra_args@.len() && p.extra_args@[k]@.len() > 0 ==> byedpi_args(p).contains(
                #[trigger] p.extra_args@[k]@,
            ),
{
    lemma_parts_of_line();
    lemma_nonempty_texts_keep(p.extra_args@);
}

/// Every option that a profile sets reaches the ByeDPI command line as its
/// flag immediately followed by its value, the SOCKS port after `-p`;
/// `--md5sig` stands in it when MD5 signatures are on; every non-empty extra
/// argument stands in it.
pub proof fn byedpi_line_carries_every_option(p: EngineProfile)
    ensures
        has_pair(byedpi_args(p), "-p"@, dec_digits(p.socks_port as nat)),
        (p.split_pos matches Some(x) ==> has_pair(byedpi_args(p), "--split"@, x@)),
        (p.disorder_pos matches Some(x) ==> has_pair(byedpi_args(p), "--disorder"@, x@)),
        (p.fake_pos matches Some(x) ==> has_pair(byedpi_args(p), "--fake"@, x@)),
        (p.oob_pos matches Some(x) ==> has_pair(byedpi_args(p), "--oob"@, x@)),
        (p.disoob_pos matches Some(x) ==> has_pair(byedpi_args(p), "--disoob"@, x@)),
        (p.tlsrec_pos matches Some(x) ==> has_pair(byedpi_args(p), "--tlsrec"@, x@)),
        (p.fake_ttl matches Some(x) ==> has_pair(byedpi_args(p), "--ttl"@, dec_digits(x as nat))),
        p.md5sig == Some(true) ==> byedpi_args(p).contains("--md5sig"@),
        (p.fake_tls_mod matches Some(x) ==> has_pair(byedpi_args(p), "--fake-tls-mod"@, x@)),
        (p.fake_sni matches Some(x) ==> has_pair(byedpi_args(p), "--fake-sni"@, x@)),
        (p.fake_data matches Some(x) ==> has_pair(byedpi_args(p), "--fake-data"@, x@)),
        (p.mod_http matches Some(x) ==> has_pair(byedpi_args(p), "--mod-http"@, x@)),
        (p.tlsminor matches Some(x) ==> has_pair(byedpi_args(p), "--tlsminor"@, dec_digits(x as nat))),
        (p.hosts matches Some(x) ==> has_pair(byedpi_args(p), "--hosts"@, x@)),
        (p.cache_ttl matches Some(x) ==> has_pair(byedpi_args(p), "--cache-ttl"@, dec_digits(x as nat))),
        (p.auto matches Some(x) ==> has_pair(byedpi_args(p), "--auto"@, x@)),
        (p.timeout matches Some(x) ==> has_pair(byedpi_args(p), "--timeout"@, dec_digits(x as nat))),
        (p.auto_mode matches Some(x) ==> has_pair(byedpi_args(p), "--auto-mode"@, dec_digits(x as nat))),
        forall|k: int|
            0 <= k < p.extra_args@.len() && p.extra_args@[k]@.len() > 0 ==> byedpi_args(p).contains(
                #[trigger] p.extra_args@[k]@,
            ),
{
    lemma_byedpi_args_port(p);
    lemma_byedpi_args_split_pos(p);
    lemma_byedpi_args_disorder_pos(p);
    lemma_byedpi_args_fake_pos(p);
    lemma_byedpi_args_oob_pos(p);
    lemma_byedpi_args_disoob_pos(p);
    lemma_byedpi_args_tlsrec_pos(p);
    lemma_byedpi_args_fake_ttl(p);
    lemma_byedpi_args_md5sig(p);
    lemma_byedpi_args_fake_tls_mod(p);
    lemma_byedpi_args_fake_sni(p);
    lemma_byedpi_args_fake_data(p);
    lemma_byedpi_args_mod_http(p);
    lemma_byedpi_args_tlsminor(p);
    lemma_byedpi_args_hosts(p);
    lemma_byedpi_args_cache_ttl(p);
    lemma_byedpi_args_auto(p);
    lemma_byedpi_args_timeout(p);
    lemma_byedpi_args_auto_mode(p);
    lemma_byedpi_args_extra(p);
}

impl EngineProfile {
    /// Builds the Zapret command-line arguments.
    pub fn to_zapret_args(&self) -> (r: Vec<String>)
        ensures
            texts(r@) == zapret_args(*self),
    {
        let mut args: Vec<String> = Vec::new();
        assert(texts(args@) =~= Seq::<Seq<char>>::empty());
        push_nonempty_pair(&mut args, "--filter-tcp", &self.filter_tcp);
        push_nonempty_pair(&mut args, "--filter-udp", &self.filter_udp);
        push_nonempty_pair(&mut args, "--dpi-desync", &self.desync_mode);
        push_opt_pair(&mut args, "--dpi-desync-split-pos", &self.split_pos);
        push_opt_pair(&mut args, "--dpi-desync-disorder-pos", &self.disorder_pos);
        push_opt_pair(&mut args, "--dpi-desync-fake-pos", &self.fake_pos);
        push_opt_pair(&mut args, "--dpi-desync-oob-pos", &self.oob_pos);
        push_opt_pair(&mut args, "--dpi-desync-disoob-pos", &self.disoob_pos);
        push_opt_pair(&mut args, "--dpi-desync-tlsrec-pos", &self.tlsrec_pos);
        push_opt_num_pair(&mut args, "--dpi-desync-ttl", self.fake_ttl);
        push_flag_if(&mut args, "--dpi-desync-autottl", self.auto_ttl);
        push_opt_pair(&mut args, "--dpi-desync-fake-tls-mod", &self.fake_tls_mod);
        push_opt_pair(&mut args, "--dpi-desync-fooling", &self.desync_fooling);
        push_opt_num_pair(&mut args, "--dpi-desync-repeats", self.repeat_count);
        push_opt_pair(&mut args, "--hostlist", &self.hostlist);
        push_nonempty_texts(&mut args, &self.extra_args);
        push_literal(&mut args, "--new");
        args
    }

    /// Builds the ByeDPI command-line arguments.
    pub fn to_byedpi_args(&self) -> (r: Vec<String>)
        ensures
            texts(r@) == byedpi_args(*self),
    {
        let mut args: Vec<String> = Vec::new();
        assert(texts(args@) =~= Seq::<Seq<char>>::empty());
        push_literal(&mut args, "-p");
        push_number(&mut args, self.socks_port as u64);
        push_opt_pair(&mut args, "--split", &self.split_pos);
        push_opt_pair(&mut args, "--disorder", &self.disorder_pos);
        push_opt_pair(&mut args, "--fake", &self.fake_pos);
        push_opt_pair(&mut args, "--oob", &self.oob_pos);
        push_opt_pair(&mut args, "--disoob", &self.disoob_pos);
        push_opt_pair(&mut args, "--tlsrec", &self.tlsrec_pos);
        push_opt_num_pair(&mut args, "--ttl", self.fake_ttl);
        push_flag_if(&mut args, "--md5sig", match self.md5sig { Some(true) => true, _ => false });
        push_opt_pair(&mut args, "--fake-tls-mod", &self.fake_tls_mod);
        push_opt_pair(&mut args, "--fake-sni", &self.fake_sni);
        push_opt_pair(&mut args, "--fake-data", &self.fake_data);
        push_opt_pair(&mut args, "--mod-http", &self.mod_http);
        push_opt_num_pair(&mut args, "--tlsminor", self.tlsminor);
        push_opt_pair(&mut args, "--hosts", &self.hosts);
        push_opt_num_pair(&mut args, "--cache-ttl", self.cache_ttl);
        push_opt_pair(&mut args, "--auto", &self.auto);
        push_opt_num_pair(&mut args, "--timeout", self.timeout);
        push_opt_num_pair(&mut args, "--auto-mode", self.auto_mode);
        push_nonempty_texts(&mut args, &self.extra_args);
        args
    }

}
} // verus!
