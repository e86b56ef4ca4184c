//! Genetic strategy evolver.
//!
//! 1. Two parents are drawn from the six best genomes of the pool, ranked by
//!    a score per genome (the Wilson lower bound of its trial history).
//! 2. Crossover: every parameter comes from one of the two parents.
//! 3. Mutation: one of fifteen changes for Zapret, eleven for ByeDPI, seven
//!    for Warp.
//! 4. Normalisation, validation and deduplication by genome signature.
//! 5. Garbage collection of weak evolved genomes, the elite protected.

use vstd::prelude::*;
use crate::ai::error::AiError;
use crate::ai::genome::{DpiEngineType, GenomeView, StrategyGenome, StrategyOrigin};
use crate::ai::signature::{exists_in, is_signature_in, signature_of};
use crate::outside::{fresh_id, new_rng, now_millis, rng_below, rng_coin};
use crate::text::{append_u64, clone_opt_string, clone_strings, dec_digits};

verus! {

/// The candidate lists that mutations draw from.
#[derive(Clone, Copy, PartialEq, Eq, Structural)]
pub enum Choice {
    SemanticMarkers,
    DesyncModes,
    FakeTlsMods,
    SplitPositions,
    DisorderPositions,
    FakePositions,
    OobPositions,
    DisoobPositions,
    TlsrecPositions,
    ModHttp,
    Fooling,
    AnyProtocol,
    FakeResend,
    PsiphonCountries,
}

/// The values of each candidate list.
pub open spec fn choices(c: Choice) -> Seq<Seq<char>> {
    match c {
        Choice::SemanticMarkers => seq!["host"@, "endhost"@, "midsld"@, "sniext"@, "endsld"@],
        Choice::DesyncModes => seq![
            "split"@,
            "fake"@,
            "fakesplit"@,
            "disorder"@,
            "fakedisorder"@,
            "multidisorder"@,
            "multisplit"@,
        ],
        Choice::FakeTlsMods => seq!["orig"@, "rand"@, "rndsni"@, "dupsid"@, "padencap"@],
        Choice::SplitPositions => seq![
            "1"@,
            "2"@,
            "3"@,
            "7"@,
            "10"@,
            "1+s"@,
            "2+s"@,
            "3+s"@,
            "host"@,
            "midsld"@,
            "sniext"@,
        ],
        Choice::DisorderPositions => seq!["1"@, "3"@, "5"@, "1+s"@, "3+s"@],
        Choice::FakePositions => seq!["-1"@, "3"@, "7"@, "10"@],
        Choice::OobPositions => seq!["1"@, "3"@, "7"@, "10"@, "3+s"@, "5+s"@],
        Choice::DisoobPositions => seq!["1"@, "3"@, "7"@, "10"@],
        Choice::TlsrecPositions => seq!["1"@, "3"@, "7"@, "1+s"@, "3+s"@],
        Choice::ModHttp => seq![
            "hcsmix"@,
            "dcsmix"@,
            "rmspace"@,
            "hcsmix,dcsmix"@,
            "hcsmix,rmspace"@,
        ],
        Choice::Fooling => seq![
            "md5sig"@,
            "badseq"@,
            "datanoack"@,
            "hopbyhop"@,
            "hopbyhop2"@,
            "badsum"@,
        ],
        Choice::AnyProtocol => seq!["0"@, "1"@],
        Choice::FakeResend => seq!["orig"@, "proxy"@, "null"@],
        Choice::PsiphonCountries => psiphon_countries(),
    }
}

/// The Psiphon exit countries.
pub open spec fn psiphon_countries() -> Seq<Seq<char>> {
    seq![
        "AT"@, "AU"@, "BE"@, "BG"@, "CA"@, "CH"@, "CZ"@, "DE"@, "DK"@, "EE"@, "ES"@,
        "FI"@, "FR"@, "GB"@, "HR"@, "HU"@, "IE"@, "IN"@, "IT"@, "JP"@, "LV"@, "NL"@,
        "NO"@, "PL"@, "PT"@, "RO"@, "RS"@, "SE"@, "SG"@, "SK"@, "US"@,
    ]
}

/// The repeat counts a mutation picks from.
pub open spec fn repeat_counts() -> Seq<i32> {
    seq![1i32, 2, 3, 5, 10]
}

/// The steps by which a fake TTL moves.
pub open spec fn is_delta(d: int) -> bool {
    d == 1 || d == 2 || d == 4 || d == 8 || d == -1 || d == -2 || d == -4 || d == -8
}

pub open spec fn clamp(x: int, lo: int, hi: int) -> int {
    if x < lo {
        lo
    } else if x > hi {
        hi
    } else {
        x
    }
}

fn choice_len(c: Choice) -> (r: usize)
    ensures
        r == choices(c).len(),
        r > 0,
{
    match c {
        Choice::SemanticMarkers => 5,
        Choice::DesyncModes => 7,
        Choice::FakeTlsMods => 5,
        Choice::SplitPositions => 11,
        Choice::DisorderPositions => 5,
        Choice::FakePositions => 4,
        Choice::OobPositions => 6,
        Choice::DisoobPositions => 4,
        Choice::TlsrecPositions => 5,
        Choice::ModHttp => 5,
        Choice::Fooling => 6,
        Choice::AnyProtocol => 2,
        Choice::FakeResend => 3,
        Choice::PsiphonCountries => 31,
    }
}

fn country_at(k: usize) -> (r: &'static str)
    requires
        k < 31,
    ensures
        r@ == psiphon_countries()[k as int],
{
    match k {
        0 => "AT",
        1 => "AU",
        2 => "BE",
        3 => "BG",
        4 => "CA",
        5 => "CH",
        6 => "CZ",
        7 => "DE",
        8 => "DK",
        9 => "EE",
        10 => "ES",
        11 => "FI",
        12 => "FR",
        13 => "GB",
        14 => "HR",
        15 => "HU",
        16 => "IE",
        17 => "IN",
        18 => "IT",
        19 => "JP",
        20 => "LV",
        21 => "NL",
        22 => "NO",
        23 => "PL",
        24 => "PT",
        25 => "RO",
        26 => "RS",
        27 => "SE",
        28 => "SG",
        29 => "SK",
        _ => "US",
    }
}

fn choice_at(c: Choice, k: usize) -> (r: &'static str)
    requires
        k < choices(c).len(),
    ensures
        r@ == choices(c)[k as int],
{
    match c {
        Choice::SemanticMarkers => match k {
            0 => "host",
            1 => "endhost",
            2 => "midsld",
            3 => "sniext",
            _ => "endsld",
        },
        Choice::DesyncModes => match k {
            0 => "split",
            1 => "fake",
            2 => "fakesplit",
            3 => "disorder",
            4 => "fakedisorder",
            5 => "multidisorder",
            _ => "multisplit",
        },
        Choice::FakeTlsMods => match k {
            0 => "orig",
            1 => "rand",
            2 => "rndsni",
            3 => "dupsid",
            _ => "padencap",
        },
        Choice::SplitPositions => match k {
            0 => "1",
            1 => "2",
            2 => "3",
            3 => "7",
            4 => "10",
            5 => "1+s",
            6 => "2+s",
            7 => "3+s",
            8 => "host",
            9 => "midsld",
            _ => "sniext",
        },
        Choice::DisorderPositions => match k {
            0 => "1",
            1 => "3",
            2 => "5",
            3 => "1+s",
            _ => "3+s",
        },
        Choice::FakePositions => match k {
            0 => "-1",
            1 => "3",
            2 => "7",
            _ => "10",
        },
        Choice::OobPositions => match k {
            0 => "1",
            1 => "3",
            2 => "7",
            3 => "10",
            4 => "3+s",
            _ => "5+s",
        },
        Choice::DisoobPositions => match k {
            0 => "1",
            1 => "3",
            2 => "7",
            _ => "10",
        },
        Choice::TlsrecPositions => match k {
            0 => "1",
            1 => "3",
            2 => "7",
            3 => "1+s",
            _ => "3+s",
        },
        Choice::ModHttp => match k {
            0 => "hcsmix",
            1 => "dcsmix",
            2 => "rmspace",
            3 => "hcsmix,dcsmix",
            _ => "hcsmix,rmspace",
        },
        Choice::Fooling => match k {
            0 => "md5sig",
            1 => "badseq",
            2 => "datanoack",
            3 => "hopbyhop",
            4 => "hopbyhop2",
            _ => "badsum",
        },
        Choice::AnyProtocol => match k {
            0 => "0",
            _ => "1",
        },
        Choice::FakeResend => match k {
            0 => "orig",
            1 => "proxy",
            _ => "null",
        },
        Choice::PsiphonCountries => country_at(k),
    }
}

/// `o` holds one of the values of list `c`.
pub open spec fn picked(o: Option<String>, c: Choice) -> bool {
    o matches Some(s) && choices(c).contains(s@)
}


/// `x` is `a` or `b`.
pub open spec fn one_of<T>(x: T, a: T, b: T) -> bool {
    x == a || x == b
}

/// How a child's extra arguments come from its parents: an empty list yields
/// to the other one.
pub open spec fn list_from(x: Seq<String>, a: Seq<String>, b: Seq<String>) -> bool {
    if a.len() == 0 {
        x == b
    } else if b.len() == 0 {
        x == a
    } else {
        x == a || x == b
    }
}

pub open spec fn max_u32(a: u32, b: u32) -> int {
    if a >= b {
        a as int
    } else {
        b as int
    }
}

/// `c` is a crossover of `a` and `b`: it names both as parents, is one
/// generation after the later of them, and takes
/// every parameter from one of the two; metadata starts fresh.
pub open spec fn crossover_of(a: GenomeView, b: GenomeView, c: GenomeView) -> bool {
    &&& c.parent_ids == seq![a.id, b.id]
    &&& c.generation == max_u32(a.generation, b.generation) + 1
    &&& c.origin == StrategyOrigin::Evolved
    &&& one_of(c.engine_type, a.engine_type, b.engine_type)
    &&& one_of(c.filter_tcp, a.filter_tcp, b.filter_tcp)
    &&& one_of(c.filter_udp, a.filter_udp, b.filter_udp)
    &&& one_of(c.desync_mode, a.desync_mode, b.desync_mode)
    &&& one_of(c.split_pos, a.split_pos, b.split_pos)
    &&& one_of(c.split_pos_semantic, a.split_pos_semantic, b.split_pos_semantic)
    &&& one_of(c.disorder_pos, a.disorder_pos, b.disorder_pos)
    &&& one_of(c.fake_pos, a.fake_pos, b.fake_pos)
    &&& one_of(c.oob_pos, a.oob_pos, b.oob_pos)
    &&& one_of(c.disoob_pos, a.disoob_pos, b.disoob_pos)
    &&& one_of(c.tlsrec_pos, a.tlsrec_pos, b.tlsrec_pos)
    &&& one_of(c.fake_ttl, a.fake_ttl, b.fake_ttl)
    &&& one_of(c.auto_ttl, a.auto_ttl, b.auto_ttl)
    &&& one_of(c.md5sig, a.md5sig, b.md5sig)
    &&& one_of(c.fake_tls_mod, a.fake_tls_mod, b.fake_tls_mod)
    &&& one_of(c.fake_sni, a.fake_sni, b.fake_sni)
    &&& one_of(c.fake_data, a.fake_data, b.fake_data)
    &&& one_of(c.mod_http, a.mod_http, b.mod_http)
    &&& one_of(c.tlsminor, a.tlsminor, b.tlsminor)
    &&& one_of(c.hosts, a.hosts, b.hosts)
    &&& one_of(c.hostlist, a.hostlist, b.hostlist)
    &&& one_of(c.repeat_count, a.repeat_count, b.repeat_count)
    &&& one_of(c.cache_ttl, a.cache_ttl, b.cache_ttl)
    &&& one_of(c.auto, a.auto, b.auto)
    &&& one_of(c.timeout, a.timeout, b.timeout)
    &&& one_of(c.auto_mode, a.auto_mode, b.auto_mode)
    &&& one_of(c.desync_any_protocol, a.desync_any_protocol, b.desync_any_protocol)
    &&& one_of(c.desync_fooling, a.desync_fooling, b.desync_fooling)
    &&& one_of(c.fake_resend, a.fake_resend, b.fake_resend)
    &&& one_of(c.warp_config, a.warp_config, b.warp_config)
    &&& one_of(c.mtu, a.mtu, b.mtu)
    &&& one_of(c.gool_enabled, a.gool_enabled, b.gool_enabled)
    &&& one_of(c.psiphon_enabled, a.psiphon_enabled, b.psiphon_enabled)
    &&& one_of(c.psiphon_country, a.psiphon_country, b.psiphon_country)
    &&& one_of(c.scan_enabled, a.scan_enabled, b.scan_enabled)
    &&& one_of(c.reserved, a.reserved, b.reserved)
    &&& list_from(c.extra_args, a.extra_args, b.extra_args)
    &&& c.display_name@ == Seq::<char>::empty()
    &&& c.bat_file_name is None
    &&& c.source_bat_path is None
    &&& c.orchestrator_enabled
    &&& c.last_verification_score is None
    &&& c.last_verified_at is None
}

/// How many coins a crossover tosses: one per inherited parameter.
pub const CROSSOVER_COINS: usize = 37;

/// Coin `coin` takes the first parent's value on heads, the second's on tails.
pub open spec fn coin_pick<T>(coin: bool, a: T, b: T) -> T {
    if coin {
        a
    } else {
        b
    }
}

/// A child's extra arguments: an empty list yields to the other one, and the
/// coin decides between two lists that are not empty.
pub open spec fn list_pick(coin: bool, a: Seq<String>, b: Seq<String>) -> Seq<String> {
    if a.len() == 0 {
        b
    } else if b.len() == 0 {
        a
    } else {
        coin_pick(coin, a, b)
    }
}

/// `c` is the crossover of `a` and `b` under `coins`: coin `k` decides the
/// `k`-th inherited parameter, in the order of the fields, the last coin the
/// extra arguments; the child names both parents, is one generation after
/// the later of them, and its metadata starts fresh.
pub open spec fn crossed(a: GenomeView, b: GenomeView, coins: Seq<bool>, c: GenomeView) -> bool {
    &&& c.parent_ids == seq![a.id, b.id]
    &&& c.generation == max_u32(a.generation, b.generation) + 1
    &&& c.origin == StrategyOrigin::Evolved
    &&& c.engine_type == coin_pick(coins[0], a.engine_type, b.engine_type)
    &&& c.filter_tcp == coin_pick(coins[1], a.filter_tcp, b.filter_tcp)
    &&& c.filter_udp == coin_pick(coins[2], a.filter_udp, b.filter_udp)
    &&& c.desync_mode == coin_pick(coins[3], a.desync_mode, b.desync_mode)
    &&& c.split_pos == coin_pick(coins[4], a.split_pos, b.split_pos)
    &&& c.split_pos_semantic == coin_pick(coins[5], a.split_pos_semantic, b.split_pos_semantic)
    &&& c.disorder_pos == coin_pick(coins[6], a.disorder_pos, b.disorder_pos)
    &&& c.fake_pos == coin_pick(coins[7], a.fake_pos, b.fake_pos)
    &&& c.oob_pos == coin_pick(coins[8], a.oob_pos, b.oob_pos)
    &&& c.disoob_pos == coin_pick(coins[9], a.disoob_pos, b.disoob_pos)
    &&& c.tlsrec_pos == coin_pick(coins[10], a.tlsrec_pos, b.tlsrec_pos)
    &&& c.fake_ttl == coin_pick(coins[11], a.fake_ttl, b.fake_ttl)
    &&& c.auto_ttl == coin_pick(coins[12], a.auto_ttl, b.auto_ttl)
    &&& c.md5sig == coin_pick(coins[13], a.md5sig, b.md5sig)
    &&& c.fake_tls_mod == coin_pick(coins[14], a.fake_tls_mod, b.fake_tls_mod)
    &&& c.fake_sni == coin_pick(coins[15], a.fake_sni, b.fake_sni)
    &&& c.fake_data == coin_pick(coins[16], a.fake_data, b.fake_data)
    &&& c.mod_http == coin_pick(coins[17], a.mod_http, b.mod_http)
    &&& c.tlsminor == coin_pick(coins[18], a.tlsminor, b.tlsminor)
    &&& c.hosts == coin_pick(coins[19], a.hosts, b.hosts)
    &&& c.hostlist == coin_pick(coins[20], a.hostlist, b.hostlist)
    &&& c.repeat_count == coin_pick(coins[21], a.repeat_count, b.repeat_count)
    &&& c.cache_ttl == coin_pick(coins[22], a.cache_ttl, b.cache_ttl)
    &&& c.auto == coin_pick(coins[23], a.auto, b.auto)
    &&& c.timeout == coin_pick(coins[24], a.timeout, b.timeout)
    &&& c.auto_mode == coin_pick(coins[25], a.auto_mode, b.auto_mode)
    &&& c.desync_any_protocol == coin_pick(coins[26], a.desync_any_protocol, b.desync_any_protocol)
    &&& c.desync_fooling == coin_pick(coins[27], a.desync_fooling, b.desync_fooling)
    &&& c.fake_resend == coin_pick(coins[28], a.fake_resend, b.fake_resend)
    &&& c.warp_config == coin_pick(coins[29], a.warp_config, b.warp_config)
    &&& c.mtu == coin_pick(coins[30], a.mtu, b.mtu)
    &&& c.gool_enabled == coin_pick(coins[31], a.gool_enabled, b.gool_enabled)
    &&& c.psiphon_enabled == coin_pick(coins[32], a.psiphon_enabled, b.psiphon_enabled)
    &&& c.psiphon_country == coin_pick(coins[33], a.psiphon_country, b.psiphon_country)
    &&& c.scan_enabled == coin_pick(coins[34], a.scan_enabled, b.scan_enabled)
    &&& c.reserved == coin_pick(coins[35], a.reserved, b.reserved)
    &&& c.extra_args == list_pick(coins[36], a.extra_args, b.extra_args)
    &&& c.display_name@ == Seq::<char>::empty()
    &&& c.bat_file_name is None
    &&& c.source_bat_path is None
    &&& c.orchestrator_enabled
    &&& c.last_verification_score is None
    &&& c.last_verified_at is None
}

/// Whatever the coins, a crossover under them takes every parameter from one
/// of the two parents.
pub proof fn crossed_is_crossover(a: GenomeView, b: GenomeView, coins: Seq<bool>, c: GenomeView)
    requires
        crossed(a, b, coins, c),
    ensures
        crossover_of(a, b, c),
{
}

fn take_string(coin: bool, a: &String, b: &String) -> (r: String)
    ensures
        r == coin_pick(coin, *a, *b),
{
    if coin {
        a.clone()
    } else {
        b.clone()
    }
}

fn take_opt_string(coin: bool, a: &Option<String>, b: &Option<String>) -> (r: Option<String>)
    ensures
        r == coin_pick(coin, *a, *b),
{
    if coin {
        clone_opt_string(a)
    } else {
        clone_opt_string(b)
    }
}

fn take_list(coin: bool, a: &Vec<String>, b: &Vec<String>) -> (r: Vec<String>)
    ensures
        r@ == list_pick(coin, a@, b@),
{
    if a.len() == 0 {
        clone_strings(b)
    } else if b.len() == 0 {
        clone_strings(a)
    } else if coin {
        clone_strings(a)
    } else {
        clone_strings(b)
    }
}

/// The crossover of `a` and `b` under the tossed `coins` (one per inherited
/// parameter, heads for `a`), with the child's id and creation time given.
pub fn crossover_with(a: &StrategyGenome, b: &StrategyGenome, coins: &[bool], id: u128, created_at: i64) -> (c: StrategyGenome)
    requires
        coins@.len() == CROSSOVER_COINS,
        a.generation < u32::MAX,
        b.generation < u32::MAX,
    ensures
        crossed(a@, b@, coins@, c@),
        c@.id == id,
        c@.created_at == created_at,
{
    let generation = if a.generation >= b.generation {
        a.generation + 1
    } else {
        b.generation + 1
    };
    let c = StrategyGenome {
        id,
        parent_ids: vec![a.id, b.id],
        generation,
        origin: StrategyOrigin::Evolved,
        engine_type: if coins[0] { a.engine_type } else { b.engine_type },
        filter_tcp: take_string(coins[1], &a.filter_tcp, &b.filter_tcp),
        filter_udp: take_string(coins[2], &a.filter_udp, &b.filter_udp),
        desync_mode: take_string(coins[3], &a.desync_mode, &b.desync_mode),
        split_pos: if coins[4] { a.split_pos } else { b.split_pos },
        split_pos_semantic: take_opt_string(coins[5], &a.split_pos_semantic, &b.split_pos_semantic),
        disorder_pos: take_opt_string(coins[6], &a.disorder_pos, &b.disorder_pos),
        fake_pos: take_opt_string(coins[7], &a.fake_pos, &b.fake_pos),
        oob_pos: take_opt_string(coins[8], &a.oob_pos, &b.oob_pos),
        disoob_pos: take_opt_string(coins[9], &a.disoob_pos, &b.disoob_pos),
        tlsrec_pos: take_opt_string(coins[10], &a.tlsrec_pos, &b.tlsrec_pos),
        fake_ttl: if coins[11] { a.fake_ttl } else { b.fake_ttl },
        auto_ttl: if coins[12] { a.auto_ttl } else { b.auto_ttl },
        md5sig: if coins[13] { a.md5sig } else { b.md5sig },
        fake_tls_mod: take_opt_string(coins[14], &a.fake_tls_mod, &b.fake_tls_mod),
        fake_sni: take_opt_string(coins[15], &a.fake_sni, &b.fake_sni),
        fake_data: take_opt_string(coins[16], &a.fake_data, &b.fake_data),
        mod_http: take_opt_string(coins[17], &a.mod_http, &b.mod_http),
        tlsminor: if coins[18] { a.tlsminor } else { b.tlsminor },
        hosts: take_opt_string(coins[19], &a.hosts, &b.hosts),
        hostlist: take_opt_string(coins[20], &a.hostlist, &b.hostlist),
        repeat_count: if coins[21] { a.repeat_count } else { b.repeat_count },
        cache_ttl: if coins[22] { a.cache_ttl } else { b.cache_ttl },
        auto: take_opt_string(coins[23], &a.auto, &b.auto),
        timeout: if coins[24] { a.timeout } else { b.timeout },
        auto_mode: if coins[25] { a.auto_mode } else { b.auto_mode },
        desync_any_protocol: take_opt_string(coins[26], &a.desync_any_protocol, &b.desync_any_protocol),
        desync_fooling: take_opt_string(coins[27], &a.desync_fooling, &b.desync_fooling),
        fake_resend: take_opt_string(coins[28], &a.fake_resend, &b.fake_resend),
        warp_config: take_opt_string(coins[29], &a.warp_config, &b.warp_config),
        mtu: if coins[30] { a.mtu } else { b.mtu },
        gool_enabled: if coins[31] { a.gool_enabled } else { b.gool_enabled },
        psiphon_enabled: if coins[32] { a.psiphon_enabled } else { b.psiphon_enabled },
        psiphon_country: take_opt_string(coins[33], &a.psiphon_country, &b.psiphon_country),
        scan_enabled: if coins[34] { a.scan_enabled } else { b.scan_enabled },
        reserved: take_opt_string(coins[35], &a.reserved, &b.reserved),
        extra_args: take_list(coins[36], &a.extra_args, &b.extra_args),
        display_name: String::new(),
        bat_file_name: None,
        source_bat_path: None,
        created_at,
        orchestrator_enabled: true,
        last_verification_score: None,
        last_verified_at: None,
    };
    assert(c.parent_ids@ =~= seq![a.id, b.id]);
    c
}

/// A fake TTL after a mutation step: an existing one moves by a step and is
/// kept within 3..=48; a missing one becomes `base + k` for some `k` below
/// `span`.
pub open spec fn ttl_step(old: Option<i32>, new: Option<i32>, base: int, span: int) -> bool {
    new matches Some(v) && match old {
        Some(t) => exists|d: int| #[trigger] is_delta(d) && v == clamp(t + d, 3, 48),
        None => base <= v < base + span,
    }
}

/// The text `a,b,c` of a Warp reserved triple.
pub open spec fn reserved_text(a: nat, b: nat, c: nat) -> Seq<char> {
    dec_digits(a) + ","@ + dec_digits(b) + ","@ + dec_digits(c)
}

/// One Zapret mutation, chosen by `roll`.
pub open spec fn zapret_mutation(old: GenomeView, new: GenomeView, roll: int) -> bool {
    if roll == 0 {
        picked(new.split_pos_semantic, Choice::SemanticMarkers) && new == GenomeView {
            split_pos_semantic: new.split_pos_semantic,
            split_pos: None,
            ..old
        }
    } else if roll == 1 {
        choices(Choice::DesyncModes).contains(new.desync_mode@) && new == GenomeView {
            desync_mode: new.desync_mode,
            ..old
        }
    } else if roll == 2 {
        ttl_step(old.fake_ttl, new.fake_ttl, 6, 10) && new == GenomeView { fake_ttl: new.fake_ttl, ..old }
    } else if roll == 3 {
        picked(new.fake_tls_mod, Choice::FakeTlsMods) && new == GenomeView {
            fake_tls_mod: new.fake_tls_mod,
            ..old
        }
    } else if roll == 4 {
        new == GenomeView { auto_ttl: !old.auto_ttl, ..old }
    } else if roll == 5 {
        picked(new.desync_fooling, Choice::Fooling) && new == GenomeView {
            desync_fooling: new.desync_fooling,
            ..old
        }
    } else if roll == 6 {
        picked(new.desync_any_protocol, Choice::AnyProtocol) && new == GenomeView {
            desync_any_protocol: new.desync_any_protocol,
            ..old
        }
    } else if roll == 7 {
        picked(new.fake_resend, Choice::FakeResend) && new == GenomeView {
            fake_resend: new.fake_resend,
            ..old
        }
    } else if roll == 8 {
        (new.repeat_count matches Some(n) && repeat_counts().contains(n)) && new == GenomeView {
            repeat_count: new.repeat_count,
            ..old
        }
    } else if roll == 9 {
        picked(new.disorder_pos, Choice::DisorderPositions) && new == GenomeView {
            disorder_pos: new.disorder_pos,
            ..old
        }
    } else if roll == 10 {
        picked(new.fake_pos, Choice::FakePositions) && new == GenomeView { fake_pos: new.fake_pos, ..old }
    } else if roll == 11 {
        (new.disorder_pos matches Some(s) && s@ == "1+s"@) && new == GenomeView {
            engine_type: DpiEngineType::ByeDpi,
            split_pos: None,
            split_pos_semantic: None,
            auto_ttl: false,
            disorder_pos: new.disorder_pos,
            ..old
        }
    } else if roll == 12 {
        picked(new.oob_pos, Choice::OobPositions) && new == GenomeView { oob_pos: new.oob_pos, ..old }
    } else if roll == 13 {
        picked(new.disoob_pos, Choice::DisoobPositions) && new == GenomeView {
            disoob_pos: new.disoob_pos,
            ..old
        }
    } else if roll == 14 {
        picked(new.tlsrec_pos, Choice::TlsrecPositions) && new == GenomeView {
            tlsrec_pos: new.tlsrec_pos,
            ..old
        }
    } else {
        new == old
    }
}

/// The MTU a Warp mutation may set: the current one (1280 when unset)
/// moved by -20, 0 or +20, kept within 1200..=1500.
pub open spec fn mtu_step(old: Option<i32>, m: int) -> bool {
    let base: int = match old {
        Some(v) => v as int,
        None => 1280,
    };
    m == clamp(base - 20, 1200, 1500) || m == clamp(base, 1200, 1500) || m == clamp(base + 20, 1200, 1500)
}

/// One Warp mutation, chosen by `roll`.
pub open spec fn warp_mutation(old: GenomeView, new: GenomeView, roll: int) -> bool {
    if roll == 0 {
        new == GenomeView { engine_type: DpiEngineType::Zapret, ..old }
    } else if roll == 1 {
        new == GenomeView { engine_type: DpiEngineType::ByeDpi, ..old }
    } else if roll == 2 {
        (new.mtu matches Some(m) && mtu_step(old.mtu, m as int)) && new == GenomeView { mtu: new.mtu, ..old }
    } else if roll == 3 {
        new == GenomeView { gool_enabled: !old.gool_enabled, ..old }
    } else if roll == 4 {
        &&& new == GenomeView {
            psiphon_enabled: !old.psiphon_enabled,
            psiphon_country: new.psiphon_country,
            ..old
        }
        &&& if new.psiphon_enabled {
            picked(new.psiphon_country, Choice::PsiphonCountries)
        } else {
            new.psiphon_country == old.psiphon_country
        }
    } else if roll == 5 {
        new == GenomeView { scan_enabled: !old.scan_enabled, ..old }
    } else if roll == 6 {
        &&& new.reserved matches Some(s) && exists|a: nat, b: nat, c: nat|
            a < 256 && b < 256 && c < 256 && s@ == #[trigger] reserved_text(a, b, c)
        &&& new == GenomeView { reserved: new.reserved, ..old }
    } else {
        new == old
    }
}

/// One ByeDPI mutation, chosen by `roll`.
pub open spec fn byedpi_mutation(old: GenomeView, new: GenomeView, roll: int) -> bool {
    if roll == 0 {
        picked(new.split_pos_semantic, Choice::SplitPositions) && new == GenomeView {
            split_pos: None,
            split_pos_semantic: new.split_pos_semantic,
            ..old
        }
    } else if roll == 1 {
        picked(new.disorder_pos, Choice::DisorderPositions) && new == GenomeView {
            disorder_pos: new.disorder_pos,
            ..old
        }
    } else if roll == 2 {
        &&& picked(new.fake_pos, Choice::FakePositions)
        &&& new == GenomeView { fake_pos: new.fake_pos, fake_ttl: new.fake_ttl, ..old }
        &&& match old.fake_ttl {
            Some(_) => new.fake_ttl == old.fake_ttl,
            None => new.fake_ttl matches Some(v) && 5 <= v < 13,
        }
    } else if roll == 3 {
        picked(new.tlsrec_pos, Choice::TlsrecPositions) && new == GenomeView {
            tlsrec_pos: new.tlsrec_pos,
            ..old
        }
    } else if roll == 4 {
        picked(new.oob_pos, Choice::OobPositions) && new == GenomeView { oob_pos: new.oob_pos, ..old }
    } else if roll == 5 {
        ttl_step(old.fake_ttl, new.fake_ttl, 5, 10) && new == GenomeView { fake_ttl: new.fake_ttl, ..old }
    } else if roll == 6 {
        new == GenomeView {
            md5sig: Some(
                !match old.md5sig {
                    Some(b) => b,
                    None => true,
                },
            ),
            ..old
        }
    } else if roll == 7 {
        picked(new.fake_tls_mod, Choice::FakeTlsMods) && new == GenomeView {
            fake_tls_mod: new.fake_tls_mod,
            ..old
        }
    } else if roll == 8 {
        &&& new.auto matches Some(s) && (s@ == "torst"@ || s@ == "ssl_err"@)
        &&& new.timeout matches Some(v) && 3 <= v < 7
        &&& new == GenomeView { auto: new.auto, timeout: new.timeout, ..old }
    } else if roll == 9 {
        picked(new.mod_http, Choice::ModHttp) && new == GenomeView { mod_http: new.mod_http, ..old }
    } else if roll == 10 {
        new == GenomeView {
            engine_type: DpiEngineType::Zapret,
            disorder_pos: None,
            fake_pos: None,
            md5sig: None,
            fake_sni: None,
            fake_data: None,
            mod_http: None,
            tlsminor: None,
            hosts: None,
            auto: None,
            timeout: None,
            auto_mode: None,
            cache_ttl: None,
            ..old
        }
    } else {
        (new.tlsminor == Some(2i32) || new.tlsminor == Some(3i32)) && new == GenomeView {
            tlsminor: new.tlsminor,
            ..old
        }
    }
}

/// `new` is the mutation of `old` with roll `roll`, for the engine of `old`.
pub open spec fn mutation_by(old: GenomeView, new: GenomeView, roll: int) -> bool {
    match old.engine_type {
        DpiEngineType::ByeDpi => byedpi_mutation(old, new, roll),
        DpiEngineType::Warp => warp_mutation(old, new, roll),
        DpiEngineType::Zapret => zapret_mutation(old, new, roll),
    }
}

/// `new` is one mutation of `old` for the engine of `old`, with a roll in
/// `0..15`.
pub open spec fn mutation_of(old: GenomeView, new: GenomeView) -> bool {
    exists|roll: int| 0 <= roll < 15 && #[trigger] mutation_by(old, new, roll)
}

/// The genome after normalisation: a semantic split position replaces the
/// numeric one.
pub open spec fn normalized(g: GenomeView) -> GenomeView {
    if g.split_pos_semantic is Some {
        GenomeView { split_pos: None, ..g }
    } else {
        g
    }
}

/// A genome is valid when it has a desync mode.
pub open spec fn valid_genome(g: GenomeView) -> bool {
    g.desync_mode@.len() > 0
}

/// Index `i` ranks above index `j`: a higher score, or an equal score and
/// an earlier position (the order of a stable sort by descending score).
pub open spec fn ranks_above(scores: Seq<u64>, i: int, j: int) -> bool {
    scores[i] > scores[j] || (scores[i] == scores[j] && i < j)
}

/// `r` holds the indices of `cand`, best ranked first.
pub open spec fn is_ranking(scores: Seq<u64>, cand: Seq<usize>, r: Seq<usize>) -> bool {
    &&& r.len() == cand.len()
    &&& forall|x: usize| r.contains(x) <==> cand.contains(x)
    &&& forall|a: int, b: int|
        0 <= a < b < r.len() ==> ranks_above(scores, #[trigger] r[a] as int, #[trigger] r[b] as int)
}

/// No index occurs twice.
pub open spec fn distinct(s: Seq<usize>) -> bool {
    forall|a: int, b: int| 0 <= a < s.len() && 0 <= b < s.len() && a != b ==> #[trigger] s[a] != #[trigger] s[b]
}

fn above(scores: &[u64], i: usize, j: usize) -> (r: bool)
    requires
        i < scores@.len(),
        j < scores@.len(),
    ensures
        r == ranks_above(scores@, i as int, j as int),
{
    scores[i] > scores[j] || (scores[i] == scores[j] && i < j)
}

/// The indices of `cand`, best ranked first (a stable sort by descending
/// score).
pub fn rank_indices(scores: &[u64], cand: &Vec<usize>) -> (r: Vec<usize>)
    requires
        distinct(cand@),
        forall|i: int| 0 <= i < cand@.len() ==> #[trigger] cand@[i] < scores@.len(),
    ensures
        is_ranking(scores@, cand@, r@),
{
    let mut r: Vec<usize> = Vec::new();
    let mut i: usize = 0;
    while i < cand.len()
        invariant
            i <= cand@.len(),
            distinct(cand@),
            forall|q: int| 0 <= q < cand@.len() ==> #[trigger] cand@[q] < scores@.len(),
            r@.len() == i,
            forall|q: int| 0 <= q < r@.len() ==> #[trigger] r@[q] < scores@.len(),
            forall|x: usize| r@.contains(x) <==> cand@.take(i as int).contains(x),
            forall|a: int, b: int|
                0 <= a < b < r@.len() ==> ranks_above(scores@, #[trigger] r@[a] as int, #[trigger] r@[b] as int),
        decreases cand@.len() - i,
    {
        let x = cand[i];
        // the first position whose index x ranks above
        let mut pos: usize = 0;
        while pos < r.len() && !above(scores, x, r[pos])
            invariant
                pos <= r@.len(),
                i < cand@.len(),
                x == cand@[i as int],
                distinct(cand@),
                forall|q: int| 0 <= q < cand@.len() ==> #[trigger] cand@[q] < scores@.len(),
                forall|y: usize| r@.contains(y) <==> cand@.take(i as int).contains(y),
                forall|q: int| 0 <= q < r@.len() ==> #[trigger] r@[q] < scores@.len(),
                forall|q: int| 0 <= q < pos ==> ranks_above(scores@, #[trigger] r@[q] as int, x as int),
            decreases r@.len() - pos,
        {
            let y = r[pos];
            assert(y != x) by {
                assert(r@.contains(y));
                assert(cand@.take(i as int).contains(y));
                let k = choose|k: int| 0 <= k < i && #[trigger] cand@.take(i as int)[k] == y;
                assert(cand@[k] == y);
            }
            pos = pos + 1;
        }
        let ghost before = r@;
        r.insert(pos, x);
        proof {
            assert(r@ == before.insert(pos as int, x));
            assert forall|q: int| 0 <= q < r@.len() implies #[trigger] r@[q] < scores@.len() by {
                if q < pos {
                    assert(r@[q] == before[q]);
                } else if q > pos {
                    assert(r@[q] == before[q - 1]);
                }
            }
            assert forall|y: usize| r@.contains(y) <==> cand@.take(i + 1).contains(y) by {
                if r@.contains(y) {
                    let k = choose|k: int| 0 <= k < r@.len() && #[trigger] r@[k] == y;
                    if k < pos {
                        assert(before[k] == y);
                        assert(before.contains(y));
                    } else if k > pos {
                        assert(before[k - 1] == y);
                        assert(before.contains(y));
                    }
                    if y != x {
                        assert(cand@.take(i as int).contains(y));
                        let j = choose|j: int| 0 <= j < i && #[trigger] cand@.take(i as int)[j] == y;
                        assert(cand@.take(i + 1)[j] == y);
                    } else {
                        assert(cand@.take(i + 1)[i as int] == y);
                    }
                }
                if cand@.take(i + 1).contains(y) {
                    let j = choose|j: int| 0 <= j < i + 1 && #[trigger] cand@.take(i + 1)[j] == y;
                    if j < i {
                        assert(cand@.take(i as int)[j] == y);
                        assert(before.contains(y));
                        let k = choose|k: int| 0 <= k < before.len() && #[trigger] before[k] == y;
                        if k < pos {
                            assert(r@[k] == y);
                        } else {
                            assert(r@[k + 1] == y);
                        }
                    } else {
                        assert(r@[pos as int] == y);
                    }
                }
            }
            assert forall|a: int, b: int|
                0 <= a < b < r@.len() implies ranks_above(scores@, #[trigger] r@[a] as int, #[trigger] r@[b] as int) by {
                if a < pos && b < pos {
                    assert(r@[a] == before[a] && r@[b] == before[b]);
                } else if a < pos && b == pos {
                } else if a < pos && b > pos {
                    assert(r@[a] == before[a] && r@[b] == before[b - 1]);
                    if a < b - 1 {
                    }
                } else if a == pos {
                    assert(r@[b] == before[b - 1]);
                    // x ranks above before[pos], and before[pos] ranks above or is before[b - 1]
                    if pos < before.len() {
                        assert(ranks_above(scores@, x as int, before[pos as int] as int));
                        if pos < b - 1 {
                            assert(ranks_above(scores@, before[pos as int] as int, before[b - 1] as int));
                        }
                    }
                } else {
                    assert(r@[a] == before[a - 1] && r@[b] == before[b - 1]);
                }
            }
        }
        i = i + 1;
    }
    assert(cand@.take(cand@.len() as int) =~= cand@);
    r
}

/// The indices `0..n` in order.
pub open spec fn all_indices(n: nat) -> Seq<usize> {
    Seq::new(n, |i: int| i as usize)
}

/// The genomes at the listed positions have pairwise different ids.
pub open spec fn distinct_ids(pool: Seq<StrategyGenome>, t: Seq<usize>) -> bool {
    forall|a: int, b: int|
        0 <= a < t.len() && 0 <= b < t.len() && a != b ==> #[trigger] pool[t[a] as int].id
            != #[trigger] pool[t[b] as int].id
}

/// How many parents are drawn from: six, or the whole pool when smaller.
pub open spec fn parent_count(n: nat) -> nat {
    if n < 6 {
        n
    } else {
        6
    }
}

/// The engine tag of a child's name.
pub open spec fn engine_tag(t: DpiEngineType) -> Seq<char> {
    if t == DpiEngineType::ByeDpi {
        "byedpi"@
    } else {
        "zapret"@
    }
}

/// The display name of an evolved child: `ev-<generation>-<tag>-<number>`.
pub open spec fn child_name(generation: u32, t: DpiEngineType, num: nat) -> Seq<char> {
    "ev-"@ + dec_digits(generation as nat) + "-"@ + engine_tag(t) + "-"@ + dec_digits(num)
}

/// A candidate child before its final metadata: parents at ranking positions
/// `ia` and `ib` among the best, crossed over into `x`, mutated into `y`,
/// normalised into `c`; when the best hold no id twice, the two parents
/// differ.
pub open spec fn bred_from(
    pool: Seq<StrategyGenome>,
    ranked: Seq<usize>,
    ia: int,
    ib: int,
    x: GenomeView,
    y: GenomeView,
    c: GenomeView,
) -> bool {
    let k = parent_count(pool.len());
    &&& 0 <= ia < k
    &&& 0 <= ib < k
    &&& crossover_of(pool[ranked[ia] as int]@, pool[ranked[ib] as int]@, x)
    &&& mutation_of(x, y)
    &&& c == normalized(y)
    &&& (distinct_ids(pool, ranked.take(k as int)) ==> pool[ranked[ia] as int].id
        != pool[ranked[ib] as int].id)
}

/// A candidate is kept when it is valid and its signature is new to the pool.
pub open spec fn accepted(pool: Seq<StrategyGenome>, c: GenomeView) -> bool {
    valid_genome(c) && !is_signature_in(signature_of(c), pool)
}

/// A candidate bred from the pool and kept.
pub open spec fn candidate_of(
    pool: Seq<StrategyGenome>,
    ranked: Seq<usize>,
    ia: int,
    ib: int,
    x: GenomeView,
    y: GenomeView,
    c: GenomeView,
) -> bool {
    bred_from(pool, ranked, ia, ib, x, y, c) && accepted(pool, c)
}

/// `c` was bred from the pool under the ranking `ranked` and refused: it is
/// not valid, or its signature is already in the pool.
pub open spec fn rejected_by(pool: Seq<StrategyGenome>, ranked: Seq<usize>, c: GenomeView) -> bool {
    &&& !accepted(pool, c)
    &&& exists|ia: int, ib: int, x: GenomeView, y: GenomeView| #[trigger] bred_from(pool, ranked, ia, ib, x, y, c)
}

/// Breeding failed: under the ranking of the pool by score, 25 candidates
/// were bred and all of them refused.
pub open spec fn breeding_failed(
    pool: Seq<StrategyGenome>,
    scores: Seq<u64>,
    ranked: Seq<usize>,
    refused: Seq<GenomeView>,
) -> bool {
    &&& is_ranking(scores, all_indices(pool.len()), ranked)
    &&& refused.len() == 25
    &&& forall|t: int| 0 <= t < refused.len() ==> #[trigger] rejected_by(pool, ranked, refused[t])
}

/// The parents that can be drawn under the ranking `ranked` are all below
/// the last generation.
pub open spec fn parents_below_max(pool: Seq<StrategyGenome>, ranked: Seq<usize>) -> bool {
    forall|a: int| 0 <= a < parent_count(pool.len()) ==> #[trigger] pool[ranked[a] as int].generation < u32::MAX
}

/// `q` is the first ranking position below `k` whose genome has id `id`.
pub open spec fn first_with(pool: Seq<StrategyGenome>, ranked: Seq<usize>, k: nat, id: u128, q: int) -> bool {
    &&& 0 <= q < k
    &&& pool[ranked[q] as int].id == id
    &&& forall|p: int| 0 <= p < q ==> pool[#[trigger] ranked[p] as int].id != id
}

/// The ranking position of the second parent: `i1`, unless among more than
/// one parent it names the same genome as `i0`; then the position after the
/// first one holding that genome, wrapping round to the best.
pub open spec fn second_parent(pool: Seq<StrategyGenome>, ranked: Seq<usize>, k: nat, i0: int, i1: int) -> int {
    let id = pool[ranked[i0] as int].id;
    if pool[ranked[i1] as int].id == id && k > 1 {
        let pos = choose|q: int| #[trigger] first_with(pool, ranked, k, id, q);
        if pos + 1 < k {
            pos + 1
        } else {
            0
        }
    } else {
        i1
    }
}

/// One breeding attempt: the crossover `x` of the parents at ranking
/// positions `i0` and `second_parent(..)` under `coins`, mutated into `y`
/// with roll `roll`.
pub open spec fn attempt_of(
    pool: Seq<StrategyGenome>,
    ranked: Seq<usize>,
    i0: int,
    i1: int,
    coins: Seq<bool>,
    roll: int,
    x: GenomeView,
    y: GenomeView,
) -> bool {
    let ib = second_parent(pool, ranked, parent_count(pool.len()), i0, i1);
    &&& crossed(pool[ranked[i0] as int]@, pool[ranked[ib] as int]@, coins, x)
    &&& mutation_by(x, y, roll)
}

/// `c` is an evolved child of the pool: the parents are among the best
/// `parent_count` genomes of the ranking by score; the child is their
/// crossover, mutated and normalised, valid and new to the pool, and carries
/// the origin `Evolved` and a name `ev-<generation>-<tag>-<number>` with a
/// four-digit number.
pub open spec fn offspring(
    pool: Seq<StrategyGenome>,
    scores: Seq<u64>,
    ranked: Seq<usize>,
    ia: int,
    ib: int,
    x: GenomeView,
    y: GenomeView,
    c: GenomeView,
) -> bool {
    &&& is_ranking(scores, all_indices(pool.len()), ranked)
    &&& candidate_of(pool, ranked, ia, ib, x, y, normalized(y))
    &&& c == GenomeView {
        id: c.id,
        origin: StrategyOrigin::Evolved,
        created_at: c.created_at,
        display_name: c.display_name,
        ..normalized(y)
    }
    &&& exists|num: nat| 1000 <= num < 9999 && c.display_name@ == #[trigger] child_name(c.generation, c.engine_type, num)
}

/// Normalisation: a semantic split position replaces the numeric one.
pub fn normalize(g: &mut StrategyGenome)
    ensures
        final(g)@ == normalized(old(g)@),
{
    if g.split_pos_semantic.is_some() {
        g.split_pos = None;
    }
}

/// A genome is valid when its desync mode is not empty.
pub fn is_valid(g: &StrategyGenome) -> (r: bool)
    ensures
        r == valid_genome(g@),
{
    !g.desync_mode.as_str().is_empty()
}

fn index_list(n: usize) -> (r: Vec<usize>)
    ensures
        r@ == all_indices(n as nat),
{
    let mut r: Vec<usize> = Vec::new();
    let mut i: usize = 0;
    while i < n
        invariant
            i <= n,
            r@ == all_indices(i as nat),
        decreases n - i,
    {
        r.push(i);
        i = i + 1;
        assert(r@ =~= all_indices(i as nat));
    }
    r
}

/// The first ranking position below `k` whose genome has id `id`.
fn first_with_id(pool: &[StrategyGenome], ranked: &Vec<usize>, k: usize, id: u128, hint: Ghost<int>) -> (r: usize)
    requires
        k <= ranked@.len(),
        forall|q: int| 0 <= q < ranked@.len() ==> #[trigger] ranked@[q] < pool@.len(),
        0 <= hint@ < k,
        pool@[ranked@[hint@] as int].id == id,
    ensures
        r < k,
        r <= hint@,
        pool@[ranked@[r as int] as int].id == id,
        forall|q: int| 0 <= q < r ==> pool@[#[trigger] ranked@[q] as int].id != id,
{
    let mut q: usize = 0;
    while pool[ranked[q]].id != id
        invariant
            q <= hint@,
            0 <= hint@ < k <= ranked@.len(),
            forall|j: int| 0 <= j < ranked@.len() ==> #[trigger] ranked@[j] < pool@.len(),
            pool@[ranked@[hint@] as int].id == id,
            forall|j: int| 0 <= j < q ==> pool@[#[trigger] ranked@[j] as int].id != id,
        decreases hint@ - q,
    {
        q = q + 1;
    }
    q
}

/// The ranking position of the second parent (`second_parent`).
fn second_parent_position(pool: &[StrategyGenome], ranked: &Vec<usize>, k: usize, i0: usize, i1: usize) -> (ib: usize)
    requires
        1 < k <= ranked@.len(),
        i0 < k,
        i1 < k,
        forall|q: int| 0 <= q < ranked@.len() ==> #[trigger] ranked@[q] < pool@.len(),
    ensures
        ib == second_parent(pool@, ranked@, k as nat, i0 as int, i1 as int),
        ib < k,
        distinct_ids(pool@, ranked@.take(k as int)) ==> pool@[ranked@[i0 as int] as int].id
            != pool@[ranked@[ib as int] as int].id,
{
    let p0 = ranked[i0];
    let id = pool[p0].id;
    if pool[ranked[i1]].id == id {
        let pos = first_with_id(pool, ranked, k, id, Ghost(i0 as int));
        let ib = if pos + 1 < k {
            pos + 1
        } else {
            0
        };
        proof {
            assert(first_with(pool@, ranked@, k as nat, id, pos as int));
            let ch = choose|q: int| #[trigger] first_with(pool@, ranked@, k as nat, id, q);
            assert(first_with(pool@, ranked@, k as nat, id, ch));
            assert(ch == pos) by {
                if ch < pos {
                    assert(pool@[ranked@[ch] as int].id != id);
                } else if pos < ch {
                    assert(pool@[ranked@[pos as int] as int].id != id);
                }
            }
            if distinct_ids(pool@, ranked@.take(k as int)) {
                let t = ranked@.take(k as int);
                assert(pos == i0) by {
                    if pos < i0 {
                        assert(t[pos as int] == ranked@[pos as int]);
                        assert(t[i0 as int] == ranked@[i0 as int]);
                        assert(pool@[t[pos as int] as int].id != pool@[t[i0 as int] as int].id);
                    }
                }
                assert(ib != i0);
                assert(t[ib as int] == ranked@[ib as int]);
                assert(t[i0 as int] == ranked@[i0 as int]);
                assert(pool@[t[ib as int] as int].id != pool@[t[i0 as int] as int].id);
            }
        }
        ib
    } else {
        i1
    }
}

/// An evolved child's final form: `child` with the given id and creation
/// time, the origin `Evolved`, and the name `ev-<generation>-<tag>-<num>`.
pub fn name_child(child: StrategyGenome, id: u128, created_at: i64, num: u64) -> (c: StrategyGenome)
    ensures
        c@ == (GenomeView {
            id,
            origin: StrategyOrigin::Evolved,
            created_at,
            display_name: c@.display_name,
            ..child@
        }),
        c@.display_name@ == child_name(child.generation, child.engine_type, num as nat),
{
    let mut child = child;
    child.id = id;
    child.origin = StrategyOrigin::Evolved;
    child.created_at = created_at;
    let mut name = String::from_str("ev-");
    append_u64(&mut name, child.generation as u64);
    name.append("-");
    name.append(if child.engine_type == DpiEngineType::ByeDpi { "byedpi" } else { "zapret" });
    name.append("-");
    append_u64(&mut name, num);
    child.display_name = name;
    proof {
        assert(child.display_name@ =~= child_name(child.generation, child.engine_type, num as nat));
    }
    child
}

/// The number of successful trials (score at least 50) of genome `id`.
pub open spec fn successes_of(id: u128, outcomes: Seq<(u128, i32)>) -> nat
    decreases outcomes.len(),
{
    if outcomes.len() == 0 {
        0
    } else {
        successes_of(id, outcomes.drop_last()) + if outcomes.last().0 == id && outcomes.last().1 >= 50 {
            1nat
        } else {
            0nat
        }
    }
}

/// The number of trials of genome `id`.
pub open spec fn trials_of(id: u128, outcomes: Seq<(u128, i32)>) -> nat
    decreases outcomes.len(),
{
    if outcomes.len() == 0 {
        0
    } else {
        trials_of(id, outcomes.drop_last()) + if outcomes.last().0 == id {
            1nat
        } else {
            0nat
        }
    }
}

/// The successful and total trials of genome `id` in `outcomes`; a trial
/// succeeds with a score of at least 50.
pub fn outcome_counts(id: u128, outcomes: &[(u128, i32)]) -> (r: (u64, u64))
    ensures
        r.0 == successes_of(id, outcomes@),
        r.1 == trials_of(id, outcomes@),
{
    let mut s: u64 = 0;
    let mut n: u64 = 0;
    let mut i: usize = 0;
    while i < outcomes.len()
        invariant
            i <= outcomes@.len(),
            s == successes_of(id, outcomes@.take(i as int)),
            n == trials_of(id, outcomes@.take(i as int)),
            s <= n <= i,
        decreases outcomes@.len() - i,
    {
        let (oid, score) = outcomes[i];
        assert(outcomes@.take(i + 1).drop_last() =~= outcomes@.take(i as int));
        if oid == id {
            n = n + 1;
            if score >= 50 {
                s = s + 1;
            }
        }
        i = i + 1;
    }
    assert(outcomes@.take(outcomes@.len() as int) =~= outcomes@);
    (s, n)
}

/// The trial counts of every genome of the pool, in pool order.
pub fn pool_outcome_counts(pool: &[StrategyGenome], outcomes: &[(u128, i32)]) -> (r: Vec<(u64, u64)>)
    ensures
        r@.len() == pool@.len(),
        forall|i: int|
            0 <= i < r@.len() ==> #[trigger] r@[i] == (
                successes_of(pool@[i].id, outcomes@) as u64,
                trials_of(pool@[i].id, outcomes@) as u64,
            ),
{
    let mut r: Vec<(u64, u64)> = Vec::new();
    let mut i: usize = 0;
    while i < pool.len()
        invariant
            i <= pool@.len(),
            r@.len() == i,
            forall|j: int|
                0 <= j < i ==> #[trigger] r@[j] == (
                    successes_of(pool@[j].id, outcomes@) as u64,
                    trials_of(pool@[j].id, outcomes@) as u64,
                ),
        decreases pool@.len() - i,
    {
        let c = outcome_counts(pool[i].id, outcomes);
        r.push(c);
        i = i + 1;
    }
    r
}

/// The positions of the first `n` genomes whose origin is (when `evolved`)
/// or is not (otherwise) `Evolved`, in pool order.
pub open spec fn positions_where(pool: Seq<StrategyGenome>, evolved: bool, n: nat) -> Seq<usize>
    decreases n,
{
    if n == 0 {
        Seq::empty()
    } else {
        let prev = positions_where(pool, evolved, (n - 1) as nat);
        if (pool[n - 1].origin == StrategyOrigin::Evolved) == evolved {
            prev.push((n - 1) as usize)
        } else {
            prev
        }
    }
}

/// The positions of the evolved genomes of the pool.
pub open spec fn evolved_positions(pool: Seq<StrategyGenome>) -> Seq<usize> {
    positions_where(pool, true, pool.len())
}

/// The positions of the other genomes of the pool.
pub open spec fn other_positions(pool: Seq<StrategyGenome>) -> Seq<usize> {
    positions_where(pool, false, pool.len())
}

/// The most evolved genomes garbage collection keeps: the configured
/// maximum, at least 4.
pub open spec fn gc_limit(max_evolved: usize) -> nat {
    if max_evolved < 4 {
        4
    } else {
        max_evolved as nat
    }
}

/// How many of the best evolved genomes are protected: a quarter of the
/// limit, at least 2, when elitism is on; none otherwise.
pub open spec fn elite_count(max_evolved: usize, elitism: bool) -> nat {
    if elitism {
        let q = gc_limit(max_evolved) / 4;
        if q < 2 {
            2
        } else {
            q
        }
    } else {
        0
    }
}

/// How many evolved genomes below the elite stay: those that fit, with the
/// other genomes and the elite, under the limit.
pub open spec fn room_count(limit: nat, others: nat, elite: nat, ranked: nat) -> nat {
    let room = limit - others - elite;
    if room < 0 {
        0
    } else if room > ranked - elite {
        (ranked - elite) as nat
    } else {
        room as nat
    }
}

/// The positions that stay in the pool after garbage collection, given the
/// ranking `r` of the evolved positions: all genomes, evolved first, when
/// the evolved ones are within the limit; otherwise the elite and the best
/// others that fit, then the genomes that are not evolved.
pub open spec fn kept_positions(pool: Seq<StrategyGenome>, r: Seq<usize>, limit: nat, elite: nat) -> Seq<usize> {
    let ev = evolved_positions(pool);
    let ot = other_positions(pool);
    if ev.len() <= limit {
        ev + ot
    } else {
        r.take(elite + room_count(limit, ot.len(), elite, r.len()) as int) + ot
    }
}

/// The positions removed by garbage collection: the ranked evolved genomes
/// after those kept.
pub open spec fn removed_positions(pool: Seq<StrategyGenome>, r: Seq<usize>, limit: nat, elite: nat) -> Seq<usize> {
    let ev = evolved_positions(pool);
    let ot = other_positions(pool);
    if ev.len() <= limit {
        Seq::empty()
    } else {
        r.skip(elite + room_count(limit, ot.len(), elite, r.len()) as int)
    }
}

/// `out` holds copies of the genomes of `pool` at positions `idx`, in order.
pub open spec fn gathered(out: Seq<StrategyGenome>, pool: Seq<StrategyGenome>, idx: Seq<usize>) -> bool {
    &&& out.len() == idx.len()
    &&& forall|j: int| 0 <= j < idx.len() ==> (#[trigger] out[j])@ == pool[idx[j] as int]@
}

fn positions(pool: &Vec<StrategyGenome>, evolved: bool) -> (r: Vec<usize>)
    ensures
        r@ == positions_where(pool@, evolved, pool@.len()),
{
    let mut r: Vec<usize> = Vec::new();
    let mut i: usize = 0;
    while i < pool.len()
        invariant
            i <= pool@.len(),
            r@ == positions_where(pool@, evolved, i as nat),
        decreases pool@.len() - i,
    {
        if (pool[i].origin == StrategyOrigin::Evolved) == evolved {
            r.push(i);
        }
        i = i + 1;
    }
    r
}

proof fn lemma_positions_in_range(pool: Seq<StrategyGenome>, evolved: bool, n: nat)
    requires
        n <= usize::MAX,
    ensures
        forall|j: int|
            0 <= j < positions_where(pool, evolved, n).len() ==> #[trigger] positions_where(pool, evolved, n)[j]
                < n,
    decreases n,
{
    if n > 0 {
        lemma_positions_in_range(pool, evolved, (n - 1) as nat);
        let prev = positions_where(pool, evolved, (n - 1) as nat);
        let cur = positions_where(pool, evolved, n);
        assert forall|j: int| 0 <= j < cur.len() implies #[trigger] cur[j] < n by {
            if j < prev.len() {
                assert(cur[j] == prev[j]);
            }
        }
    }
}

proof fn lemma_positions_distinct(pool: Seq<StrategyGenome>, evolved: bool, n: nat)
    requires
        n <= usize::MAX,
    ensures
        distinct(positions_where(pool, evolved, n)),
    decreases n,
{
    if n > 0 {
        lemma_positions_distinct(pool, evolved, (n - 1) as nat);
        lemma_positions_in_range(pool, evolved, (n - 1) as nat);
        let prev = positions_where(pool, evolved, (n - 1) as nat);
        let cur = positions_where(pool, evolved, n);
        assert forall|a: int, b: int|
            0 <= a < cur.len() && 0 <= b < cur.len() && a != b implies #[trigger] cur[a] != #[trigger] cur[b] by {
            if (pool[n - 1].origin == StrategyOrigin::Evolved) == evolved {
                assert(cur == prev.push((n - 1) as usize));
                if a < prev.len() && b < prev.len() {
                    assert(cur[a] == prev[a] && cur[b] == prev[b]);
                } else if a < prev.len() {
                    assert(cur[a] == prev[a]);
                    assert(prev[a] < n - 1);
                    assert(cur[b] == n - 1);
                } else {
                    assert(cur[b] == prev[b]);
                    assert(prev[b] < n - 1);
                    assert(cur[a] == n - 1);
                }
            } else {
                assert(cur == prev);
            }
        }
    }
}

fn gather(pool: &Vec<StrategyGenome>, idx: &Vec<usize>) -> (r: Vec<StrategyGenome>)
    requires
        forall|j: int| 0 <= j < idx@.len() ==> #[trigger] idx@[j] < pool@.len(),
    ensures
        gathered(r@, pool@, idx@),
{
    let mut r: Vec<StrategyGenome> = Vec::new();
    let mut j: usize = 0;
    while j < idx.len()
        invariant
            j <= idx@.len(),
            forall|q: int| 0 <= q < idx@.len() ==> #[trigger] idx@[q] < pool@.len(),
            gathered(r@, pool@, idx@.take(j as int)),
        decreases idx@.len() - j,
    {
        let g = pool[idx[j]].clone();
        r.push(g);
        j = j + 1;
        assert forall|q: int| 0 <= q < idx@.take(j as int).len() implies (#[trigger] r@[q])@ == pool@[idx@.take(j as int)[q] as int]@ by {
            if q < j - 1 {
                assert(idx@.take(j as int)[q] == idx@.take(j - 1)[q]);
            }
        }
    }
    assert(idx@.take(idx@.len() as int) =~= idx@);
    r
}

fn take_idx(v: &Vec<usize>, m: usize) -> (r: Vec<usize>)
    requires
        m <= v@.len(),
    ensures
        r@ == v@.take(m as int),
{
    let mut r: Vec<usize> = Vec::new();
    let mut j: usize = 0;
    while j < m
        invariant
            j <= m <= v@.len(),
            r@ == v@.take(j as int),
        decreases m - j,
    {
        r.push(v[j]);
        j = j + 1;
        assert(r@ =~= v@.take(j as int));
    }
    r
}

fn skip_idx(v: &Vec<usize>, m: usize) -> (r: Vec<usize>)
    requires
        m <= v@.len(),
    ensures
        r@ == v@.skip(m as int),
{
    let mut r: Vec<usize> = Vec::new();
    let mut j: usize = m;
    while j < v.len()
        invariant
            m <= j <= v@.len(),
            r@ == v@.subrange(m as int, j as int),
        decreases v@.len() - j,
    {
        r.push(v[j]);
        j = j + 1;
        assert(r@ =~= v@.subrange(m as int, j as int));
    }
    assert(v@.subrange(m as int, v@.len() as int) =~= v@.skip(m as int));
    r
}

fn concat_idx(a: &Vec<usize>, b: &Vec<usize>) -> (r: Vec<usize>)
    ensures
        r@ == a@ + b@,
{
    let mut r = take_idx(a, a.len());
    assert(a@.take(a@.len() as int) =~= a@);
    let mut j: usize = 0;
    while j < b.len()
        invariant
            j <= b@.len(),
            r@ == a@ + b@.take(j as int),
        decreases b@.len() - j,
    {
        r.push(b[j]);
        j = j + 1;
        assert(r@ =~= a@ + b@.take(j as int));
    }
    assert(b@.take(b@.len() as int) =~= b@);
    r
}

/// The genetic evolver: a random source and the limits of garbage
/// collection.
pub struct StrategyEvolver {
    rng: rand::rngs::ThreadRng,
    max_evolved: usize,
    elitism_enabled: bool,
}

impl StrategyEvolver {
    pub closed spec fn spec_max_evolved(&self) -> usize {
        self.max_evolved
    }

    pub closed spec fn spec_elitism(&self) -> bool {
        self.elitism_enabled
    }

    pub fn new(max_evolved: usize, elitism_enabled: bool) -> (r: Self)
        ensures
            r.spec_max_evolved() == max_evolved,
            r.spec_elitism() == elitism_enabled,
    {
        StrategyEvolver { rng: new_rng(), max_evolved, elitism_enabled }
    }

    /// A random value of list `c`.
    fn pick(&mut self, c: Choice) -> (r: String)
        ensures
            choices(c).contains(r@),
            final(self).spec_max_evolved() == old(self).spec_max_evolved(),
            final(self).spec_elitism() == old(self).spec_elitism(),
    {
        let k = rng_below(&mut self.rng, choice_len(c));
        let s = choice_at(c, k);
        assert(choices(c)[k as int] == s@);
        String::from_str(s)
    }

    /// A random number in `lo..hi`.
    fn below(&mut self, lo: i32, hi: i32) -> (r: i32)
        requires
            lo < hi,
        ensures
            lo <= r < hi,
            final(self).spec_max_evolved() == old(self).spec_max_evolved(),
            final(self).spec_elitism() == old(self).spec_elitism(),
    {
        let span = (hi as i64 - lo as i64) as usize;
        let k = rng_below(&mut self.rng, span);
        (lo as i64 + k as i64) as i32
    }

    fn coin(&mut self) -> (r: bool)
        ensures
            final(self).spec_max_evolved() == old(self).spec_max_evolved(),
            final(self).spec_elitism() == old(self).spec_elitism(),
    {
        rng_coin(&mut self.rng)
    }

    /// A random step of 1, 2, 4 or 8, up or down.
    pub fn pick_delta(&mut self) -> (r: i32)
        ensures
            is_delta(r as int),
            final(self).spec_max_evolved() == old(self).spec_max_evolved(),
            final(self).spec_elitism() == old(self).spec_elitism(),
    {
        let k = rng_below(&mut self.rng, 4);
        let v: i32 = if k == 0 {
            1
        } else if k == 1 {
            2
        } else if k == 2 {
            4
        } else {
            8
        };
        if self.coin() {
            v
        } else {
            -v
        }
    }

    /// A new fake TTL: an existing one moved by a random step and kept
    /// within 3..=48, or `base` plus a random number below 10.
    fn next_ttl(&mut self, prev: Option<i32>, base: i32) -> (r: i32)
        requires
            0 <= base <= 10,
        ensures
            ttl_step(prev, Some(r), base as int, 10),
            final(self).spec_max_evolved() == old(self).spec_max_evolved(),
            final(self).spec_elitism() == old(self).spec_elitism(),
    {
        match prev {
            Some(t) => {
                let d = self.pick_delta();
                let x: i64 = t as i64 + d as i64;
                let v: i64 = if x < 3 {
                    3
                } else if x > 48 {
                    48
                } else {
                    x
                };
                assert(is_delta(d as int) && v == clamp(t + d, 3, 48));
                v as i32
            },
            None => {
                let k = self.below(0, 10);
                base + k
            },
        }
    }

    /// One Zapret mutation, chosen by `roll` (a roll outside `0..15`
    /// changes nothing).
    pub fn mutate_zapret(&mut self, g: &mut StrategyGenome, roll: i32)
        ensures
            zapret_mutation(old(g)@, final(g)@, roll as int),
            final(self).spec_max_evolved() == old(self).spec_max_evolved(),
            final(self).spec_elitism() == old(self).spec_elitism(),
    {
        if roll == 0 {
            g.split_pos_semantic = Some(self.pick(Choice::SemanticMarkers));
            g.split_pos = None;
        } else if roll == 1 {
            g.desync_mode = self.pick(Choice::DesyncModes);
        } else if roll == 2 {
            let v = self.next_ttl(g.fake_ttl, 6);
            g.fake_ttl = Some(v);
        } else if roll == 3 {
            g.fake_tls_mod = Some(self.pick(Choice::FakeTlsMods));
        } else if roll == 4 {
            g.auto_ttl = !g.auto_ttl;
        } else if roll == 5 {
            g.desync_fooling = Some(self.pick(Choice::Fooling));
        } else if roll == 6 {
            g.desync_any_protocol = Some(self.pick(Choice::AnyProtocol));
        } else if roll == 7 {
            g.fake_resend = Some(self.pick(Choice::FakeResend));
        } else if roll == 8 {
            let k = rng_below(&mut self.rng, 5);
            let n: i32 = if k == 0 {
                1
            } else if k == 1 {
                2
            } else if k == 2 {
                3
            } else if k == 3 {
                5
            } else {
                10
            };
            assert(repeat_counts()[k as int] == n);
            g.repeat_count = Some(n);
        } else if roll == 9 {
            g.disorder_pos = Some(self.pick(Choice::DisorderPositions));
        } else if roll == 10 {
            g.fake_pos = Some(self.pick(Choice::FakePositions));
        } else if roll == 11 {
            g.engine_type = DpiEngineType::ByeDpi;
            g.split_pos = None;
            g.split_pos_semantic = None;
            g.auto_ttl = false;
            g.disorder_pos = Some(String::from_str("1+s"));
        } else if roll == 12 {
            g.oob_pos = Some(self.pick(Choice::OobPositions));
        } else if roll == 13 {
            g.disoob_pos = Some(self.pick(Choice::DisoobPositions));
        } else if roll == 14 {
            g.tlsrec_pos = Some(self.pick(Choice::TlsrecPositions));
        }
    }

    /// One Warp mutation, chosen by `roll` (a roll outside `0..7` changes
    /// nothing).
    pub fn mutate_warp(&mut self, g: &mut StrategyGenome, roll: i32)
        ensures
            warp_mutation(old(g)@, final(g)@, roll as int),
            final(self).spec_max_evolved() == old(self).spec_max_evolved(),
            final(self).spec_elitism() == old(self).spec_elitism(),
    {
        if roll == 0 {
            g.engine_type = DpiEngineType::Zapret;
        } else if roll == 1 {
            g.engine_type = DpiEngineType::ByeDpi;
        } else if roll == 2 {
            let base: i64 = match g.mtu {
                Some(v) => v as i64,
                None => 1280,
            };
            let j = self.below(0, 3);
            let x: i64 = base + (j as i64 - 1) * 20;
            let m: i64 = if x < 1200 {
                1200
            } else if x > 1500 {
                1500
            } else {
                x
            };
            g.mtu = Some(m as i32);
        } else if roll == 3 {
            g.gool_enabled = !g.gool_enabled;
        } else if roll == 4 {
            g.psiphon_enabled = !g.psiphon_enabled;
            if g.psiphon_enabled {
                g.psiphon_country = Some(self.pick(Choice::PsiphonCountries));
            }
        } else if roll == 5 {
            g.scan_enabled = !g.scan_enabled;
        } else if roll == 6 {
            let a = self.below(0, 256);
            let b = self.below(0, 256);
            let c = self.below(0, 256);
            let mut s = String::new();
            append_u64(&mut s, a as u64);
            s.append(",");
            append_u64(&mut s, b as u64);
            s.append(",");
            append_u64(&mut s, c as u64);
            assert(s@ =~= reserved_text(a as nat, b as nat, c as nat));
            g.reserved = Some(s);
        }
    }

    /// One ByeDPI mutation, chosen by `roll` (every roll from 11 on sets the
    /// TLS minor version).
    pub fn mutate_byedpi(&mut self, g: &mut StrategyGenome, roll: i32)
        ensures
            byedpi_mutation(old(g)@, final(g)@, roll as int),
            final(self).spec_max_evolved() == old(self).spec_max_evolved(),
            final(self).spec_elitism() == old(self).spec_elitism(),
    {
        if roll == 0 {
            g.split_pos = None;
            g.split_pos_semantic = Some(self.pick(Choice::SplitPositions));
        } else if roll == 1 {
            g.disorder_pos = Some(self.pick(Choice::DisorderPositions));
        } else if roll == 2 {
            g.fake_pos = Some(self.pick(Choice::FakePositions));
            if g.fake_ttl.is_none() {
                let k = self.below(0, 8);
                g.fake_ttl = Some(5 + k);
            }
        } else if roll == 3 {
            g.tlsrec_pos = Some(self.pick(Choice::TlsrecPositions));
        } else if roll == 4 {
            g.oob_pos = Some(self.pick(Choice::OobPositions));
        } else if roll == 5 {
            let v = self.next_ttl(g.fake_ttl, 5);
            g.fake_ttl = Some(v);
        } else if roll == 6 {
            let cur = match g.md5sig {
                Some(b) => b,
                None => true,
            };
            g.md5sig = Some(!cur);
        } else if roll == 7 {
            g.fake_tls_mod = Some(self.pick(Choice::FakeTlsMods));
        } else if roll == 8 {
            g.auto = Some(
                if self.coin() {
                    String::from_str("torst")
                } else {
                    String::from_str("ssl_err")
                },
            );
            let k = self.below(0, 4);
            g.timeout = Some(3 + k);
        } else if roll == 9 {
            g.mod_http = Some(self.pick(Choice::ModHttp));
        } else if roll == 10 {
            g.engine_type = DpiEngineType::Zapret;
            g.disorder_pos = None;
            g.fake_pos = None;
            g.md5sig = None;
            g.fake_sni = None;
            g.fake_data = None;
            g.mod_http = None;
            g.tlsminor = None;
            g.hosts = None;
            g.auto = None;
            g.timeout = None;
            g.auto_mode = None;
            g.cache_ttl = None;
        } else {
            let v = self.below(2, 4);
            g.tlsminor = Some(v);
        }
    }

    /// Mutation with roll `roll`: the change that the roll selects for the
    /// genome's engine.
    pub fn mutate_with(&mut self, g: &mut StrategyGenome, roll: i32)
        requires
            0 <= roll < 15,
        ensures
            mutation_by(old(g)@, final(g)@, roll as int),
            final(self).spec_max_evolved() == old(self).spec_max_evolved(),
            final(self).spec_elitism() == old(self).spec_elitism(),
    {
        match g.engine_type {
            DpiEngineType::ByeDpi => self.mutate_byedpi(g, roll),
            DpiEngineType::Warp => self.mutate_warp(g, roll),
            DpiEngineType::Zapret => self.mutate_zapret(g, roll),
        }
    }

    /// Mutation: one random change suited to the genome's engine.
    pub fn mutate(&mut self, g: &mut StrategyGenome)
        ensures
            mutation_of(old(g)@, final(g)@),
            final(self).spec_max_evolved() == old(self).spec_max_evolved(),
            final(self).spec_elitism() == old(self).spec_elitism(),
    {
        let roll = self.below(0, 15);
        self.mutate_with(g, roll);
        assert(0 <= roll < 15 && mutation_by(old(g)@, final(g)@, roll as int));
    }

    /// One breeding attempt, with its draws given: ranking positions `i0` and
    /// `i1` among the best (`parent_count`), the crossover's `coins`, the
    /// mutation `roll`, and the id and creation time of the crossover child.
    /// The parents are at `i0` and `second_parent(..)`; their crossover is
    /// mutated with `roll` and normalised, and comes back when it is valid
    /// and its signature is new to the pool.
    pub fn breed_attempt(
        &mut self,
        pool: &[StrategyGenome],
        ranked: &Vec<usize>,
        i0: usize,
        i1: usize,
        coins: &[bool],
        roll: i32,
        id: u128,
        created_at: i64,
    ) -> (r: Option<StrategyGenome>)
        requires
            pool@.len() >= 2,
            ranked@.len() == pool@.len(),
            forall|q: int| 0 <= q < ranked@.len() ==> #[trigger] ranked@[q] < pool@.len(),
            i0 < parent_count(pool@.len()),
            i1 < parent_count(pool@.len()),
            parents_below_max(pool@, ranked@),
            coins@.len() == CROSSOVER_COINS,
            0 <= roll < 15,
        ensures
            exists|x: GenomeView, y: GenomeView|
                {
                    &&& #[trigger] attempt_of(pool@, ranked@, i0 as int, i1 as int, coins@, roll as int, x, y)
                    &&& x.id == id
                    &&& x.created_at == created_at
                    &&& bred_from(
                        pool@,
                        ranked@,
                        i0 as int,
                        second_parent(pool@, ranked@, parent_count(pool@.len()), i0 as int, i1 as int),
                        x,
                        y,
                        normalized(y),
                    )
                    &&& (r is Some <==> accepted(pool@, normalized(y)))
                    &&& (r matches Some(c) ==> c@ == normalized(y))
                },
            final(self).spec_max_evolved() == old(self).spec_max_evolved(),
            final(self).spec_elitism() == old(self).spec_elitism(),
    {
        let k: usize = if pool.len() < 6 {
            pool.len()
        } else {
            6
        };
        let ib = second_parent_position(pool, ranked, k, i0, i1);
        let pa = &pool[ranked[i0]];
        let pb = &pool[ranked[ib]];
        let mut candidate = crossover_with(pa, pb, coins, id, created_at);
        let ghost x = candidate@;
        self.mutate_with(&mut candidate, roll);
        let ghost y = candidate@;
        normalize(&mut candidate);
        proof {
            crossed_is_crossover(pa@, pb@, coins@, x);
            assert(0 <= roll < 15 && mutation_by(x, y, roll as int));
            assert(attempt_of(pool@, ranked@, i0 as int, i1 as int, coins@, roll as int, x, y));
            assert(bred_from(pool@, ranked@, i0 as int, ib as int, x, y, normalized(y)));
        }
        if is_valid(&candidate) && !exists_in(&candidate, pool) {
            Some(candidate)
        } else {
            None
        }
    }

    /// A new strategy bred from the best parents of the pool.
    ///
    /// `scores[i]` ranks `pool[i]` (higher is better; the application
    /// scores a genome by the Wilson lower bound of its trials, counted by
    /// `pool_outcome_counts`). Two parents are drawn from the six best; up
    /// to 25 attempts (`breed_attempt`) are made to breed a valid child whose
    /// signature is new to the pool, which `name_child` then names.
    pub fn evolve(&mut self, pool: &[StrategyGenome], scores: &[u64]) -> (r: Result<StrategyGenome, AiError>)
        requires
            scores@.len() == pool@.len(),
            pool@.len() >= 2 ==> forall|ranked: Seq<usize>|
                #[trigger] is_ranking(scores@, all_indices(pool@.len()), ranked) ==> parents_below_max(pool@, ranked),
        ensures
            pool@.len() < 2 ==> (r matches Err(AiError::Evolution(m)) && m@ == "need at least 2 genomes in pool"@),
            pool@.len() >= 2 && r is Err ==> (r matches Err(AiError::Evolution(m)) && m@
                == "failed to create valid child after 25 attempts"@),
            pool@.len() >= 2 && r is Err ==> exists|ranked: Seq<usize>, refused: Seq<GenomeView>|
                #[trigger] breeding_failed(pool@, scores@, ranked, refused),
            r matches Ok(c) ==> exists|ranked: Seq<usize>, ia: int, ib: int, x: GenomeView, y: GenomeView|
                #[trigger] offspring(pool@, scores@, ranked, ia, ib, x, y, c@),
            final(self).spec_max_evolved() == old(self).spec_max_evolved(),
            final(self).spec_elitism() == old(self).spec_elitism(),
    {
        let n = pool.len();
        if n < 2 {
            return Err(AiError::Evolution(String::from_str("need at least 2 genomes in pool")));
        }
        let all = index_list(n);
        proof {
            assert forall|a: int, b: int|
                0 <= a < all@.len() && 0 <= b < all@.len() && a != b implies #[trigger] all@[a]
                != #[trigger] all@[b] by {}
        }
        let ranked = rank_indices(scores, &all);
        proof {
            assert forall|q: int| 0 <= q < ranked@.len() implies #[trigger] ranked@[q] < pool@.len() by {
                assert(ranked@.contains(ranked@[q]));
                assert(all@.contains(ranked@[q]));
            }
            assert(is_ranking(scores@, all_indices(pool@.len()), ranked@));
        }
        let k: usize = if n < 6 {
            n
        } else {
            6
        };
        let mut attempt: usize = 0;
        let mut found: Option<StrategyGenome> = None;
        let ghost mut refused: Seq<GenomeView> = Seq::empty();
        let ghost mut w_ia: int = 0;
        let ghost mut w_ib: int = 0;
        let ghost mut w_x: GenomeView = pool@[0]@;
        let ghost mut w_y: GenomeView = pool@[0]@;
        while attempt < 25 && found.is_none()
            invariant
                attempt <= 25,
                n == pool@.len(),
                n >= 2,
                k == parent_count(n as nat),
                ranked@.len() == n,
                is_ranking(scores@, all_indices(pool@.len()), ranked@),
                forall|q: int| 0 <= q < ranked@.len() ==> #[trigger] ranked@[q] < pool@.len(),
                parents_below_max(pool@, ranked@),
                found is None ==> refused.len() == attempt,
                forall|t: int| 0 <= t < refused.len() ==> #[trigger] rejected_by(pool@, ranked@, refused[t]),
                found matches Some(c) ==> candidate_of(pool@, ranked@, w_ia, w_ib, w_x, w_y, c@),
                self.spec_max_evolved() == old(self).spec_max_evolved(),
                self.spec_elitism() == old(self).spec_elitism(),
            decreases 25 - attempt,
        {
            let i0 = rng_below(&mut self.rng, k);
            let i1 = rng_below(&mut self.rng, k);
            let id = fresh_id();
            let coins = self.toss_coins();
            let created_at = now_millis();
            let roll = self.below(0, 15);
            let r = self.breed_attempt(pool, &ranked, i0, i1, coins.as_slice(), roll, id, created_at);
            proof {
                let ib = second_parent(pool@, ranked@, parent_count(pool@.len()), i0 as int, i1 as int);
                let (x, y) = choose|x: GenomeView, y: GenomeView|
                    {
                        &&& #[trigger] attempt_of(pool@, ranked@, i0 as int, i1 as int, coins@, roll as int, x, y)
                        &&& x.id == id
                        &&& x.created_at == created_at
                        &&& bred_from(pool@, ranked@, i0 as int, ib, x, y, normalized(y))
                        &&& (r is Some <==> accepted(pool@, normalized(y)))
                        &&& (r matches Some(c) ==> c@ == normalized(y))
                    };
                if r is Some {
                    w_ia = i0 as int;
                    w_ib = ib;
                    w_x = x;
                    w_y = y;
                } else {
                    assert(rejected_by(pool@, ranked@, normalized(y)));
                    refused = refused.push(normalized(y));
                }
            }
            found = r;
            attempt = attempt + 1;
        }
        match found {
            None => {
                proof {
                    assert(breeding_failed(pool@, scores@, ranked@, refused));
                }
                Err(AiError::Evolution(String::from_str("failed to create valid child after 25 attempts")))
            },
            Some(child) => {
                let id = fresh_id();
                let created_at = now_millis();
                let num = self.below(1000, 9999);
                let child = name_child(child, id, created_at, num as u64);
                proof {
                    assert(candidate_of(pool@, ranked@, w_ia, w_ib, w_x, w_y, normalized(w_y)));
                    let ghost nn: nat = num as nat;
                    assert(1000 <= nn < 9999 && child@.display_name@ == child_name(child@.generation, child@.engine_type, nn));
                    assert(offspring(pool@, scores@, ranked@, w_ia, w_ib, w_x, w_y, child@));
                }
                Ok(child)
            },
        }
    }

    /// Garbage collection of evolved genomes.
    ///
    /// `scores[i]` ranks `pool[i]`, as for `evolve`. While the evolved
    /// genomes are within the limit (`gc_limit`), the pool keeps all of them,
    /// evolved ones first, and nothing is removed. Otherwise the evolved
    /// genomes are ranked; the elite (`elite_count`) stays, then the best of
    /// the rest while they fit under the limit together with the genomes that
    /// are not evolved, which all stay; the rest is removed and returned.
    pub fn gc_evolved(&self, pool: &mut Vec<StrategyGenome>, scores: &[u64]) -> (removed: Vec<StrategyGenome>)
        requires
            scores@.len() == old(pool)@.len(),
        ensures
            exists|r: Seq<usize>|
                #![trigger is_ranking(scores@, evolved_positions(old(pool)@), r)]
                {
                    let limit = gc_limit(self.spec_max_evolved());
                    let elite = elite_count(self.spec_max_evolved(), self.spec_elitism());
                    &&& is_ranking(scores@, evolved_positions(old(pool)@), r)
                    &&& gathered(final(pool)@, old(pool)@, kept_positions(old(pool)@, r, limit, elite))
                    &&& gathered(removed@, old(pool)@, removed_positions(old(pool)@, r, limit, elite))
                },
    {
        let limit: usize = if self.max_evolved < 4 {
            4
        } else {
            self.max_evolved
        };
        let elite: usize = if self.elitism_enabled {
            let q = limit / 4;
            if q < 2 {
                2
            } else {
                q
            }
        } else {
            0
        };
        let mut old_pool: Vec<StrategyGenome> = Vec::new();
        std::mem::swap(pool, &mut old_pool);
        let ev = positions(&old_pool, true);
        let ot = positions(&old_pool, false);
        let n = old_pool.len();
        proof {
            assert(n == old_pool@.len());
            lemma_positions_in_range(old_pool@, true, old_pool@.len());
            lemma_positions_in_range(old_pool@, false, old_pool@.len());
            lemma_positions_distinct(old_pool@, true, old_pool@.len());
        }
        let ranked = rank_indices(scores, &ev);
        proof {
            assert forall|q: int| 0 <= q < ranked@.len() implies #[trigger] ranked@[q] < old_pool@.len() by {
                assert(ranked@.contains(ranked@[q]));
                assert(ev@.contains(ranked@[q]));
            }
        }
        let ghost lim = gc_limit(self.max_evolved);
        let ghost el = elite_count(self.max_evolved, self.elitism_enabled);
        if ev.len() <= limit {
            let kept = concat_idx(&ev, &ot);
            let mut kept_pool = gather(&old_pool, &kept);
            std::mem::swap(pool, &mut kept_pool);
            let none: Vec<StrategyGenome> = Vec::new();
            proof {
                assert(kept@ == kept_positions(old(pool)@, ranked@, lim, el));
                assert(removed_positions(old(pool)@, ranked@, lim, el) =~= Seq::<usize>::empty());
                assert(is_ranking(scores@, evolved_positions(old(pool)@), ranked@));
            }
            return none;
        }
        // room below the limit after the genomes that are not evolved and the elite
        let rest = ranked.len() - elite;
        let fit: usize = if ot.len() >= limit {
            0
        } else if limit - ot.len() <= elite {
            0
        } else if limit - ot.len() - elite > rest {
            rest
        } else {
            limit - ot.len() - elite
        };
        let cut = elite + fit;
        let head = take_idx(&ranked, cut);
        let kept = concat_idx(&head, &ot);
        let gone = skip_idx(&ranked, cut);
        let mut kept_pool = gather(&old_pool, &kept);
        std::mem::swap(pool, &mut kept_pool);
        let removed = gather(&old_pool, &gone);
        proof {
            assert(fit == room_count(lim, ot@.len(), el, ranked@.len()));
            assert(kept@ == kept_positions(old(pool)@, ranked@, lim, el));
            assert(gone@ == removed_positions(old(pool)@, ranked@, lim, el));
            assert(is_ranking(scores@, evolved_positions(old(pool)@), ranked@));
        }
        removed
    }

    /// Tosses the coins of one crossover.
    fn toss_coins(&mut self) -> (r: Vec<bool>)
        ensures
            r@.len() == CROSSOVER_COINS,
            final(self).spec_max_evolved() == old(self).spec_max_evolved(),
            final(self).spec_elitism() == old(self).spec_elitism(),
    {
        let mut coins: Vec<bool> = Vec::new();
        while coins.len() < CROSSOVER_COINS
            invariant
                coins@.len() <= CROSSOVER_COINS,
                self.spec_max_evolved() == old(self).spec_max_evolved(),
                self.spec_elitism() == old(self).spec_elitism(),
            decreases CROSSOVER_COINS - coins@.len(),
        {
            coins.push(self.coin());
        }
        coins
    }

    /// Crossover: every parameter is taken from one of the two parents by the
    /// toss of a coin; the child names both as parents.
    pub fn crossover(&mut self, a: &StrategyGenome, b: &StrategyGenome) -> (c: StrategyGenome)
        requires
            a.generation < u32::MAX,
            b.generation < u32::MAX,
        ensures
            exists|coins: Seq<bool>| coins.len() == CROSSOVER_COINS && #[trigger] crossed(a@, b@, coins, c@),
            crossover_of(a@, b@, c@),
            final(self).spec_max_evolved() == old(self).spec_max_evolved(),
            final(self).spec_elitism() == old(self).spec_elitism(),
    {
        let id = fresh_id();
        let coins = self.toss_coins();
        let created_at = now_millis();
        let c = crossover_with(a, b, coins.as_slice(), id, created_at);
        proof {
            crossed_is_crossover(a@, b@, coins@, c@);
        }
        c
    }
}


proof fn lemma_positions_contain(pool: Seq<StrategyGenome>, evolved: bool, n: nat)
    requires
        n <= usize::MAX,
        n <= pool.len(),
    ensures
        forall|i: usize|
            #[trigger] positions_where(pool, evolved, n).contains(i) <==> (i < n && (pool[i as int].origin
                == StrategyOrigin::Evolved) == evolved),
        positions_where(pool, true, n).len() + positions_where(pool, false, n).len() == n,
    decreases n,
{
    if n > 0 {
        lemma_positions_contain(pool, evolved, (n - 1) as nat);
        let prev = positions_where(pool, evolved, (n - 1) as nat);
        let cur = positions_where(pool, evolved, n);
        assert forall|i: usize|
            #[trigger] cur.contains(i) <==> (i < n && (pool[i as int].origin == StrategyOrigin::Evolved) == evolved) by {
            if (pool[n - 1].origin == StrategyOrigin::Evolved) == evolved {
                assert(cur == prev.push((n - 1) as usize));
                if cur.contains(i) {
                    let k = choose|k: int| 0 <= k < cur.len() && cur[k] == i;
                    if k < prev.len() {
                        assert(prev[k] == i);
                        assert(prev.contains(i));
                    }
                }
                if i < n && (pool[i as int].origin == StrategyOrigin::Evolved) == evolved {
                    if i < n - 1 {
                        assert(prev.contains(i));
                        let k = choose|k: int| 0 <= k < prev.len() && prev[k] == i;
                        assert(cur[k] == i);
                    } else {
                        assert(cur[prev.len() as int] == i);
                    }
                }
            } else {
                assert(cur == prev);
            }
        }
    }
}

/// The garbage-collection limit is the configured maximum, at least 4:
/// while the evolved genomes number at most that, nothing is removed and
/// every genome stays. Beyond it, an evolved genome is removed only once the
/// evolved genomes kept reach the limit less the genomes that are not
/// evolved, and at least the elite (with elitism a quarter of the limit, at
/// least 2; none without) stays.
pub proof fn gc_limit_is_the_configured_maximum(
    pool: Seq<StrategyGenome>,
    scores: Seq<u64>,
    r: Seq<usize>,
    max_evolved: usize,
    elitism: bool,
)
    requires
        pool.len() <= usize::MAX,
        is_ranking(scores, evolved_positions(pool), r),
    ensures
        ({
            let cap: int = if max_evolved < 4 { 4 } else { max_evolved as int };
            let elite: int = if !elitism { 0 } else if cap / 4 < 2 { 2 } else { cap / 4 };
            let kept = kept_positions(pool, r, gc_limit(max_evolved), elite_count(max_evolved, elitism));
            let gone = removed_positions(pool, r, gc_limit(max_evolved), elite_count(max_evolved, elitism));
            let ev = evolved_positions(pool).len();
            let ot = other_positions(pool).len();
            &&& ev + ot == pool.len()
            &&& ev <= cap ==> gone.len() == 0 && kept.len() == pool.len()
            &&& gone.len() > 0 ==> ev > cap && kept.len() - ot >= cap - ot && kept.len() - ot >= elite
        }),
{
    let limit = gc_limit(max_evolved);
    let el = elite_count(max_evolved, elitism);
    let ev = evolved_positions(pool);
    let ot = other_positions(pool);
    lemma_positions_contain(pool, true, pool.len());
    if ev.len() > limit {
        let m = el + room_count(limit, ot.len(), el, r.len());
        assert(kept_positions(pool, r, limit, el).len() == m + ot.len());
        assert(removed_positions(pool, r, limit, el).len() == r.len() - m);
    }
}

/// Garbage collection loses and duplicates nothing: every genome of the pool
/// either stays or is removed, exactly once; only evolved genomes are
/// removed, so every other genome stays; the elite always stays; and when the
/// evolved genomes exceed the limit, those kept number no more than the elite
/// or the room the other genomes leave under the limit.
pub proof fn gc_partitions_pool(
    pool: Seq<StrategyGenome>,
    scores: Seq<u64>,
    r: Seq<usize>,
    max_evolved: usize,
    elitism: bool,
)
    requires
        pool.len() <= usize::MAX,
        is_ranking(scores, evolved_positions(pool), r),
    ensures
        ({
            let limit = gc_limit(max_evolved);
            let elite = elite_count(max_evolved, elitism);
            let kept = kept_positions(pool, r, limit, elite);
            let gone = removed_positions(pool, r, limit, elite);
            let ev = evolved_positions(pool);
            let ot = other_positions(pool);
            &&& (kept + gone).len() == pool.len()
            &&& forall|i: usize| i < pool.len() ==> #[trigger] (kept + gone).contains(i)
            &&& forall|j: int| 0 <= j < gone.len() ==> pool[#[trigger] gone[j] as int].origin == StrategyOrigin::Evolved
            &&& forall|i: usize| i < pool.len() && pool[i as int].origin != StrategyOrigin::Evolved ==> #[trigger] kept.contains(i)
            &&& forall|a: int| 0 <= a < elite && a < r.len() ==> kept.contains(#[trigger] r[a])
            &&& ev.len() > limit ==> kept.len() - ot.len() <= if elite >= limit - ot.len() {
                elite as int
            } else {
                limit - ot.len()
            }
        }),
{
    let limit = gc_limit(max_evolved);
    let elite = elite_count(max_evolved, elitism);
    let kept = kept_positions(pool, r, limit, elite);
    let gone = removed_positions(pool, r, limit, elite);
    let ev = evolved_positions(pool);
    let ot = other_positions(pool);
    lemma_positions_contain(pool, true, pool.len());
    lemma_positions_contain(pool, false, pool.len());
    assert(elite <= limit);
    if ev.len() <= limit {
        assert(gone =~= Seq::<usize>::empty());
        assert(kept + gone =~= ev + ot);
        assert forall|i: usize| i < pool.len() implies #[trigger] (kept + gone).contains(i) by {
            if pool[i as int].origin == StrategyOrigin::Evolved {
                assert(ev.contains(i));
                let k = choose|k: int| 0 <= k < ev.len() && ev[k] == i;
                assert((ev + ot)[k] == i);
            } else {
                assert(ot.contains(i));
                let k = choose|k: int| 0 <= k < ot.len() && ot[k] == i;
                assert((ev + ot)[ev.len() + k] == i);
            }
        }
        assert forall|i: usize| i < pool.len() && pool[i as int].origin != StrategyOrigin::Evolved implies #[trigger] kept.contains(i) by {
            assert(ot.contains(i));
            let k = choose|k: int| 0 <= k < ot.len() && ot[k] == i;
            assert(kept[ev.len() + k] == i);
        }
        assert forall|a: int| 0 <= a < elite && a < r.len() implies kept.contains(#[trigger] r[a]) by {
            assert(r.contains(r[a]));
            assert(ev.contains(r[a]));
            let k = choose|k: int| 0 <= k < ev.len() && ev[k] == r[a];
            assert(kept[k] == r[a]);
        }
    } else {
        let m = elite + room_count(limit, ot.len(), elite, r.len());
        assert(m <= r.len());
        assert(kept == r.take(m as int) + ot);
        assert(gone == r.skip(m as int));
        assert forall|i: usize| i < pool.len() implies #[trigger] (kept + gone).contains(i) by {
            if pool[i as int].origin == StrategyOrigin::Evolved {
                assert(ev.contains(i));
                assert(r.contains(i));
                let k = choose|k: int| 0 <= k < r.len() && r[k] == i;
                if k < m {
                    assert((kept + gone)[k] == i);
                } else {
                    assert((kept + gone)[m + ot.len() + (k - m)] == i);
                }
            } else {
                assert(ot.contains(i));
                let k = choose|k: int| 0 <= k < ot.len() && ot[k] == i;
                assert((kept + gone)[m + k] == i);
            }
        }
        assert forall|j: int| 0 <= j < gone.len() implies pool[#[trigger] gone[j] as int].origin == StrategyOrigin::Evolved by {
            assert(gone[j] == r[m + j]);
            assert(r.contains(r[m + j]));
            assert(ev.contains(r[m + j]));
        }
        assert forall|i: usize| i < pool.len() && pool[i as int].origin != StrategyOrigin::Evolved implies #[trigger] kept.contains(i) by {
            assert(ot.contains(i));
            let k = choose|k: int| 0 <= k < ot.len() && ot[k] == i;
            assert(kept[m + k] == i);
        }
        assert forall|a: int| 0 <= a < elite && a < r.len() implies kept.contains(#[trigger] r[a]) by {
            assert(kept[a] == r[a]);
        }
    }
}

} // verus!
