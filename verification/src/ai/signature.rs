//! GenomeSignature: SHA-256 hash of a genome's bypass parameters, used to
//! detect equivalent strategies.
//!
//! The signature is the lowercase hex SHA-256 digest of the compact JSON text
//! of the signature payload: every DPI parameter of the genome, in a fixed
//! order, and the extra arguments joined by U+001F. Identity, lineage, origin
//! and metadata do not enter it.

use vstd::prelude::*;
use vstd::std_specs::iter::IteratorSpec;
use vstd::utf8::encode_utf8;
use crate::ai::genome::{engine_type_name, GenomeView, StrategyGenome};
use crate::outside::{sha256_digest, sha256_of};
use crate::text::{hex_encode, hex_lower, is_lower_hex, lemma_hex_lower, nibble_char};
use crate::text::{append_i64, int_text, is_dec_char, lemma_int_text_injective, lemma_int_text_start, lemma_nibble_injective, lex_lt, lemma_lex_irreflexive, lemma_lex_total, lemma_lex_transitive, push_char, text_lt};

verus! {

broadcast use vstd::string::group_string_axioms;

/// The JSON escape of one character, as a JSON encoder writes it inside a
/// string literal.
pub open spec fn json_escape_char(c: char) -> Seq<char> {
    if c == '"' {
        seq!['\\', '"']
    } else if c == '\\' {
        seq!['\\', '\\']
    } else if c == '\u{8}' {
        seq!['\\', 'b']
    } else if c == '\t' {
        seq!['\\', 't']
    } else if c == '\n' {
        seq!['\\', 'n']
    } else if c == '\u{c}' {
        seq!['\\', 'f']
    } else if c == '\r' {
        seq!['\\', 'r']
    } else if (c as u32) < 0x20 {
        seq![
            '\\',
            'u',
            '0',
            '0',
            nibble_char(((c as u32) / 16) as int),
            nibble_char(((c as u32) % 16) as int),
        ]
    } else {
        seq![c]
    }
}

/// The JSON escape of a character sequence.
pub open spec fn json_escape(s: Seq<char>) -> Seq<char>
    decreases s.len(),
{
    if s.len() == 0 {
        Seq::empty()
    } else {
        json_escape(s.drop_last()) + json_escape_char(s.last())
    }
}

/// A JSON string literal.
pub open spec fn json_str(s: Seq<char>) -> Seq<char> {
    seq!['"'] + json_escape(s) + seq!['"']
}

pub open spec fn json_bool(b: bool) -> Seq<char> {
    if b { "true"@ } else { "false"@ }
}

pub open spec fn json_opt_str(o: Option<String>) -> Seq<char> {
    match o {
        Some(s) => json_str(s@),
        None => "null"@,
    }
}

pub open spec fn json_opt_int(o: Option<i32>) -> Seq<char> {
    match o {
        Some(v) => int_text(v as int),
        None => "null"@,
    }
}

pub open spec fn json_opt_bool(o: Option<bool>) -> Seq<char> {
    match o {
        Some(v) => json_bool(v),
        None => "null"@,
    }
}

/// The strings joined by U+001F.
pub open spec fn join_unit_sep(v: Seq<String>) -> Seq<char>
    decreases v.len(),
{
    if v.len() == 0 {
        Seq::empty()
    } else if v.len() == 1 {
        v[0]@
    } else {
        join_unit_sep(v.drop_last()) + seq!['\u{1f}'] + v.last()@
    }
}

/// The text of an optional string.
pub open spec fn text_of(o: Option<String>) -> Option<Seq<char>> {
    match o {
        Some(s) => Some(s@),
        None => None,
    }
}

/// The escapes of two characters never start alike unless the characters
/// are equal: escaping is a prefix code.
proof fn lemma_escape_char_prefix(c1: char, c2: char, x1: Seq<char>, x2: Seq<char>)
    requires
        json_escape_char(c1) + x1 == json_escape_char(c2) + x2,
    ensures
        c1 == c2,
        x1 == x2,
{
    let e1 = json_escape_char(c1);
    let e2 = json_escape_char(c2);
    let w = e1 + x1;
    assert(w == e2 + x2);
    assert(w[0] == e1[0] && w[0] == e2[0]);
    if e1.len() >= 2 && e2.len() >= 2 {
        assert(w[1] == e1[1] && w[1] == e2[1]);
    }
    if e1.len() == 6 && e2.len() == 6 {
        assert(w[4] == e1[4] && w[4] == e2[4]);
        assert(w[5] == e1[5] && w[5] == e2[5]);
        lemma_nibble_injective(((c1 as u32) / 16) as int, ((c2 as u32) / 16) as int);
        lemma_nibble_injective(((c1 as u32) % 16) as int, ((c2 as u32) % 16) as int);
        assert(c1 as u32 == c2 as u32);
    }
    assert(c1 == c2);
    assert(x1 =~= w.subrange(e1.len() as int, w.len() as int));
    assert(x2 =~= w.subrange(e2.len() as int, w.len() as int));
}

/// Escaping a non-empty text: the escape of its first character, then the
/// escape of the rest.
proof fn lemma_escape_front(s: Seq<char>)
    requires
        s.len() > 0,
    ensures
        json_escape(s) == json_escape_char(s[0]) + json_escape(s.drop_first()),
    decreases s.len(),
{
    if s.len() == 1 {
        assert(s.drop_last() =~= Seq::<char>::empty());
        assert(s.drop_first() =~= Seq::<char>::empty());
        assert(json_escape(s) =~= json_escape_char(s[0]) + json_escape(s.drop_first()));
    } else {
        let init = s.drop_last();
        lemma_escape_front(init);
        assert(init.drop_first() =~= s.drop_first().drop_last());
        assert(s.drop_first().last() == s.last());
        assert(init[0] == s[0]);
        assert(json_escape(s) =~= json_escape_char(s[0]) + json_escape(s.drop_first()));
    }
}

/// Different texts have different escapes.
proof fn lemma_escape_injective(s1: Seq<char>, s2: Seq<char>)
    requires
        json_escape(s1) == json_escape(s2),
    ensures
        s1 == s2,
    decreases s1.len(),
{
    if s1.len() == 0 {
        if s2.len() > 0 {
            lemma_escape_front(s2);
            assert(json_escape(s2).len() > 0);
        }
        assert(s1 =~= s2);
    } else {
        lemma_escape_front(s1);
        if s2.len() == 0 {
            assert(json_escape(s1).len() > 0);
        } else {
            lemma_escape_front(s2);
            lemma_escape_char_prefix(s1[0], s2[0], json_escape(s1.drop_first()), json_escape(s2.drop_first()));
            lemma_escape_injective(s1.drop_first(), s2.drop_first());
            assert(s1 =~= seq![s1[0]] + s1.drop_first());
            assert(s2 =~= seq![s2[0]] + s2.drop_first());
        }
    }
}

/// Different texts have different JSON string literals.
proof fn lemma_json_str_injective(s1: Seq<char>, s2: Seq<char>)
    requires
        json_str(s1) == json_str(s2),
    ensures
        s1 == s2,
{
    let j = json_str(s1);
    assert(json_escape(s1) =~= j.subrange(1, j.len() - 1));
    assert(json_escape(s2) =~= j.subrange(1, j.len() - 1));
    lemma_escape_injective(s1, s2);
}

/// Optional strings with the same JSON text hold the same text.
proof fn lemma_json_opt_str_injective(o1: Option<String>, o2: Option<String>)
    requires
        json_opt_str(o1) == json_opt_str(o2),
    ensures
        text_of(o1) == text_of(o2),
{
    reveal_strlit("null");
    match (o1, o2) {
        (Some(a), Some(b)) => lemma_json_str_injective(a@, b@),
        (Some(a), None) => {
            assert(json_str(a@)[0] == '"');
            assert("null"@[0] == 'n');
        },
        (None, Some(b)) => {
            assert(json_str(b@)[0] == '"');
            assert("null"@[0] == 'n');
        },
        (None, None) => {},
    }
}

/// Optional integers with the same JSON text are equal.
proof fn lemma_json_opt_int_injective(o1: Option<i32>, o2: Option<i32>)
    requires
        json_opt_int(o1) == json_opt_int(o2),
    ensures
        o1 == o2,
{
    reveal_strlit("null");
    match (o1, o2) {
        (Some(a), Some(b)) => lemma_int_text_injective(a as int, b as int),
        (Some(a), None) => {
            lemma_int_text_start(a as int);
            assert(json_opt_int(o1)[0] != json_opt_int(o2)[0]);
        },
        (None, Some(b)) => {
            lemma_int_text_start(b as int);
            assert(json_opt_int(o1)[0] != json_opt_int(o2)[0]);
        },
        (None, None) => {},
    }
}

/// Booleans, optional booleans and engine types with the same JSON text are
/// equal.
proof fn lemma_json_small_injective(a: bool, b: bool, o1: Option<bool>, o2: Option<bool>, t1: crate::ai::genome::DpiEngineType, t2: crate::ai::genome::DpiEngineType)
    ensures
        json_bool(a) == json_bool(b) ==> a == b,
        json_opt_bool(o1) == json_opt_bool(o2) ==> o1 == o2,
        json_str(engine_type_name(t1)) == json_str(engine_type_name(t2)) ==> t1 == t2,
{
    reveal_strlit("null");
    reveal_strlit("true");
    reveal_strlit("false");
    reveal_strlit("zapret");
    reveal_strlit("byedpi");
    reveal_strlit("warp");
    if json_str(engine_type_name(t1)) == json_str(engine_type_name(t2)) {
        lemma_json_str_injective(engine_type_name(t1), engine_type_name(t2));
        assert(engine_type_name(t1).len() == engine_type_name(t2).len());
        assert(engine_type_name(t1)[0] == engine_type_name(t2)[0]);
    }
    if json_opt_bool(o1) == json_opt_bool(o2) {
        assert(json_opt_bool(o1)[0] == json_opt_bool(o2)[0]);
    }
    if json_bool(a) == json_bool(b) {
        assert(json_bool(a)[0] == json_bool(b)[0]);
    }
}

/// The compact JSON text of the signature payload of a genome.
#[verifier::opaque]
pub open spec fn payload_json(g: GenomeView) -> Seq<char> {
    "{\"engine_type\":"@ + json_str(engine_type_name(g.engine_type))
        + ",\"filter_tcp\":"@ + json_str(g.filter_tcp@)
        + ",\"filter_udp\":"@ + json_str(g.filter_udp@)
        + ",\"desync_mode\":"@ + json_str(g.desync_mode@)
        + ",\"split_pos\":"@ + json_opt_int(g.split_pos)
        + ",\"split_pos_semantic\":"@ + json_opt_str(g.split_pos_semantic)
        + ",\"disorder_pos\":"@ + json_opt_str(g.disorder_pos)
        + ",\"fake_pos\":"@ + json_opt_str(g.fake_pos)
        + ",\"oob_pos\":"@ + json_opt_str(g.oob_pos)
        + ",\"disoob_pos\":"@ + json_opt_str(g.disoob_pos)
        + ",\"tlsrec_pos\":"@ + json_opt_str(g.tlsrec_pos)
        + ",\"fake_ttl\":"@ + json_opt_int(g.fake_ttl)
        + ",\"auto_ttl\":"@ + json_bool(g.auto_ttl)
        + ",\"md5sig\":"@ + json_opt_bool(g.md5sig)
        + ",\"fake_tls_mod\":"@ + json_opt_str(g.fake_tls_mod)
        + ",\"fake_sni\":"@ + json_opt_str(g.fake_sni)
        + ",\"fake_data\":"@ + json_opt_str(g.fake_data)
        + ",\"mod_http\":"@ + json_opt_str(g.mod_http)
        + ",\"tlsminor\":"@ + json_opt_int(g.tlsminor)
        + ",\"hosts\":"@ + json_opt_str(g.hosts)
        + ",\"hostlist\":"@ + json_opt_str(g.hostlist)
        + ",\"repeat_count\":"@ + json_opt_int(g.repeat_count)
        + ",\"cache_ttl\":"@ + json_opt_int(g.cache_ttl)
        + ",\"auto\":"@ + json_opt_str(g.auto)
        + ",\"timeout\":"@ + json_opt_int(g.timeout)
        + ",\"auto_mode\":"@ + json_opt_int(g.auto_mode)
        + ",\"desync_any_protocol\":"@ + json_opt_str(g.desync_any_protocol)
        + ",\"desync_fooling\":"@ + json_opt_str(g.desync_fooling)
        + ",\"fake_resend\":"@ + json_opt_str(g.fake_resend)
        + ",\"warp_config\":"@ + json_opt_str(g.warp_config)
        + ",\"mtu\":"@ + json_opt_int(g.mtu)
        + ",\"gool_enabled\":"@ + json_bool(g.gool_enabled)
        + ",\"psiphon_enabled\":"@ + json_bool(g.psiphon_enabled)
        + ",\"psiphon_country\":"@ + json_opt_str(g.psiphon_country)
        + ",\"scan_enabled\":"@ + json_bool(g.scan_enabled)
        + ",\"reserved\":"@ + json_opt_str(g.reserved)
        + ",\"extra\":"@ + json_str(join_unit_sep(g.extra_args))
        + "}"@
}

/// Texts that end alike are equal when their beginnings are, and texts
/// that begin alike are equal when their ends are.
proof fn lemma_cancel()
    ensures
        forall|x: Seq<char>, y: Seq<char>, t: Seq<char>| #![trigger x + t, y + t] x + t == y + t ==> x == y,
        forall|p: Seq<char>, x: Seq<char>, y: Seq<char>| #![trigger p + x, p + y] p + x == p + y ==> x == y,
{
    assert forall|x: Seq<char>, y: Seq<char>, t: Seq<char>| #![trigger x + t, y + t] x + t == y + t implies x == y by {
        assert((x + t).len() == x.len() + t.len());
        assert((y + t).len() == y.len() + t.len());
        assert(x.len() == y.len());
        assert(x =~= (x + t).subrange(0, x.len() as int));
        assert(y =~= (y + t).subrange(0, y.len() as int));
    }
    assert forall|p: Seq<char>, x: Seq<char>, y: Seq<char>| #![trigger p + x, p + y] p + x == p + y implies x == y by {
        assert(x =~= (p + x).subrange(p.len() as int, (p + x).len() as int));
        assert(y =~= (p + y).subrange(p.len() as int, (p + y).len() as int));
    }
}

proof fn lemma_payload_engine_type(a: GenomeView, b: GenomeView)
    ensures
        payload_json(a) == payload_json(b) && b == (GenomeView { engine_type: b.engine_type, ..a }) ==> a.engine_type == b.engine_type,
{
    if payload_json(a) == payload_json(b) && b == (GenomeView { engine_type: b.engine_type, ..a }) {
        reveal(payload_json);
        lemma_cancel();
        assert(json_str(engine_type_name(a.engine_type)) == json_str(engine_type_name(b.engine_type)));
        lemma_json_small_injective(true, true, None, None, a.engine_type, b.engine_type);
    }
}

proof fn lemma_payload_filter_tcp(a: GenomeView, b: GenomeView)
    ensures
        payload_json(a) == payload_json(b) && b == (GenomeView { filter_tcp: b.filter_tcp, ..a }) ==> a.filter_tcp@ == b.filter_tcp@,
{
    if payload_json(a) == payload_json(b) && b == (GenomeView { filter_tcp: b.filter_tcp, ..a }) {
        reveal(payload_json);
        lemma_cancel();
        assert(json_str(a.filter_tcp@) == json_str(b.filter_tcp@));
        lemma_json_str_injective(a.filter_tcp@, b.filter_tcp@);
    }
}

proof fn lemma_payload_filter_udp(a: GenomeView, b: GenomeView)
    ensures
        payload_json(a) == payload_json(b) && b == (GenomeView { filter_udp: b.filter_udp, ..a }) ==> a.filter_udp@ == b.filter_udp@,
{
    if payload_json(a) == payload_json(b) && b == (GenomeView { filter_udp: b.filter_udp, ..a }) {
        reveal(payload_json);
        lemma_cancel();
        assert(json_str(a.filter_udp@) == json_str(b.filter_udp@));
        lemma_json_str_injective(a.filter_udp@, b.filter_udp@);
    }
}

proof fn lemma_payload_desync_mode(a: GenomeView, b: GenomeView)
    ensures
        payload_json(a) == payload_json(b) && b == (GenomeView { desync_mode: b.desync_mode, ..a }) ==> a.desync_mode@ == b.desync_mode@,
{
    if payload_json(a) == payload_json(b) && b == (GenomeView { desync_mode: b.desync_mode, ..a }) {
        reveal(payload_json);
        lemma_cancel();
        assert(json_str(a.desync_mode@) == json_str(b.desync_mode@));
        lemma_json_str_injective(a.desync_mode@, b.desync_mode@);
    }
}

proof fn lemma_payload_split_pos(a: GenomeView, b: GenomeView)
    ensures
        payload_json(a) == payload_json(b) && b == (GenomeView { split_pos: b.split_pos, ..a }) ==> a.split_pos == b.split_pos,
{
    if payload_json(a) == payload_json(b) && b == (GenomeView { split_pos: b.split_pos, ..a }) {
        reveal(payload_json);
        lemma_cancel();
        assert(json_opt_int(a.split_pos) == json_opt_int(b.split_pos));
        lemma_json_opt_int_injective(a.split_pos, b.split_pos);
    }
}

proof fn lemma_payload_split_pos_semantic(a: GenomeView, b: GenomeView)
    ensures
        payload_json(a) == payload_json(b) && b == (GenomeView { split_pos_semantic: b.split_pos_semantic, ..a }) ==> text_of(a.split_pos_semantic) == text_of(b.split_pos_semantic),
{
    if payload_json(a) == payload_json(b) && b == (GenomeView { split_pos_semantic: b.split_pos_semantic, ..a }) {
        reveal(payload_json);
        lemma_cancel();
        assert(json_opt_str(a.split_pos_semantic) == json_opt_str(b.split_pos_semantic));
        lemma_json_opt_str_injective(a.split_pos_semantic, b.split_pos_semantic);
    }
}

proof fn lemma_payload_disorder_pos(a: GenomeView, b: GenomeView)
    ensures
        payload_json(a) == payload_json(b) && b == (GenomeView { disorder_pos: b.disorder_pos, ..a }) ==> text_of(a.disorder_pos) == text_of(b.disorder_pos),
{
    if payload_json(a) == payload_json(b) && b == (GenomeView { disorder_pos: b.disorder_pos, ..a }) {
        reveal(payload_json);
        lemma_cancel();
        assert(json_opt_str(a.disorder_pos) == json_opt_str(b.disorder_pos));
        lemma_json_opt_str_injective(a.disorder_pos, b.disorder_pos);
    }
}

proof fn lemma_payload_fake_pos(a: GenomeView, b: GenomeView)
    ensures
        payload_json(a) == payload_json(b) && b == (GenomeView { fake_pos: b.fake_pos, ..a }) ==> text_of(a.fake_pos) == text_of(b.fake_pos),
{
    if payload_json(a) == payload_json(b) && b == (GenomeView { fake_pos: b.fake_pos, ..a }) {
        reveal(payload_json);
        lemma_cancel();
        assert(json_opt_str(a.fake_pos) == json_opt_str(b.fake_pos));
        lemma_json_opt_str_injective(a.fake_pos, b.fake_pos);
    }
}

proof fn lemma_payload_oob_pos(a: GenomeView, b: GenomeView)
    ensures
        payload_json(a) == payload_json(b) && b == (GenomeView { oob_pos: b.oob_pos, ..a }) ==> text_of(a.oob_pos) == text_of(b.oob_pos),
{
    if payload_json(a) == payload_json(b) && b == (GenomeView { oob_pos: b.oob_pos, ..a }) {
        reveal(payload_json);
        lemma_cancel();
        assert(json_opt_str(a.oob_pos) == json_opt_str(b.oob_pos));
        lemma_json_opt_str_injective(a.oob_pos, b.oob_pos);
    }
}

proof fn lemma_payload_disoob_pos(a: GenomeView, b: GenomeView)
    ensures
        payload_json(a) == payload_json(b) && b == (GenomeView { disoob_pos: b.disoob_pos, ..a }) ==> text_of(a.disoob_pos) == text_of(b.disoob_pos),
{
    if payload_json(a) == payload_json(b) && b == (GenomeView { disoob_pos: b.disoob_pos, ..a }) {
        reveal(payload_json);
        lemma_cancel();
        assert(json_opt_str(a.disoob_pos) == json_opt_str(b.disoob_pos));
        lemma_json_opt_str_injective(a.disoob_pos, b.disoob_pos);
    }
}

proof fn lemma_payload_tlsrec_pos(a: GenomeView, b: GenomeView)
    ensures
        payload_json(a) == payload_json(b) && b == (GenomeView { tlsrec_pos: b.tlsrec_pos, ..a }) ==> text_of(a.tlsrec_pos) == text_of(b.tlsrec_pos),
{
    if payload_json(a) == payload_json(b) && b == (GenomeView { tlsrec_pos: b.tlsrec_pos, ..a }) {
        reveal(payload_json);
        lemma_cancel();
        assert(json_opt_str(a.tlsrec_pos) == json_opt_str(b.tlsrec_pos));
        lemma_json_opt_str_injective(a.tlsrec_pos, b.tlsrec_pos);
    }
}

proof fn lemma_payload_fake_ttl(a: GenomeView, b: GenomeView)
    ensures
        payload_json(a) == payload_json(b) && b == (GenomeView { fake_ttl: b.fake_ttl, ..a }) ==> a.fake_ttl == b.fake_ttl,
{
    if payload_json(a) == payload_json(b) && b == (GenomeView { fake_ttl: b.fake_ttl, ..a }) {
        reveal(payload_json);
        lemma_cancel();
        assert(json_opt_int(a.fake_ttl) == json_opt_int(b.fake_ttl));
        lemma_json_opt_int_injective(a.fake_ttl, b.fake_ttl);
    }
}

proof fn lemma_payload_auto_ttl(a: GenomeView, b: GenomeView)
    ensures
        payload_json(a) == payload_json(b) && b == (GenomeView { auto_ttl: b.auto_ttl, ..a }) ==> a.auto_ttl == b.auto_ttl,
{
    if payload_json(a) == payload_json(b) && b == (GenomeView { auto_ttl: b.auto_ttl, ..a }) {
        reveal(payload_json);
        lemma_cancel();
        assert(json_bool(a.auto_ttl) == json_bool(b.auto_ttl));
        lemma_json_small_injective(a.auto_ttl, b.auto_ttl, None, None, a.engine_type, a.engine_type);
    }
}

proof fn lemma_payload_md5sig(a: GenomeView, b: GenomeView)
    ensures
        payload_json(a) == payload_json(b) && b == (GenomeView { md5sig: b.md5sig, ..a }) ==> a.md5sig == b.md5sig,
{
    if payload_json(a) == payload_json(b) && b == (GenomeView { md5sig: b.md5sig, ..a }) {
        reveal(payload_json);
        lemma_cancel();
        assert(json_opt_bool(a.md5sig) == json_opt_bool(b.md5sig));
        lemma_json_small_injective(true, true, a.md5sig, b.md5sig, a.engine_type, a.engine_type);
    }
}

proof fn lemma_payload_fake_tls_mod(a: GenomeView, b: GenomeView)
    ensures
        payload_json(a) == payload_json(b) && b == (GenomeView { fake_tls_mod: b.fake_tls_mod, ..a }) ==> text_of(a.fake_tls_mod) == text_of(b.fake_tls_mod),
{
    if payload_json(a) == payload_json(b) && b == (GenomeView { fake_tls_mod: b.fake_tls_mod, ..a }) {
        reveal(payload_json);
        lemma_cancel();
        assert(json_opt_str(a.fake_tls_mod) == json_opt_str(b.fake_tls_mod));
        lemma_json_opt_str_injective(a.fake_tls_mod, b.fake_tls_mod);
    }
}

proof fn lemma_payload_fake_sni(a: GenomeView, b: GenomeView)
    ensures
        payload_json(a) == payload_json(b) && b == (GenomeView { fake_sni: b.fake_sni, ..a }) ==> text_of(a.fake_sni) == text_of(b.fake_sni),
{
    if payload_json(a) == payload_json(b) && b == (GenomeView { fake_sni: b.fake_sni, ..a }) {
        reveal(payload_json);
        lemma_cancel();
        assert(json_opt_str(a.fake_sni) == json_opt_str(b.fake_sni));
        lemma_json_opt_str_injective(a.fake_sni, b.fake_sni);
    }
}

proof fn lemma_payload_fake_data(a: GenomeView, b: GenomeView)
    ensures
        payload_json(a) == payload_json(b) && b == (GenomeView { fake_data: b.fake_data, ..a }) ==> text_of(a.fake_data) == text_of(b.fake_data),
{
    if payload_json(a) == payload_json(b) && b == (GenomeView { fake_data: b.fake_data, ..a }) {
        reveal(payload_json);
        lemma_cancel();
        assert(json_opt_str(a.fake_data) == json_opt_str(b.fake_data));
        lemma_json_opt_str_injective(a.fake_data, b.fake_data);
    }
}

proof fn lemma_payload_mod_http(a: GenomeView, b: GenomeView)
    ensures
        payload_json(a) == payload_json(b) && b == (GenomeView { mod_http: b.mod_http, ..a }) ==> text_of(a.mod_http) == text_of(b.mod_http),
{
    if payload_json(a) == payload_json(b) && b == (GenomeView { mod_http: b.mod_http, ..a }) {
        reveal(payload_json);
        lemma_cancel();
        assert(json_opt_str(a.mod_http) == json_opt_str(b.mod_http));
        lemma_json_opt_str_injective(a.mod_http, b.mod_http);
    }
}

proof fn lemma_payload_tlsminor(a: GenomeView, b: GenomeView)
    ensures
        payload_json(a) == payload_json(b) && b == (GenomeView { tlsminor: b.tlsminor, ..a }) ==> a.tlsminor == b.tlsminor,
{
    if payload_json(a) == payload_json(b) && b == (GenomeView { tlsminor: b.tlsminor, ..a }) {
        reveal(payload_json);
        lemma_cancel();
        assert(json_opt_int(a.tlsminor) == json_opt_int(b.tlsminor));
        lemma_json_opt_int_injective(a.tlsminor, b.tlsminor);
    }
}

proof fn lemma_payload_hosts(a: GenomeView, b: GenomeView)
    ensures
        payload_json(a) == payload_json(b) && b == (GenomeView { hosts: b.hosts, ..a }) ==> text_of(a.hosts) == text_of(b.hosts),
{
    if payload_json(a) == payload_json(b) && b == (GenomeView { hosts: b.hosts, ..a }) {
        reveal(payload_json);
        lemma_cancel();
        assert(json_opt_str(a.hosts) == json_opt_str(b.hosts));
        lemma_json_opt_str_injective(a.hosts, b.hosts);
    }
}

proof fn lemma_payload_hostlist(a: GenomeView, b: GenomeView)
    ensures
        payload_json(a) == payload_json(b) && b == (GenomeView { hostlist: b.hostlist, ..a }) ==> text_of(a.hostlist) == text_of(b.hostlist),
{
    if payload_json(a) == payload_json(b) && b == (GenomeView { hostlist: b.hostlist, ..a }) {
        reveal(payload_json);
        lemma_cancel();
        assert(json_opt_str(a.hostlist) == json_opt_str(b.hostlist));
        lemma_json_opt_str_injective(a.hostlist, b.hostlist);
    }
}

proof fn lemma_payload_repeat_count(a: GenomeView, b: GenomeView)
    ensures
        payload_json(a) == payload_json(b) && b == (GenomeView { repeat_count: b.repeat_count, ..a }) ==> a.repeat_count == b.repeat_count,
{
    if payload_json(a) == payload_json(b) && b == (GenomeView { repeat_count: b.repeat_count, ..a }) {
        reveal(payload_json);
        lemma_cancel();
        assert(json_opt_int(a.repeat_count) == json_opt_int(b.repeat_count));
        lemma_json_opt_int_injective(a.repeat_count, b.repeat_count);
    }
}

proof fn lemma_payload_cache_ttl(a: GenomeView, b: GenomeView)
    ensures
        payload_json(a) == payload_json(b) && b == (GenomeView { cache_ttl: b.cache_ttl, ..a }) ==> a.cache_ttl == b.cache_ttl,
{
    if payload_json(a) == payload_json(b) && b == (GenomeView { cache_ttl: b.cache_ttl, ..a }) {
        reveal(payload_json);
        lemma_cancel();
        assert(json_opt_int(a.cache_ttl) == json_opt_int(b.cache_ttl));
        lemma_json_opt_int_injective(a.cache_ttl, b.cache_ttl);
    }
}

proof fn lemma_payload_auto(a: GenomeView, b: GenomeView)
    ensures
        payload_json(a) == payload_json(b) && b == (GenomeView { auto: b.auto, ..a }) ==> text_of(a.auto) == text_of(b.auto),
{
    if payload_json(a) == payload_json(b) && b == (GenomeView { auto: b.auto, ..a }) {
        reveal(payload_json);
        lemma_cancel();
        assert(json_opt_str(a.auto) == json_opt_str(b.auto));
        lemma_json_opt_str_injective(a.auto, b.auto);
    }
}

proof fn lemma_payload_timeout(a: GenomeView, b: GenomeView)
    ensures
        payload_json(a) == payload_json(b) && b == (GenomeView { timeout: b.timeout, ..a }) ==> a.timeout == b.timeout,
{
    if payload_json(a) == payload_json(b) && b == (GenomeView { timeout: b.timeout, ..a }) {
        reveal(payload_json);
        lemma_cancel();
        assert(json_opt_int(a.timeout) == json_opt_int(b.timeout));
        lemma_json_opt_int_injective(a.timeout, b.timeout);
    }
}

proof fn lemma_payload_auto_mode(a: GenomeView, b: GenomeView)
    ensures
        payload_json(a) == payload_json(b) && b == (GenomeView { auto_mode: b.auto_mode, ..a }) ==> a.auto_mode == b.auto_mode,
{
    if payload_json(a) == payload_json(b) && b == (GenomeView { auto_mode: b.auto_mode, ..a }) {
        reveal(payload_json);
        lemma_cancel();
        assert(json_opt_int(a.auto_mode) == json_opt_int(b.auto_mode));
        lemma_json_opt_int_injective(a.auto_mode, b.auto_mode);
    }
}

proof fn lemma_payload_desync_any_protocol(a: GenomeView, b: GenomeView)
    ensures
        payload_json(a) == payload_json(b) && b == (GenomeView { desync_any_protocol: b.desync_any_protocol, ..a }) ==> text_of(a.desync_any_protocol) == text_of(b.desync_any_protocol),
{
    if payload_json(a) == payload_json(b) && b == (GenomeView { desync_any_protocol: b.desync_any_protocol, ..a }) {
        reveal(payload_json);
        lemma_cancel();
        assert(json_opt_str(a.desync_any_protocol) == json_opt_str(b.desync_any_protocol));
        lemma_json_opt_str_injective(a.desync_any_protocol, b.desync_any_protocol);
    }
}

proof fn lemma_payload_desync_fooling(a: GenomeView, b: GenomeView)
    ensures
        payload_json(a) == payload_json(b) && b == (GenomeView { desync_fooling: b.desync_fooling, ..a }) ==> text_of(a.desync_fooling) == text_of(b.desync_fooling),
{
    if payload_json(a) == payload_json(b) && b == (GenomeView { desync_fooling: b.desync_fooling, ..a }) {
        reveal(payload_json);
        lemma_cancel();
        assert(json_opt_str(a.desync_fooling) == json_opt_str(b.desync_fooling));
        lemma_json_opt_str_injective(a.desync_fooling, b.desync_fooling);
    }
}

proof fn lemma_payload_fake_resend(a: GenomeView, b: GenomeView)
    ensures
        payload_json(a) == payload_json(b) && b == (GenomeView { fake_resend: b.fake_resend, ..a }) ==> text_of(a.fake_resend) == text_of(b.fake_resend),
{
    if payload_json(a) == payload_json(b) && b == (GenomeView { fake_resend: b.fake_resend, ..a }) {
        reveal(payload_json);
        lemma_cancel();
        assert(json_opt_str(a.fake_resend) == json_opt_str(b.fake_resend));
        lemma_json_opt_str_injective(a.fake_resend, b.fake_resend);
    }
}

proof fn lemma_payload_warp_config(a: GenomeView, b: GenomeView)
    ensures
        payload_json(a) == payload_json(b) && b == (GenomeView { warp_config: b.warp_config, ..a }) ==> text_of(a.warp_config) == text_of(b.warp_config),
{
    if payload_json(a) == payload_json(b) && b == (GenomeView { warp_config: b.warp_config, ..a }) {
        reveal(payload_json);
        lemma_cancel();
        assert(json_opt_str(a.warp_config) == json_opt_str(b.warp_config));
        lemma_json_opt_str_injective(a.warp_config, b.warp_config);
    }
}

proof fn lemma_payload_mtu(a: GenomeView, b: GenomeView)
    ensures
        payload_json(a) == payload_json(b) && b == (GenomeView { mtu: b.mtu, ..a }) ==> a.mtu == b.mtu,
{
    if payload_json(a) == payload_json(b) && b == (GenomeView { mtu: b.mtu, ..a }) {
        reveal(payload_json);
        lemma_cancel();
        assert(json_opt_int(a.mtu) == json_opt_int(b.mtu));
        lemma_json_opt_int_injective(a.mtu, b.mtu);
    }
}

proof fn lemma_payload_gool_enabled(a: GenomeView, b: GenomeView)
    ensures
        payload_json(a) == payload_json(b) && b == (GenomeView { gool_enabled: b.gool_enabled, ..a }) ==> a.gool_enabled == b.gool_enabled,
{
    if payload_json(a) == payload_json(b) && b == (GenomeView { gool_enabled: b.gool_enabled, ..a }) {
        reveal(payload_json);
        lemma_cancel();
        assert(json_bool(a.gool_enabled) == json_bool(b.gool_enabled));
        lemma_json_small_injective(a.gool_enabled, b.gool_enabled, None, None, a.engine_type, a.engine_type);
    }
}

proof fn lemma_payload_psiphon_enabled(a: GenomeView, b: GenomeView)
    ensures
        payload_json(a) == payload_json(b) && b == (GenomeView { psiphon_enabled: b.psiphon_enabled, ..a }) ==> a.psiphon_enabled == b.psiphon_enabled,
{
    if payload_json(a) == payload_json(b) && b == (GenomeView { psiphon_enabled: b.psiphon_enabled, ..a }) {
        reveal(payload_json);
        lemma_cancel();
        assert(json_bool(a.psiphon_enabled) == json_bool(b.psiphon_enabled));
        lemma_json_small_injective(a.psiphon_enabled, b.psiphon_enabled, None, None, a.engine_type, a.engine_type);
    }
}

proof fn lemma_payload_psiphon_country(a: GenomeView, b: GenomeView)
    ensures
        payload_json(a) == payload_json(b) && b == (GenomeView { psiphon_country: b.psiphon_country, ..a }) ==> text_of(a.psiphon_country) == text_of(b.psiphon_country),
{
    if payload_json(a) == payload_json(b) && b == (GenomeView { psiphon_country: b.psiphon_country, ..a }) {
        reveal(payload_json);
        lemma_cancel();
        assert(json_opt_str(a.psiphon_country) == json_opt_str(b.psiphon_country));
        lemma_json_opt_str_injective(a.psiphon_country, b.psiphon_country);
    }
}

proof fn lemma_payload_scan_enabled(a: GenomeView, b: GenomeView)
    ensures
        payload_json(a) == payload_json(b) && b == (GenomeView { scan_enabled: b.scan_enabled, ..a }) ==> a.scan_enabled == b.scan_enabled,
{
    if payload_json(a) == payload_json(b) && b == (GenomeView { scan_enabled: b.scan_enabled, ..a }) {
        reveal(payload_json);
        lemma_cancel();
        assert(json_bool(a.scan_enabled) == json_bool(b.scan_enabled));
        lemma_json_small_injective(a.scan_enabled, b.scan_enabled, None, None, a.engine_type, a.engine_type);
    }
}

proof fn lemma_payload_reserved(a: GenomeView, b: GenomeView)
    ensures
        payload_json(a) == payload_json(b) && b == (GenomeView { reserved: b.reserved, ..a }) ==> text_of(a.reserved) == text_of(b.reserved),
{
    if payload_json(a) == payload_json(b) && b == (GenomeView { reserved: b.reserved, ..a }) {
        reveal(payload_json);
        lemma_cancel();
        assert(json_opt_str(a.reserved) == json_opt_str(b.reserved));
        lemma_json_opt_str_injective(a.reserved, b.reserved);
    }
}

proof fn lemma_payload_extra_args(a: GenomeView, b: GenomeView)
    ensures
        payload_json(a) == payload_json(b) && b == (GenomeView { extra_args: b.extra_args, ..a }) ==> join_unit_sep(a.extra_args) == join_unit_sep(b.extra_args),
{
    if payload_json(a) == payload_json(b) && b == (GenomeView { extra_args: b.extra_args, ..a }) {
        reveal(payload_json);
        lemma_cancel();
        assert(json_str(join_unit_sep(a.extra_args)) == json_str(join_unit_sep(b.extra_args)));
        lemma_json_str_injective(join_unit_sep(a.extra_args), join_unit_sep(b.extra_args));
    }
}

/// The payload sees every bypass parameter: two genomes that differ in one
/// parameter alone (its text, for a string) have different payloads, and so
/// are not taken for duplicates. The extra arguments are seen as their
/// U+001F-joined text.
pub proof fn payload_sees_every_parameter(a: GenomeView, b: GenomeView)
    ensures
        payload_json(a) == payload_json(b) && b == (GenomeView { engine_type: b.engine_type, ..a }) ==> a.engine_type == b.engine_type,
        payload_json(a) == payload_json(b) && b == (GenomeView { filter_tcp: b.filter_tcp, ..a }) ==> a.filter_tcp@ == b.filter_tcp@,
        payload_json(a) == payload_json(b) && b == (GenomeView { filter_udp: b.filter_udp, ..a }) ==> a.filter_udp@ == b.filter_udp@,
        payload_json(a) == payload_json(b) && b == (GenomeView { desync_mode: b.desync_mode, ..a }) ==> a.desync_mode@ == b.desync_mode@,
        payload_json(a) == payload_json(b) && b == (GenomeView { split_pos: b.split_pos, ..a }) ==> a.split_pos == b.split_pos,
        payload_json(a) == payload_json(b) && b == (GenomeView { split_pos_semantic: b.split_pos_semantic, ..a }) ==> text_of(a.split_pos_semantic) == text_of(b.split_pos_semantic),
        payload_json(a) == payload_json(b) && b == (GenomeView { disorder_pos: b.disorder_pos, ..a }) ==> text_of(a.disorder_pos) == text_of(b.disorder_pos),
        payload_json(a) == payload_json(b) && b == (GenomeView { fake_pos: b.fake_pos, ..a }) ==> text_of(a.fake_pos) == text_of(b.fake_pos),
        payload_json(a) == payload_json(b) && b == (GenomeView { oob_pos: b.oob_pos, ..a }) ==> text_of(a.oob_pos) == text_of(b.oob_pos),
        payload_json(a) == payload_json(b) && b == (GenomeView { disoob_pos: b.disoob_pos, ..a }) ==> text_of(a.disoob_pos) == text_of(b.disoob_pos),
        payload_json(a) == payload_json(b) && b == (GenomeView { tlsrec_pos: b.tlsrec_pos, ..a }) ==> text_of(a.tlsrec_pos) == text_of(b.tlsrec_pos),
        payload_json(a) == payload_json(b) && b == (GenomeView { fake_ttl: b.fake_ttl, ..a }) ==> a.fake_ttl == b.fake_ttl,
        payload_json(a) == payload_json(b) && b == (GenomeView { auto_ttl: b.auto_ttl, ..a }) ==> a.auto_ttl == b.auto_ttl,
        payload_json(a) == payload_json(b) && b == (GenomeView { md5sig: b.md5sig, ..a }) ==> a.md5sig == b.md5sig,
        payload_json(a) == payload_json(b) && b == (GenomeView { fake_tls_mod: b.fake_tls_mod, ..a }) ==> text_of(a.fake_tls_mod) == text_of(b.fake_tls_mod),
        payload_json(a) == payload_json(b) && b == (GenomeView { fake_sni: b.fake_sni, ..a }) ==> text_of(a.fake_sni) == text_of(b.fake_sni),
        payload_json(a) == payload_json(b) && b == (GenomeView { fake_data: b.fake_data, ..a }) ==> text_of(a.fake_data) == text_of(b.fake_data),
        payload_json(a) == payload_json(b) && b == (GenomeView { mod_http: b.mod_http, ..a }) ==> text_of(a.mod_http) == text_of(b.mod_http),
        payload_json(a) == payload_json(b) && b == (GenomeView { tlsminor: b.tlsminor, ..a }) ==> a.tlsminor == b.tlsminor,
        payload_json(a) == payload_json(b) && b == (GenomeView { hosts: b.hosts, ..a }) ==> text_of(a.hosts) == text_of(b.hosts),
        payload_json(a) == payload_json(b) && b == (GenomeView { hostlist: b.hostlist, ..a }) ==> text_of(a.hostlist) == text_of(b.hostlist),
        payload_json(a) == payload_json(b) && b == (GenomeView { repeat_count: b.repeat_count, ..a }) ==> a.repeat_count == b.repeat_count,
        payload_json(a) == payload_json(b) && b == (GenomeView { cache_ttl: b.cache_ttl, ..a }) ==> a.cache_ttl == b.cache_ttl,
        payload_json(a) == payload_json(b) && b == (GenomeView { auto: b.auto, ..a }) ==> text_of(a.auto) == text_of(b.auto),
        payload_json(a) == payload_json(b) && b == (GenomeView { timeout: b.timeout, ..a }) ==> a.timeout == b.timeout,
        payload_json(a) == payload_json(b) && b == (GenomeView { auto_mode: b.auto_mode, ..a }) ==> a.auto_mode == b.auto_mode,
        payload_json(a) == payload_json(b) && b == (GenomeView { desync_any_protocol: b.desync_any_protocol, ..a }) ==> text_of(a.desync_any_protocol) == text_of(b.desync_any_protocol),
        payload_json(a) == payload_json(b) && b == (GenomeView { desync_fooling: b.desync_fooling, ..a }) ==> text_of(a.desync_fooling) == text_of(b.desync_fooling),
        payload_json(a) == payload_json(b) && b == (GenomeView { fake_resend: b.fake_resend, ..a }) ==> text_of(a.fake_resend) == text_of(b.fake_resend),
        payload_json(a) == payload_json(b) && b == (GenomeView { warp_config: b.warp_config, ..a }) ==> text_of(a.warp_config) == text_of(b.warp_config),
        payload_json(a) == payload_json(b) && b == (GenomeView { mtu: b.mtu, ..a }) ==> a.mtu == b.mtu,
        payload_json(a) == payload_json(b) && b == (GenomeView { gool_enabled: b.gool_enabled, ..a }) ==> a.gool_enabled == b.gool_enabled,
        payload_json(a) == payload_json(b) && b == (GenomeView { psiphon_enabled: b.psiphon_enabled, ..a }) ==> a.psiphon_enabled == b.psiphon_enabled,
        payload_json(a) == payload_json(b) && b == (GenomeView { psiphon_country: b.psiphon_country, ..a }) ==> text_of(a.psiphon_country) == text_of(b.psiphon_country),
        payload_json(a) == payload_json(b) && b == (GenomeView { scan_enabled: b.scan_enabled, ..a }) ==> a.scan_enabled == b.scan_enabled,
        payload_json(a) == payload_json(b) && b == (GenomeView { reserved: b.reserved, ..a }) ==> text_of(a.reserved) == text_of(b.reserved),
        payload_json(a) == payload_json(b) && b == (GenomeView { extra_args: b.extra_args, ..a }) ==> join_unit_sep(a.extra_args) == join_unit_sep(b.extra_args),
{
    lemma_payload_engine_type(a, b);
    lemma_payload_filter_tcp(a, b);
    lemma_payload_filter_udp(a, b);
    lemma_payload_desync_mode(a, b);
    lemma_payload_split_pos(a, b);
    lemma_payload_split_pos_semantic(a, b);
    lemma_payload_disorder_pos(a, b);
    lemma_payload_fake_pos(a, b);
    lemma_payload_oob_pos(a, b);
    lemma_payload_disoob_pos(a, b);
    lemma_payload_tlsrec_pos(a, b);
    lemma_payload_fake_ttl(a, b);
    lemma_payload_auto_ttl(a, b);
    lemma_payload_md5sig(a, b);
    lemma_payload_fake_tls_mod(a, b);
    lemma_payload_fake_sni(a, b);
    lemma_payload_fake_data(a, b);
    lemma_payload_mod_http(a, b);
    lemma_payload_tlsminor(a, b);
    lemma_payload_hosts(a, b);
    lemma_payload_hostlist(a, b);
    lemma_payload_repeat_count(a, b);
    lemma_payload_cache_ttl(a, b);
    lemma_payload_auto(a, b);
    lemma_payload_timeout(a, b);
    lemma_payload_auto_mode(a, b);
    lemma_payload_desync_any_protocol(a, b);
    lemma_payload_desync_fooling(a, b);
    lemma_payload_fake_resend(a, b);
    lemma_payload_warp_config(a, b);
    lemma_payload_mtu(a, b);
    lemma_payload_gool_enabled(a, b);
    lemma_payload_psiphon_enabled(a, b);
    lemma_payload_psiphon_country(a, b);
    lemma_payload_scan_enabled(a, b);
    lemma_payload_reserved(a, b);
    lemma_payload_extra_args(a, b);
}

/// The signature of a genome: hex SHA-256 of the UTF-8 payload JSON.
pub open spec fn signature_of(g: GenomeView) -> Seq<char> {
    hex_lower(sha256_of(encode_utf8(payload_json(g))))
}

fn append_escaped_char(out: &mut String, c: char)
    ensures
        final(out)@ == old(out)@ + json_escape_char(c),
{
    if c == '"' {
        push_char(out, '\\');
        push_char(out, '"');
    } else if c == '\\' {
        push_char(out, '\\');
        push_char(out, '\\');
    } else if c == '\u{8}' {
        push_char(out, '\\');
        push_char(out, 'b');
    } else if c == '\t' {
        push_char(out, '\\');
        push_char(out, 't');
    } else if c == '\n' {
        push_char(out, '\\');
        push_char(out, 'n');
    } else if c == '\u{c}' {
        push_char(out, '\\');
        push_char(out, 'f');
    } else if c == '\r' {
        push_char(out, '\\');
        push_char(out, 'r');
    } else if (c as u32) < 0x20 {
        let code = c as u32;
        push_char(out, '\\');
        push_char(out, 'u');
        push_char(out, '0');
        push_char(out, '0');
        push_char(out, crate::text::nibble((code / 16) as u64));
        push_char(out, crate::text::nibble((code % 16) as u64));
    } else {
        push_char(out, c);
    }
    assert(final(out)@ =~= old(out)@ + json_escape_char(c));
}

/// Appends a JSON string literal holding `s`.
pub fn append_json_str(out: &mut String, s: &str)
    ensures
        final(out)@ == old(out)@ + json_str(s@),
{
    let ghost start = out@;
    push_char(out, '"');
    for c in it: s.chars()
        invariant
            it.seq() == s@,
            out@ == start + seq!['"'] + json_escape(it.seq().take(it.index() as int)),
    {
        let ghost before = out@;
        append_escaped_char(out, c);
        proof {
            let i = it.index() as int;
            assert(it.seq().take(i + 1).drop_last() =~= it.seq().take(i));
            assert(it.seq().take(i + 1).last() == c);
        }
    }
    push_char(out, '"');
    assert(s@.take(s@.len() as int) =~= s@);
    assert(final(out)@ =~= old(out)@ + json_str(s@));
}

fn append_literal_null(out: &mut String)
    ensures
        final(out)@ == old(out)@ + "null"@,
{
    out.append("null");
}

fn append_json_bool(out: &mut String, b: bool)
    ensures
        final(out)@ == old(out)@ + json_bool(b),
{
    if b {
        out.append("true");
    } else {
        out.append("false");
    }
}

fn append_json_opt_bool(out: &mut String, o: Option<bool>)
    ensures
        final(out)@ == old(out)@ + json_opt_bool(o),
{
    match o {
        Some(b) => append_json_bool(out, b),
        None => append_literal_null(out),
    }
}

fn append_json_opt_int(out: &mut String, o: Option<i32>)
    ensures
        final(out)@ == old(out)@ + json_opt_int(o),
{
    match o {
        Some(v) => append_i64(out, v as i64),
        None => append_literal_null(out),
    }
}

fn append_json_opt_str(out: &mut String, o: &Option<String>)
    ensures
        final(out)@ == old(out)@ + json_opt_str(*o),
{
    match o {
        Some(v) => append_json_str(out, v.as_str()),
        None => append_literal_null(out),
    }
}

/// The extra arguments joined by U+001F.
fn join_extra(v: &Vec<String>) -> (r: String)
    ensures
        r@ == join_unit_sep(v@),
{
    let mut out = String::new();
    let mut i: usize = 0;
    while i < v.len()
        invariant
            i <= v.len(),
            out@ == join_unit_sep(v@.subrange(0, i as int)),
        decreases v.len() - i,
    {
        let ghost before = out@;
        if i > 0 {
            push_char(&mut out, '\u{1f}');
        }
        out.append(v[i].as_str());
        proof {
            let next = v@.subrange(0, i + 1);
            assert(next.drop_last() =~= v@.subrange(0, i as int));
            assert(next.last() == v@[i as int]);
            if i == 0 {
                assert(before =~= Seq::<char>::empty());
                assert(out@ =~= next[0]@);
            } else {
                assert(out@ =~= before + seq!['\u{1f}'] + v@[i as int]@);
            }
        }
        i = i + 1;
    }
    assert(v@.subrange(0, v.len() as int) =~= v@);
    out
}

/// The compact JSON text of a genome's signature payload.
pub fn payload_json_text(g: &StrategyGenome) -> (r: String)
    ensures
        r@ == payload_json(g@),
{
    reveal(payload_json);
    let mut out = String::from_str("{\"engine_type\":");
    append_json_str(&mut out, g.engine_type.as_str());
    out.append(",\"filter_tcp\":");
    append_json_str(&mut out, g.filter_tcp.as_str());
    out.append(",\"filter_udp\":");
    append_json_str(&mut out, g.filter_udp.as_str());
    out.append(",\"desync_mode\":");
    append_json_str(&mut out, g.desync_mode.as_str());
    out.append(",\"split_pos\":");
    append_json_opt_int(&mut out, g.split_pos);
    out.append(",\"split_pos_semantic\":");
    append_json_opt_str(&mut out, &g.split_pos_semantic);
    out.append(",\"disorder_pos\":");
    append_json_opt_str(&mut out, &g.disorder_pos);
    out.append(",\"fake_pos\":");
    append_json_opt_str(&mut out, &g.fake_pos);
    out.append(",\"oob_pos\":");
    append_json_opt_str(&mut out, &g.oob_pos);
    out.append(",\"disoob_pos\":");
    append_json_opt_str(&mut out, &g.disoob_pos);
    out.append(",\"tlsrec_pos\":");
    append_json_opt_str(&mut out, &g.tlsrec_pos);
    out.append(",\"fake_ttl\":");
    append_json_opt_int(&mut out, g.fake_ttl);
    out.append(",\"auto_ttl\":");
    append_json_bool(&mut out, g.auto_ttl);
    out.append(",\"md5sig\":");
    append_json_opt_bool(&mut out, g.md5sig);
    out.append(",\"fake_tls_mod\":");
    append_json_opt_str(&mut out, &g.fake_tls_mod);
    out.append(",\"fake_sni\":");
    append_json_opt_str(&mut out, &g.fake_sni);
    out.append(",\"fake_data\":");
    append_json_opt_str(&mut out, &g.fake_data);
    out.append(",\"mod_http\":");
    append_json_opt_str(&mut out, &g.mod_http);
    out.append(",\"tlsminor\":");
    append_json_opt_int(&mut out, g.tlsminor);
    out.append(",\"hosts\":");
    append_json_opt_str(&mut out, &g.hosts);
    out.append(",\"hostlist\":");
    append_json_opt_str(&mut out, &g.hostlist);
    out.append(",\"repeat_count\":");
    append_json_opt_int(&mut out, g.repeat_count);
    out.append(",\"cache_ttl\":");
    append_json_opt_int(&mut out, g.cache_ttl);
    out.append(",\"auto\":");
    append_json_opt_str(&mut out, &g.auto);
    out.append(",\"timeout\":");
    append_json_opt_int(&mut out, g.timeout);
    out.append(",\"auto_mode\":");
    append_json_opt_int(&mut out, g.auto_mode);
    out.append(",\"desync_any_protocol\":");
    append_json_opt_str(&mut out, &g.desync_any_protocol);
    out.append(",\"desync_fooling\":");
    append_json_opt_str(&mut out, &g.desync_fooling);
    out.append(",\"fake_resend\":");
    append_json_opt_str(&mut out, &g.fake_resend);
    out.append(",\"warp_config\":");
    append_json_opt_str(&mut out, &g.warp_config);
    out.append(",\"mtu\":");
    append_json_opt_int(&mut out, g.mtu);
    out.append(",\"gool_enabled\":");
    append_json_bool(&mut out, g.gool_enabled);
    out.append(",\"psiphon_enabled\":");
    append_json_bool(&mut out, g.psiphon_enabled);
    out.append(",\"psiphon_country\":");
    append_json_opt_str(&mut out, &g.psiphon_country);
    out.append(",\"scan_enabled\":");
    append_json_bool(&mut out, g.scan_enabled);
    out.append(",\"reserved\":");
    append_json_opt_str(&mut out, &g.reserved);
    out.append(",\"extra\":");
    let extra = join_extra(&g.extra_args);
    append_json_str(&mut out, extra.as_str());
    out.append("}");
    out
}

/// Computes the SHA-256 signature of a genome.
///
/// The signature does not depend on id, parent ids, generation, origin,
/// display name, bat file name, source bat path, creation time,
/// orchestrator flag or verification results.
pub fn compute(genome: &StrategyGenome) -> (r: String)
    ensures
        r@ == signature_of(genome@),
        r@.len() == 64,
        forall|i: int| 0 <= i < r@.len() ==> is_lower_hex(#[trigger] r@[i]),
{
    let json = payload_json_text(genome);
    let bytes = json.as_str().as_bytes();
    let digest = sha256_digest(bytes);
    proof {
        lemma_hex_lower(digest@);
    }
    hex_encode(digest.as_slice())
}

/// The texts are in strictly increasing order.
pub open spec fn strictly_sorted(v: Seq<String>) -> bool {
    forall|i: int, k: int| 0 <= i < k < v.len() ==> lex_lt(#[trigger] v[i]@, #[trigger] v[k]@)
}

/// `x` is the signature of some genome of `genomes`.
pub open spec fn is_signature_in(x: Seq<char>, genomes: Seq<StrategyGenome>) -> bool {
    exists|j: int| 0 <= j < genomes.len() && x == signature_of(#[trigger] genomes[j]@)
}

/// `x` is the text of some element of `v`.
pub open spec fn contains_text(v: Seq<String>, x: Seq<char>) -> bool {
    exists|i: int| 0 <= i < v.len() && #[trigger] v[i]@ == x
}

/// The signatures of all genomes, sorted, each distinct signature once.
pub fn compute_set(genomes: &[StrategyGenome]) -> (r: Vec<String>)
    ensures
        strictly_sorted(r@),
        forall|i: int| 0 <= i < r@.len() ==> is_signature_in(#[trigger] r@[i]@, genomes@),
        forall|j: int|
            0 <= j < genomes@.len() ==> contains_text(r@, signature_of(#[trigger] genomes@[j]@)),
{
    let mut out: Vec<String> = Vec::new();
    let mut n: usize = 0;
    while n < genomes.len()
        invariant
            n <= genomes@.len(),
            strictly_sorted(out@),
            forall|i: int| 0 <= i < out@.len() ==> is_signature_in(#[trigger] out@[i]@, genomes@),
            forall|j: int|
                0 <= j < n ==> contains_text(out@, signature_of(#[trigger] genomes@[j]@)),
        decreases genomes.len() - n,
    {
        let sig = compute(&genomes[n]);
        let ghost prev = out@;
        let mut k: usize = 0;
        while k < out.len() && text_lt(&out[k], &sig)
            invariant
                k <= out@.len(),
                out@ == prev,
                forall|i: int| 0 <= i < k ==> lex_lt(#[trigger] out@[i]@, sig@),
            decreases out.len() - k,
        {
            k = k + 1;
        }
        if k < out.len() && out[k] == sig {
            assert(out@[k as int]@ == signature_of(genomes@[n as int]@));
        } else {
            proof {
                if k < out@.len() {
                    lemma_lex_total(out@[k as int]@, sig@);
                    assert(lex_lt(sig@, out@[k as int]@));
                }
            }
            out.insert(k, sig);
            proof {
                assert(out@[k as int]@ == signature_of(genomes@[n as int]@));
                assert forall|i: int, m: int| 0 <= i < m < out@.len() implies lex_lt(
                    #[trigger] out@[i]@,
                    #[trigger] out@[m]@,
                ) by {
                    if m < k {
                        assert(out@[i] == prev[i] && out@[m] == prev[m]);
                    } else if m == k {
                        assert(out@[i] == prev[i]);
                    } else if i == k {
                        assert(out@[m] == prev[m - 1]);
                        if m - 1 > k {
                            assert(lex_lt(prev[k as int]@, prev[m - 1]@));
                            lemma_lex_transitive(sig@, prev[k as int]@, prev[m - 1]@);
                        }
                    } else if i < k {
                        assert(out@[i] == prev[i] && out@[m] == prev[m - 1]);
                    } else {
                        assert(out@[i] == prev[i - 1] && out@[m] == prev[m - 1]);
                    }
                }
                assert forall|i: int| 0 <= i < out@.len() implies is_signature_in(
                    #[trigger] out@[i]@,
                    genomes@,
                ) by {
                    if i < k {
                        assert(out@[i] == prev[i]);
                    } else if i == k {
                        assert(out@[i]@ == signature_of(genomes@[n as int]@));
                    } else {
                        assert(out@[i] == prev[i - 1]);
                    }
                }
                assert forall|j: int| 0 <= j < n implies contains_text(
                    out@,
                    signature_of(#[trigger] genomes@[j]@),
                ) by {
                    let i0 = choose|i: int|
                        0 <= i < prev.len() && #[trigger] prev[i]@ == signature_of(genomes@[j]@);
                    if i0 < k {
                        assert(out@[i0] == prev[i0]);
                    } else {
                        assert(out@[i0 + 1] == prev[i0]);
                    }
                }
            }
        }
        n = n + 1;
    }
    out
}

/// Whether a genome with the same signature is in the pool.
pub fn exists_in(genome: &StrategyGenome, pool: &[StrategyGenome]) -> (r: bool)
    ensures
        r == is_signature_in(signature_of(genome@), pool@),
{
    let sig = compute(genome);
    let mut i: usize = 0;
    while i < pool.len()
        invariant
            i <= pool@.len(),
            sig@ == signature_of(genome@),
            forall|j: int| 0 <= j < i ==> signature_of(#[trigger] pool@[j]@) != sig@,
        decreases pool.len() - i,
    {
        let other = compute(&pool[i]);
        if other == sig {
            assert(sig@ == signature_of(pool@[i as int]@));
            return true;
        }
        i = i + 1;
    }
    false
}

/// Two genomes carry the same bypass parameters: every field that enters the
/// signature payload is equal.
pub open spec fn same_params(a: GenomeView, b: GenomeView) -> bool {
    &&& a.engine_type == b.engine_type
    &&& a.filter_tcp@ == b.filter_tcp@
    &&& a.filter_udp@ == b.filter_udp@
    &&& a.desync_mode@ == b.desync_mode@
    &&& a.split_pos == b.split_pos
    &&& a.split_pos_semantic == b.split_pos_semantic
    &&& a.disorder_pos == b.disorder_pos
    &&& a.fake_pos == b.fake_pos
    &&& a.oob_pos == b.oob_pos
    &&& a.disoob_pos == b.disoob_pos
    &&& a.tlsrec_pos == b.tlsrec_pos
    &&& a.fake_ttl == b.fake_ttl
    &&& a.auto_ttl == b.auto_ttl
    &&& a.md5sig == b.md5sig
    &&& a.fake_tls_mod == b.fake_tls_mod
    &&& a.fake_sni == b.fake_sni
    &&& a.fake_data == b.fake_data
    &&& a.mod_http == b.mod_http
    &&& a.tlsminor == b.tlsminor
    &&& a.hosts == b.hosts
    &&& a.hostlist == b.hostlist
    &&& a.repeat_count == b.repeat_count
    &&& a.cache_ttl == b.cache_ttl
    &&& a.auto == b.auto
    &&& a.timeout == b.timeout
    &&& a.auto_mode == b.auto_mode
    &&& a.desync_any_protocol == b.desync_any_protocol
    &&& a.desync_fooling == b.desync_fooling
    &&& a.fake_resend == b.fake_resend
    &&& a.warp_config == b.warp_config
    &&& a.mtu == b.mtu
    &&& a.gool_enabled == b.gool_enabled
    &&& a.psiphon_enabled == b.psiphon_enabled
    &&& a.psiphon_country == b.psiphon_country
    &&& a.scan_enabled == b.scan_enabled
    &&& a.reserved == b.reserved
    &&& a.extra_args == b.extra_args
}

/// The signature depends on the bypass parameters alone: two genomes with
/// the same parameters have the same signature, whatever their id, parent
/// ids, generation, origin, display name, file names, timestamps,
/// orchestrator flag or verification results.
pub proof fn signature_ignores_metadata(a: GenomeView, b: GenomeView)
    requires
        same_params(a, b),
    ensures
        signature_of(a) == signature_of(b),
{
    reveal(payload_json);
    assert(payload_json(a) == payload_json(b));
}

} // verus!
