//! Network fingerprinting: a per-network identity for per-network policies.

use vstd::prelude::*;
use vstd::utf8::encode_utf8;
use crate::outside::{now_millis, sha256_digest, sha256_of};
use crate::text::{hex_encode, hex_lower, is_lower_hex, lemma_hex_lower};
use crate::text::clone_strings;

verus! {

/// Fingerprint of a network environment: transport, gateway, DNS servers,
/// local subnet, a label, and the SHA-256 hash that identifies the network.
#[derive(Debug)]
pub struct NetworkFingerprint {
    /// SHA-256 hash of the fingerprint (the network's identity).
    pub hash: String,
    /// Human-readable label.
    pub label: String,
    /// Transport type (WiFi, Cellular, Ethernet).
    pub transport: String,
    /// Gateway IP address.
    pub gateway_ip: String,
    /// DNS servers.
    pub dns_servers: Vec<String>,
    /// Local subnet (CIDR).
    pub local_subnet: String,
    /// Capture time (ms since the Unix epoch).
    pub captured_at: i64,
}

/// Mathematical model of a fingerprint.
pub struct FingerprintView {
    pub hash: String,
    pub label: String,
    pub transport: String,
    pub gateway_ip: String,
    pub dns_servers: Seq<String>,
    pub local_subnet: String,
    pub captured_at: i64,
}

impl View for NetworkFingerprint {
    type V = FingerprintView;

    open spec fn view(&self) -> FingerprintView {
        FingerprintView {
            hash: self.hash,
            label: self.label,
            transport: self.transport,
            gateway_ip: self.gateway_ip,
            dns_servers: self.dns_servers@,
            local_subnet: self.local_subnet,
            captured_at: self.captured_at,
        }
    }
}

/// Each DNS server followed by a comma.
pub open spec fn dns_text(dns: Seq<String>) -> Seq<char>
    decreases dns.len(),
{
    if dns.len() == 0 {
        Seq::empty()
    } else {
        dns_text(dns.drop_last()) + dns.last()@ + seq![',']
    }
}

/// The text that is hashed: transport, gateway, the DNS servers each
/// followed by a comma, and the subnet, separated by `|`.
pub open spec fn fingerprint_text(transport: Seq<char>, gateway: Seq<char>, dns: Seq<String>, subnet: Seq<char>) -> Seq<char> {
    transport + seq!['|'] + gateway + seq!['|'] + dns_text(dns) + seq!['|'] + subnet
}

/// The hash of a network: lowercase hex SHA-256 of the UTF-8 fingerprint text.
pub open spec fn network_hash(transport: Seq<char>, gateway: Seq<char>, dns: Seq<String>, subnet: Seq<char>) -> Seq<char> {
    hex_lower(sha256_of(encode_utf8(fingerprint_text(transport, gateway, dns, subnet))))
}

/// The display text of a fingerprint.
pub open spec fn fingerprint_display(f: FingerprintView) -> Seq<char> {
    "NetworkFingerprint("@ + f.label@ + " | "@ + f.transport@ + " | gateway: "@ + f.gateway_ip@
        + " | subnet: "@ + f.local_subnet@ + ")"@
}

fn fingerprint_text_of(transport: &str, gateway: &str, dns: &Vec<String>, subnet: &str) -> (r: String)
    ensures
        r@ == fingerprint_text(transport@, gateway@, dns@, subnet@),
{
    proof {
        reveal_strlit("|");
        reveal_strlit(",");
    }
    let mut s = String::from_str(transport);
    s.append("|");
    s.append(gateway);
    s.append("|");
    let ghost base = s@;
    let mut i: usize = 0;
    assert(dns@.subrange(0, 0) =~= Seq::<String>::empty());
    assert(s@ =~= base + dns_text(dns@.subrange(0, 0)));
    while i < dns.len()
        invariant
            i <= dns@.len(),
            s@ == base + dns_text(dns@.subrange(0, i as int)),
        decreases dns.len() - i,
    {
        s.append(dns[i].as_str());
        s.append(",");
        proof {
            reveal_strlit(",");
            let next = dns@.subrange(0, i + 1);
            assert(next.drop_last() =~= dns@.subrange(0, i as int));
            assert(next.last() == dns@[i as int]);
            assert(s@ =~= base + dns_text(next));
        }
        i = i + 1;
    }
    assert(dns@.subrange(0, dns@.len() as int) =~= dns@);
    s.append("|");
    s.append(subnet);
    assert(s@ =~= fingerprint_text(transport@, gateway@, dns@, subnet@));
    s
}

impl NetworkFingerprint {
    /// A new fingerprint with its hash computed and the current time.
    pub fn new(label: &str, transport: &str, gateway_ip: &str, dns_servers: Vec<String>, local_subnet: &str) -> (r: Self)
        ensures
            r.label@ == label@,
            r.transport@ == transport@,
            r.gateway_ip@ == gateway_ip@,
            r.dns_servers@ == dns_servers@,
            r.local_subnet@ == local_subnet@,
            r.hash@ == network_hash(transport@, gateway_ip@, dns_servers@, local_subnet@),
            r.hash@.len() == 64,
            forall|i: int| 0 <= i < r.hash@.len() ==> is_lower_hex(#[trigger] r.hash@[i]),
    {
        let text = fingerprint_text_of(transport, gateway_ip, &dns_servers, local_subnet);
        let digest = sha256_digest(text.as_str().as_bytes());
        proof {
            lemma_hex_lower(digest@);
        }
        let hash = hex_encode(digest.as_slice());
        NetworkFingerprint {
            hash,
            label: String::from_str(label),
            transport: String::from_str(transport),
            gateway_ip: String::from_str(gateway_ip),
            dns_servers,
            local_subnet: String::from_str(local_subnet),
            captured_at: now_millis(),
        }
    }

    /// Display text: label, transport, gateway and subnet.
    pub fn to_string(&self) -> (r: String)
        ensures
            r@ == fingerprint_display(self@),
    {
        let mut s = String::from_str("NetworkFingerprint(");
        s.append(self.label.as_str());
        s.append(" | ");
        s.append(self.transport.as_str());
        s.append(" | gateway: ");
        s.append(self.gateway_ip.as_str());
        s.append(" | subnet: ");
        s.append(self.local_subnet.as_str());
        s.append(")");
        s
    }
}

impl Clone for NetworkFingerprint {
    fn clone(&self) -> (r: Self)
        ensures
            r@ == self@,
    {
        NetworkFingerprint {
            hash: self.hash.clone(),
            label: self.label.clone(),
            transport: self.transport.clone(),
            gateway_ip: self.gateway_ip.clone(),
            dns_servers: clone_strings(&self.dns_servers),
            local_subnet: self.local_subnet.clone(),
            captured_at: self.captured_at,
        }
    }
}

/// Supplier of network fingerprints (platform specific).
pub trait FingerprintProvider {
    /// The current network fingerprint.
    fn current_fingerprint(&self) -> Option<NetworkFingerprint>;

    /// The human-readable network label.
    fn network_label(&self) -> String;
}

/// A provider with fixed network parameters.
pub struct BasicFingerprintProvider {
    label: String,
    transport: String,
    gateway: String,
    dns: Vec<String>,
    subnet: String,
}

impl BasicFingerprintProvider {
    pub fn new(label: &str, transport: &str, gateway: &str, dns: Vec<String>, subnet: &str) -> (r: Self)
        ensures
            r.spec_label()@ == label@,
            r.spec_transport()@ == transport@,
            r.spec_gateway()@ == gateway@,
            r.spec_dns() == dns@,
            r.spec_subnet()@ == subnet@,
    {
        BasicFingerprintProvider {
            label: String::from_str(label),
            transport: String::from_str(transport),
            gateway: String::from_str(gateway),
            dns,
            subnet: String::from_str(subnet),
        }
    }

    pub closed spec fn spec_label(&self) -> String {
        self.label
    }

    pub closed spec fn spec_transport(&self) -> String {
        self.transport
    }

    pub closed spec fn spec_gateway(&self) -> String {
        self.gateway
    }

    pub closed spec fn spec_dns(&self) -> Seq<String> {
        self.dns@
    }

    pub closed spec fn spec_subnet(&self) -> String {
        self.subnet
    }
}

impl FingerprintProvider for BasicFingerprintProvider {
    /// Always a fingerprint of the fixed parameters.
    fn current_fingerprint(&self) -> (r: Option<NetworkFingerprint>)
        ensures
            r matches Some(f) && {
                &&& f.label@ == self.spec_label()@
                &&& f.transport@ == self.spec_transport()@
                &&& f.gateway_ip@ == self.spec_gateway()@
                &&& f.dns_servers@ == self.spec_dns()
                &&& f.local_subnet@ == self.spec_subnet()@
                &&& f.hash@ == network_hash(
                    self.spec_transport()@,
                    self.spec_gateway()@,
                    self.spec_dns(),
                    self.spec_subnet()@,
                )
            },
    {
        Some(
            NetworkFingerprint::new(
                self.label.as_str(),
                self.transport.as_str(),
                self.gateway.as_str(),
                clone_strings(&self.dns),
                self.subnet.as_str(),
            ),
        )
    }

    /// The fixed label.
    fn network_label(&self) -> (r: String)
        ensures
            r@ == self.spec_label()@,
    {
        self.label.clone()
    }
}

/// The hash identifies the network, not its label: two fingerprints taken
/// with the same transport, gateway, DNS servers and subnet have the same
/// hash whatever their labels and capture times.
pub proof fn hash_ignores_label(a: FingerprintView, b: FingerprintView)
    requires
        a.hash@ == network_hash(a.transport@, a.gateway_ip@, a.dns_servers, a.local_subnet@),
        b.hash@ == network_hash(b.transport@, b.gateway_ip@, b.dns_servers, b.local_subnet@),
        a.transport@ == b.transport@,
        a.gateway_ip@ == b.gateway_ip@,
        a.dns_servers == b.dns_servers,
        a.local_subnet@ == b.local_subnet@,
    ensures
        a.hash@ == b.hash@,
{
}

} // verus!
