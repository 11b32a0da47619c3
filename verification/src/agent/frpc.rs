//! The frpc client configuration and service-id generation.

use vstd::prelude::*;
use crate::text::{append_str, push_char, push_decimal_u64, decimal};

verus! {

/// Tunnel mode.
#[derive(Debug, Clone, PartialEq, Eq, Structural)]
pub enum TunnelMode {
    /// HTTP subdomain: `a3k9x2` -> `a3k9x2.<subdomain host>`.
    HttpSubdomain,
    /// TCP port mapping: `remotePort = 6001` -> `<server>:6001`.
    Tcp { remote_port: u16 },
}

/// frpc client configuration (from the agent configuration).
#[derive(Debug, Clone)]
pub struct FrpcConfig {
    pub server: String,
    pub port: u16,
    pub token: Option<String>,
    /// Subdomain host (e.g. tun.alius.tech).
    pub subdomain_host: String,
    /// Local target address (usually 127.0.0.1).
    pub local_addr: String,
    /// Local admin port.
    pub local_port: u16,
    /// Path of the frpc executable.
    pub frpc_binary: String,
    /// Tunnel mode.
    pub mode: TunnelMode,
}

/// Characters a service id is drawn from: lower-case letters and digits,
/// without the easily confused 0, o, 1, i and l.
pub open spec fn service_id_alphabet() -> Seq<char> {
    "abcdefghjkmnpqrstuvwxyz23456789"@
}

/// Length of a service id.
pub const SERVICE_ID_LEN: usize = 6;

/// A uniformly random index below `bound` (rand's `thread_rng().gen_range(0..bound)`).
/// Claimed: the index is below `bound`; which one comes back is left open.
#[verifier::external_body]
fn random_below(bound: usize) -> (r: usize)
    requires
        bound > 0,
    ensures
        r < bound,
{
    rand::Rng::gen_range(&mut rand::thread_rng(), 0..bound)
}

/// Generates a 6-character service id (e.g. a3k9x2, b7m2p8), each character
/// drawn at random from the service-id alphabet.
pub fn generate_service_id() -> (r: String)
    ensures
        r@.len() == SERVICE_ID_LEN,
        forall|i: int| 0 <= i < r@.len() ==> service_id_alphabet().contains(#[trigger] r@[i]),
{
    let alphabet = "abcdefghjkmnpqrstuvwxyz23456789";
    proof {
        reveal_strlit("abcdefghjkmnpqrstuvwxyz23456789");
    }
    let n = alphabet.unicode_len();
    let mut s = String::new();
    let mut k: usize = 0;
    while k < SERVICE_ID_LEN
        invariant
            k <= SERVICE_ID_LEN,
            n == service_id_alphabet().len(),
            n == 31,
            alphabet@ == service_id_alphabet(),
            s@.len() == k,
            forall|i: int| 0 <= i < s@.len() ==> service_id_alphabet().contains(#[trigger] s@[i]),
        decreases SERVICE_ID_LEN - k,
    {
        let idx = random_below(n);
        let c = alphabet.get_char(idx);
        assert(service_id_alphabet()[idx as int] == c);
        let ghost before = s@;
        push_char(&mut s, c);
        assert forall|i: int| 0 <= i < s@.len() implies service_id_alphabet().contains(#[trigger] s@[i]) by {
            if i < before.len() {
                assert(s@[i] == before[i]);
            } else {
                assert(s@[i] == c);
            }
        }
        k = k + 1;
    }
    s
}

/// No confusable character (0, o, 1, i, l) is in the service-id alphabet.
pub proof fn lemma_alphabet_has_no_confusables()
    ensures
        !service_id_alphabet().contains('0'),
        !service_id_alphabet().contains('o'),
        !service_id_alphabet().contains('1'),
        !service_id_alphabet().contains('i'),
        !service_id_alphabet().contains('l'),
        forall|i: int| 0 <= i < service_id_alphabet().len() ==>
            ('a' <= #[trigger] service_id_alphabet()[i] <= 'z') || ('0' <= service_id_alphabet()[i] <= '9'),
{
    reveal_strlit("abcdefghjkmnpqrstuvwxyz23456789");
    let a = service_id_alphabet();
    assert(a.len() == 31);
    assert forall|i: int| 0 <= i < a.len() implies a[i] != '0' && a[i] != 'o' && a[i] != '1' && a[i] != 'i' && a[i] != 'l'
        && (('a' <= a[i] <= 'z') || ('0' <= a[i] <= '9')) by {
        assert(a[i] == "abcdefghjkmnpqrstuvwxyz23456789"@[i]);
    }
}

/// The header of every generated configuration: server address and port.
pub open spec fn frpc_header(cfg: FrpcConfig) -> Seq<char> {
    "# TokenHub 远程管理接入配置（自动生成，请勿手动修改）\nserverAddr = \""@ + cfg.server@
        + "\"\nserverPort = "@ + decimal(cfg.port as nat) + "\n"@
}

/// The auth line: present exactly when a non-empty token is configured.
pub open spec fn frpc_auth(cfg: FrpcConfig) -> Seq<char> {
    match cfg.token {
        Some(t) => if t@.len() > 0 { "auth.token = \""@ + t@ + "\"\n"@ } else { Seq::empty() },
        None => Seq::empty(),
    }
}

/// The proxy section for the tunnel mode.
pub open spec fn frpc_proxy(cfg: FrpcConfig, service_id: Seq<char>) -> Seq<char> {
    match cfg.mode {
        TunnelMode::HttpSubdomain =>
            "\n[[proxies]]\nname = \"tokenhub-"@ + service_id + "\"\n"@ + "type = \"http\"\n"@
                + "localIP = \""@ + cfg.local_addr@ + "\"\nlocalPort = "@ + decimal(cfg.local_port as nat) + "\n"@
                + "subdomain = \""@ + service_id + "\"\n"@,
        TunnelMode::Tcp { remote_port } =>
            "\n[[proxies]]\nname = \"tokenhub-"@ + service_id + "\"\n"@ + "type = \"tcp\"\n"@
                + "localIP = \""@ + cfg.local_addr@ + "\"\nlocalPort = "@ + decimal(cfg.local_port as nat) + "\n"@
                + "remotePort = "@ + decimal(remote_port as nat) + "\n"@,
    }
}

/// The whole frpc.toml text.
pub open spec fn frpc_toml(cfg: FrpcConfig, service_id: Seq<char>) -> Seq<char> {
    frpc_header(cfg) + frpc_auth(cfg) + frpc_proxy(cfg, service_id)
}

fn start_with(t: &str) -> (r: String)
    ensures
        r@ == t@,
{
    let mut s = String::new();
    append_str(&mut s, t);
    assert(s@ =~= t@);
    s
}

fn header_text(cfg: &FrpcConfig) -> (r: String)
    ensures
        r@ == frpc_header(*cfg),
{
    let mut s = start_with("# TokenHub 远程管理接入配置（自动生成，请勿手动修改）\nserverAddr = \"");
    append_str(&mut s, cfg.server.as_str());
    append_str(&mut s, "\"\nserverPort = ");
    push_decimal_u64(&mut s, cfg.port as u64);
    append_str(&mut s, "\n");
    s
}

fn auth_text(cfg: &FrpcConfig) -> (r: String)
    ensures
        r@ == frpc_auth(*cfg),
{
    if let Some(token) = &cfg.token {
        if token.as_str().unicode_len() > 0 {
            let mut s = start_with("auth.token = \"");
            append_str(&mut s, token.as_str());
            append_str(&mut s, "\"\n");
            return s;
        }
    }
    String::new()
}

fn proxy_text(cfg: &FrpcConfig, service_id: &str) -> (r: String)
    ensures
        r@ == frpc_proxy(*cfg, service_id@),
{
    let mut s = start_with("\n[[proxies]]\nname = \"tokenhub-");
    append_str(&mut s, service_id);
    append_str(&mut s, "\"\n");
    match &cfg.mode {
        TunnelMode::HttpSubdomain => {
            append_str(&mut s, "type = \"http\"\n");
            append_str(&mut s, "localIP = \"");
            append_str(&mut s, cfg.local_addr.as_str());
            append_str(&mut s, "\"\nlocalPort = ");
            push_decimal_u64(&mut s, cfg.local_port as u64);
            append_str(&mut s, "\n");
            append_str(&mut s, "subdomain = \"");
            append_str(&mut s, service_id);
            append_str(&mut s, "\"\n");
        },
        TunnelMode::Tcp { remote_port } => {
            append_str(&mut s, "type = \"tcp\"\n");
            append_str(&mut s, "localIP = \"");
            append_str(&mut s, cfg.local_addr.as_str());
            append_str(&mut s, "\"\nlocalPort = ");
            push_decimal_u64(&mut s, cfg.local_port as u64);
            append_str(&mut s, "\n");
            append_str(&mut s, "remotePort = ");
            push_decimal_u64(&mut s, *remote_port as u64);
            append_str(&mut s, "\n");
        },
    }
    s
}

/// Generates the frpc.toml content for `service_id`.
pub fn generate_frpc_toml(cfg: &FrpcConfig, service_id: &str) -> (r: String)
    ensures
        r@ == frpc_toml(*cfg, service_id@),
{
    let mut s = header_text(cfg);
    let auth = auth_text(cfg);
    append_str(&mut s, auth.as_str());
    let proxy = proxy_text(cfg, service_id);
    append_str(&mut s, proxy.as_str());
    s
}

} // verus!
