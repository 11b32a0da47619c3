//! The remote-access tunnel controller: its state and the decisions of
//! open / close / status. Running frpc itself is the caller's part: `open`
//! says when a new tunnel must be started and with which service id, and
//! `close` when a running one must be stopped.

use vstd::prelude::*;
use crate::agent::frpc::{generate_service_id, service_id_alphabet, FrpcConfig, TunnelMode, SERVICE_ID_LEN};
use crate::text::{append_str, decimal, push_decimal_u64};

verus! {

/// The status of the tunnel as reported to clients.
#[derive(Debug, Clone)]
pub struct TunStatus {
    pub active: bool,
    pub service_id: Option<String>,
    pub url: Option<String>,
    pub mode: String,
}

/// The controller's state: the current service id and whether the tunnel runs.
pub struct TunState {
    service_id: Option<String>,
    active: bool,
}

/// What `open` asks the caller to do.
pub enum TunOpen {
    /// A tunnel already runs: nothing to start.
    AlreadyOpen,
    /// Start frpc with this new service id.
    Start(String),
}

/// What a toggle did: opened the tunnel (frpc must be started with this
/// service id) or closed it (whether a running frpc must be stopped).
pub enum TunToggled {
    Opened(String),
    Closed(bool),
}

/// The public address of a tunnel with service id `sid`.
pub open spec fn tunnel_url(cfg: FrpcConfig, sid: Seq<char>) -> Seq<char> {
    match cfg.mode {
        TunnelMode::HttpSubdomain => sid + "."@ + cfg.subdomain_host@,
        TunnelMode::Tcp { remote_port } => cfg.server@ + ":"@ + decimal(remote_port as nat),
    }
}

/// The name of a tunnel mode.
pub open spec fn mode_name(mode: TunnelMode) -> Seq<char> {
    match mode {
        TunnelMode::HttpSubdomain => "http_subdomain"@,
        TunnelMode::Tcp { .. } => "tcp"@,
    }
}

impl TunState {
    /// Whether the tunnel runs.
    pub closed spec fn is_active(&self) -> bool {
        self.active
    }

    /// The current service id.
    pub closed spec fn current_id(&self) -> Option<Seq<char>> {
        match self.service_id {
            Some(s) => Some(s@),
            None => None,
        }
    }

    /// Consistency: a running tunnel has a service id.
    pub closed spec fn wf(&self) -> bool {
        self.active ==> self.service_id is Some
    }

    /// The initial state: closed, no service id.
    pub fn new() -> (r: Self)
        ensures
            r.wf(),
            !r.is_active(),
            r.current_id() is None,
    {
        TunState { service_id: None, active: false }
    }

    /// The status for the given configuration: active flag, service id, the
    /// public address (`<sid>.<subdomain host>` or `<server>:<remote port>`)
    /// and the mode's name.
    pub fn status(&self, cfg: &FrpcConfig) -> (r: TunStatus)
        ensures
            r.active == self.is_active(),
            match self.current_id() {
                Some(sid) => r.service_id is Some && r.service_id->0@ == sid
                    && r.url is Some && r.url->0@ == tunnel_url(*cfg, sid),
                None => r.service_id is None && r.url is None,
            },
            r.mode@ == mode_name(cfg.mode),
    {
        let (service_id, url) = match &self.service_id {
            Some(sid) => {
                let mut u = String::new();
                match &cfg.mode {
                    TunnelMode::HttpSubdomain => {
                        append_str(&mut u, sid.as_str());
                        append_str(&mut u, ".");
                        append_str(&mut u, cfg.subdomain_host.as_str());
                        assert(u@ =~= tunnel_url(*cfg, sid@));
                    },
                    TunnelMode::Tcp { remote_port } => {
                        append_str(&mut u, cfg.server.as_str());
                        append_str(&mut u, ":");
                        push_decimal_u64(&mut u, *remote_port as u64);
                        assert(u@ =~= tunnel_url(*cfg, sid@));
                    },
                }
                (Some(sid.clone()), Some(u))
            },
            None => (None, None),
        };
        let mode = match &cfg.mode {
            TunnelMode::HttpSubdomain => String::from_str("http_subdomain"),
            TunnelMode::Tcp { .. } => String::from_str("tcp"),
        };
        TunStatus { active: self.active, service_id, url, mode }
    }

    /// Opens the tunnel: when one already runs, nothing changes (idempotent);
    /// otherwise a new service id is generated and the caller must start frpc
    /// with it.
    pub fn open(&mut self) -> (r: TunOpen)
        requires
            old(self).wf(),
        ensures
            final(self).wf(),
            final(self).is_active(),
            old(self).is_active() ==> r is AlreadyOpen && final(self).current_id() == old(self).current_id(),
            !old(self).is_active() ==> (r matches TunOpen::Start(sid) && final(self).current_id() == Some(sid@)
                && sid@.len() == SERVICE_ID_LEN
                && (forall|i: int| 0 <= i < sid@.len() ==> service_id_alphabet().contains(#[trigger] sid@[i]))),
    {
        if self.active {
            return TunOpen::AlreadyOpen;
        }
        let sid = generate_service_id();
        self.service_id = Some(sid.clone());
        self.active = true;
        TunOpen::Start(sid)
    }

    /// Closes the tunnel; returns whether a running one must be stopped.
    /// Closing a closed tunnel changes nothing (idempotent).
    pub fn close(&mut self) -> (r: bool)
        ensures
            final(self).wf(),
            r == old(self).is_active(),
            !final(self).is_active(),
            final(self).current_id() is None,
    {
        let was_active = self.active;
        self.active = false;
        self.service_id = None;
        was_active
    }

    /// Toggles the tunnel: a running one is closed, a closed one opened
    /// with a new service id. The active flag always flips.
    pub fn toggle(&mut self) -> (r: TunToggled)
        requires
            old(self).wf(),
        ensures
            final(self).wf(),
            final(self).is_active() == !old(self).is_active(),
            old(self).is_active() ==> (r matches TunToggled::Closed(stop) && stop && final(self).current_id() is None),
            !old(self).is_active() ==> (r matches TunToggled::Opened(sid) && final(self).current_id() == Some(sid@)
                && sid@.len() == SERVICE_ID_LEN),
    {
        if self.active {
            let stop = self.close();
            TunToggled::Closed(stop)
        } else {
            match self.open() {
                TunOpen::Start(sid) => TunToggled::Opened(sid),
                TunOpen::AlreadyOpen => TunToggled::Closed(false),
            }
        }
    }
}

} // verus!
