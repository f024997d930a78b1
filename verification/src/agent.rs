//! The agent's own endpoints: membership, checks, services and maintenance.
//!
//! Each method of [`Agent`] gives the request of one call. Where the verb
//! is `GET` its answer goes to `read_value`, or to `read_values` for the
//! members, which come as a sequence. Otherwise it goes to `write_reply`:
//! the agent answers a write with a status, and what its body holds is of
//! no account.

use crate::errors::Error;
use crate::params::{with_pair, Pair, Params};
use crate::request::{get, get_vec, put, read_pairs, sends, write_pairs, Method, Request};
use crate::text::{bool_str, bool_text, join, same_text};
use crate::{Client, Config};
use std::collections::HashMap;
use vstd::prelude::*;
use vstd::string::StringExecFns;

verus! {

/// A check as the agent reports it.
#[derive(Clone, Default, Debug)]
pub struct AgentCheck {
    pub Node: String,
    pub CheckID: String,
    pub Name: String,
    pub Status: String,
    pub Notes: String,
    pub Output: String,
    pub ServiceID: String,
    pub ServiceName: String,
}

/// An address with its port.
#[derive(Clone, Debug, Default)]
pub struct TaggedAddress {
    pub Address: String,
    pub Port: u16,
}

/// The addresses of a service inside and outside its network.
#[derive(Clone, Debug, Default)]
pub struct TaggedAddresses {
    pub lan_ipv4: TaggedAddress,
    pub wan_ipv4: TaggedAddress,
}

/// A check to register. The fields that all checks share come first; of
/// the others, those of one kind of check are filled in.
#[derive(Clone, Debug, Default)]
pub struct RegisterAgentCheck {
    pub Name: String,
    pub ID: String,
    pub Interval: String,
    pub Notes: String,
    pub DeregisterCriticalServiceAfter: String,
    pub Timeout: String,
    pub AliasNode: Option<String>,
    pub AliasService: Option<String>,
    pub OutputMaxSize: Option<usize>,
    /// A script to run.
    pub Args: Option<Vec<String>>,
    /// A container to run a script in.
    pub DockerContainerID: Option<String>,
    pub Shell: Option<String>,
    /// A gRPC endpoint to ask.
    pub GRPC: Option<String>,
    pub GRPCUseTLS: Option<bool>,
    /// An HTTP/2 endpoint to ping.
    pub H2PING: Option<String>,
    pub H2PingUseTLS: Option<bool>,
    /// A URL to fetch.
    pub HTTP: Option<String>,
    pub Method: Option<String>,
    pub Body: Option<String>,
    pub DisableRedirects: Option<bool>,
    pub Header: Option<HashMap<String, Vec<String>>>,
    pub TLSServerName: Option<String>,
    pub TLSSkipVerify: Option<bool>,
    /// An address to connect to.
    pub TCP: Option<String>,
    /// An address to send a datagram to.
    pub UDP: Option<String>,
    /// A service of the operating system to look at.
    pub OSService: Option<String>,
    /// A time within which the checked process reports by itself.
    pub TTL: Option<String>,
    pub ServiceID: Option<String>,
    pub Status: Option<String>,
    pub SuccessBeforePassing: Option<i32>,
    pub FailuresBeforeWarning: Option<i32>,
    pub FailuresBeforeCritical: Option<i32>,
}

/// The ways in which a check finds out how its subject fares. A check is of
/// the kind whose fields it fills in.
#[derive(Clone, Copy, Debug, PartialEq, Eq, Structural)]
pub enum CheckKind {
    /// Runs a script: `Args`, without a container.
    Script,
    /// Runs a script in a container: `DockerContainerID`.
    Docker,
    /// Asks a gRPC endpoint: `GRPC`.
    Grpc,
    /// Pings an HTTP/2 endpoint: `H2PING`.
    H2Ping,
    /// Fetches a URL: `HTTP`.
    Http,
    /// Connects to an address: `TCP`.
    Tcp,
    /// Sends a datagram: `UDP`.
    Udp,
    /// Looks at a service of the operating system: `OSService`.
    OsService,
    /// Waits for the checked process to report: `TTL`.
    Ttl,
    /// Follows a node or a service: `AliasNode` or `AliasService`.
    Alias,
}

impl RegisterAgentCheck {
    /// Whether the fields of the kind `kind` are filled in.
    pub open spec fn has_kind(&self, kind: CheckKind) -> bool {
        match kind {
            CheckKind::Script => self.Args is Some && self.DockerContainerID is None,
            CheckKind::Docker => self.DockerContainerID is Some,
            CheckKind::Grpc => self.GRPC is Some,
            CheckKind::H2Ping => self.H2PING is Some,
            CheckKind::Http => self.HTTP is Some,
            CheckKind::Tcp => self.TCP is Some,
            CheckKind::Udp => self.UDP is Some,
            CheckKind::OsService => self.OSService is Some,
            CheckKind::Ttl => self.TTL is Some,
            CheckKind::Alias => self.AliasNode is Some || self.AliasService is Some,
        }
    }

    /// Whether the check is of the kind `kind` and of no other.
    pub open spec fn only_kind(&self, kind: CheckKind) -> bool {
        self.has_kind(kind) && forall|other: CheckKind| #[trigger]
            self.has_kind(other) ==> other == kind
    }

    /// Whether the fields of exactly one kind of check are filled in: what
    /// holds of every check that can be registered.
    pub open spec fn one_kind(&self) -> bool {
        exists|kind: CheckKind| self.only_kind(kind)
    }

    /// The kind of the check: the one kind whose fields are filled in, and
    /// `None` where those of no kind or of several are.
    pub fn kind(&self) -> (kind: Option<CheckKind>)
        ensures
            match kind {
                Some(k) => self.only_kind(k),
                None => forall|k: CheckKind| !self.only_kind(k),
            },
            kind is Some <==> self.one_kind(),
    {
        let mut found: Option<CheckKind> = None;
        let mut count: u8 = 0;
        if self.Args.is_some() && self.DockerContainerID.is_none() {
            found = Some(CheckKind::Script);
            count = count + 1;
        }
        if self.DockerContainerID.is_some() {
            found = Some(CheckKind::Docker);
            count = count + 1;
        }
        if self.GRPC.is_some() {
            found = Some(CheckKind::Grpc);
            count = count + 1;
        }
        if self.H2PING.is_some() {
            found = Some(CheckKind::H2Ping);
            count = count + 1;
        }
        if self.HTTP.is_some() {
            found = Some(CheckKind::Http);
            count = count + 1;
        }
        if self.TCP.is_some() {
            found = Some(CheckKind::Tcp);
            count = count + 1;
        }
        if self.UDP.is_some() {
            found = Some(CheckKind::Udp);
            count = count + 1;
        }
        if self.OSService.is_some() {
            found = Some(CheckKind::OsService);
            count = count + 1;
        }
        if self.TTL.is_some() {
            found = Some(CheckKind::Ttl);
            count = count + 1;
        }
        if self.AliasNode.is_some() || self.AliasService.is_some() {
            found = Some(CheckKind::Alias);
            count = count + 1;
        }
        if count == 1 {
            assert(self.only_kind(found->0));
            found
        } else {
            proof {
                assert forall|k: CheckKind| !self.only_kind(k) by {
                    if self.only_kind(k) {
                        assert(self.has_kind(CheckKind::Script) ==> k == CheckKind::Script);
                        assert(self.has_kind(CheckKind::Docker) ==> k == CheckKind::Docker);
                        assert(self.has_kind(CheckKind::Grpc) ==> k == CheckKind::Grpc);
                        assert(self.has_kind(CheckKind::H2Ping) ==> k == CheckKind::H2Ping);
                        assert(self.has_kind(CheckKind::Http) ==> k == CheckKind::Http);
                        assert(self.has_kind(CheckKind::Tcp) ==> k == CheckKind::Tcp);
                        assert(self.has_kind(CheckKind::Udp) ==> k == CheckKind::Udp);
                        assert(self.has_kind(CheckKind::OsService) ==> k == CheckKind::OsService);
                        assert(self.has_kind(CheckKind::Ttl) ==> k == CheckKind::Ttl);
                        assert(self.has_kind(CheckKind::Alias) ==> k == CheckKind::Alias);
                    }
                }
            }
            None
        }
    }
}

/// What the process behind a TTL check reports of itself.
#[derive(Clone, Copy, Debug, PartialEq, Eq, Structural)]
pub enum TTLStatus {
    PASS,
    WARN,
    FAIL,
}

impl TTLStatus {
    /// The word that stands for the status in the path of an update.
    pub open spec fn path_text(self) -> Seq<char> {
        match self {
            TTLStatus::PASS => "pass"@,
            TTLStatus::WARN => "warn"@,
            TTLStatus::FAIL => "fail"@,
        }
    }

    /// The word by which the agent reports the status.
    pub open spec fn name_text(self) -> Seq<char> {
        match self {
            TTLStatus::PASS => "passing"@,
            TTLStatus::WARN => "warning"@,
            TTLStatus::FAIL => "critical"@,
        }
    }

    /// The word by which the agent reports the status.
    pub fn name(&self) -> (word: &'static str)
        ensures
            word@ == self.name_text(),
    {
        match self {
            TTLStatus::PASS => "passing",
            TTLStatus::WARN => "warning",
            TTLStatus::FAIL => "critical",
        }
    }

    /// The status that `word` is the name of, if it names one.
    pub open spec fn named(word: Seq<char>) -> Option<TTLStatus> {
        if word == TTLStatus::PASS.name_text() {
            Some(TTLStatus::PASS)
        } else if word == TTLStatus::WARN.name_text() {
            Some(TTLStatus::WARN)
        } else if word == TTLStatus::FAIL.name_text() {
            Some(TTLStatus::FAIL)
        } else {
            None
        }
    }

    /// Reads a status from the word by which the agent reports it.
    pub fn from_name(word: &str) -> (status: Option<TTLStatus>)
        ensures
            status == TTLStatus::named(word@),
    {
        if same_text(word, "passing") {
            Some(TTLStatus::PASS)
        } else if same_text(word, "warning") {
            Some(TTLStatus::WARN)
        } else if same_text(word, "critical") {
            Some(TTLStatus::FAIL)
        } else {
            None
        }
    }

    /// Every status is read back from its name.
    pub proof fn lemma_named(self)
        ensures
            TTLStatus::named(self.name_text()) == Some(self),
    {
        reveal_strlit("passing");
        reveal_strlit("warning");
        reveal_strlit("critical");
        assert("passing"@[0] != "warning"@[0]);
        assert("passing"@[0] != "critical"@[0]);
        assert("warning"@[0] != "critical"@[0]);
    }

    /// The word that stands for the status in the path of an update.
    pub fn path(&self) -> (word: &'static str)
        ensures
            word@ == self.path_text(),
    {
        match self {
            TTLStatus::PASS => "pass",
            TTLStatus::WARN => "warn",
            TTLStatus::FAIL => "fail",
        }
    }
}

impl AgentCheck {
    /// The status that the agent reports of the check, where it reports
    /// one by its name.
    pub fn status(&self) -> (status: Option<TTLStatus>)
        ensures
            status == TTLStatus::named(self.Status@),
    {
        TTLStatus::from_name(self.Status.as_str())
    }
}

/// A member of the cluster as the agent sees it.
#[derive(Clone, Default, Debug)]
pub struct AgentMember {
    pub Name: String,
    pub Addr: String,
    pub Port: u16,
    pub Tags: HashMap<String, String>,
    pub pubStatus: usize,
    pub ProtocolMin: u8,
    pub ProtocolMax: u8,
    pub ProtocolCur: u8,
    pub DelegateMin: u8,
    pub DelegateMax: u8,
    pub DelegateCur: u8,
}

/// A service as the agent reports it.
#[derive(Clone, Default, Debug)]
pub struct AgentService {
    pub ID: String,
    pub Service: String,
    pub Tags: Option<Vec<String>>,
    pub Port: u16,
    pub Address: String,
    pub EnableTagOverride: bool,
    pub CreateIndex: Option<u64>,
    pub ModifyIndex: Option<u64>,
    pub Weights: Option<HashMap<String, i32>>,
}

/// A service to register.
#[derive(Clone, Debug, Default)]
pub struct RegisterAgentService {
    pub Name: String,
    pub ID: String,
    pub Address: String,
    pub Port: u16,
    pub Kind: String,
    pub EnableTagOverride: bool,
    pub Tags: Option<Vec<String>>,
    pub TaggedAddresses: Option<TaggedAddresses>,
    pub Meta: Option<HashMap<String, String>>,
    pub Check: Option<AgentCheck>,
    pub Weights: Option<HashMap<String, i32>>,
}

/// `key` bound to `value` where `present`, and nothing else.
pub open spec fn flag_pairs(present: bool, key: Seq<char>, value: Seq<char>) -> Seq<Pair> {
    if present {
        with_pair(Seq::empty(), key, value)
    } else {
        Seq::empty()
    }
}

/// `key` bound to the text where there is one, and nothing else.
pub open spec fn text_pairs(key: Seq<char>, text: Option<&str>) -> Seq<Pair> {
    match text {
        Some(t) => with_pair(Seq::empty(), key, t@),
        None => Seq::empty(),
    }
}

/// The parameters that switch maintenance on or off: `enabled`, and the
/// reason where one is given.
pub open spec fn maintenance_pairs(enable: bool, reason: Option<&str>) -> Seq<Pair> {
    let enabled = with_pair(Seq::empty(), "enabled"@, bool_text(enable));
    match reason {
        Some(r) => with_pair(enabled, "reason"@, r@),
        None => enabled,
    }
}

/// Whether `outcome` is the request of a write without a body to `path`.
pub open spec fn puts(
    outcome: Result<Request<'static, ()>, Error>,
    config: Config,
    path: Seq<char>,
    pairs: Seq<Pair>,
) -> bool {
    sends(
        outcome,
        Method::Put,
        config.address@ + path,
        write_pairs(&config, pairs, None),
        config.token,
        None,
    )
}

/// Whether `outcome` is the request of a read of `path`.
pub open spec fn gets(
    outcome: Result<Request<'static, ()>, Error>,
    config: Config,
    path: Seq<char>,
    pairs: Seq<Pair>,
) -> bool {
    sends(
        outcome,
        Method::Get,
        config.address@ + path,
        read_pairs(&config, pairs, None),
        config.token,
        None,
    )
}

/// The parameters with `key` bound to `value` where `present`.
fn flag_params(present: bool, key: &str, value: &str) -> (params: Params)
    ensures
        params@ == flag_pairs(present, key@, value@),
{
    let mut params = Params::new();
    if present {
        params.insert(String::from_str(key), String::from_str(value));
    }
    params
}

/// The parameters with `key` bound to the text where there is one.
fn text_params(key: &str, text: Option<&str>) -> (params: Params)
    ensures
        params@ == text_pairs(key@, text),
{
    let mut params = Params::new();
    match text {
        Some(t) => {
            params.insert(String::from_str(key), String::from_str(t));
        },
        None => {},
    }
    params
}

/// The parameters that switch maintenance on or off.
fn maintenance_params(enable: bool, reason: Option<&str>) -> (params: Params)
    ensures
        params@ == maintenance_pairs(enable, reason),
{
    let mut params = Params::new();
    params.insert(String::from_str("enabled"), String::from_str(bool_str(enable)));
    match reason {
        Some(r) => {
            params.insert(String::from_str("reason"), String::from_str(r));
        },
        None => {},
    }
    params
}

/// The request of a write without a body.
fn put_empty(path: &str, config: &Config, params: Params) -> (outcome: Result<
    Request<'static, ()>,
    Error,
>)
    ensures
        puts(outcome, *config, path@, params@),
{
    put(path, None, config, params, None)
}

/// What can be asked of an agent.
pub trait Agent {
    /// The configuration that the requests are made from.
    spec fn identity(&self) -> Config;

    /// Lists the members that the agent sees, those of the WAN pool where
    /// `wan` is set.
    fn members(&self, wan: bool) -> (outcome: Result<Request<'static, ()>, Error>)
        ensures
            gets(outcome, self.identity(), "/v1/agent/members"@, flag_pairs(wan, "wan"@, "1"@)),
    ;

    /// Has the agent read its configuration again.
    fn reload(&self) -> (outcome: Result<Request<'static, ()>, Error>)
        ensures
            puts(outcome, self.identity(), "/v1/agent/reload"@, Seq::empty()),
    ;

    /// Puts the agent into maintenance or takes it out of it.
    fn maintenance_mode(&self, enable: bool, reason: Option<&str>) -> (outcome: Result<
        Request<'static, ()>,
        Error,
    >)
        ensures
            puts(
                outcome,
                self.identity(),
                "/v1/agent/maintenance"@,
                maintenance_pairs(enable, reason),
            ),
    ;

    /// Has the agent join the cluster of the agent at `address`.
    fn join(&self, address: &str, wan: bool) -> (outcome: Result<Request<'static, ()>, Error>)
        ensures
            puts(
                outcome,
                self.identity(),
                "/v1/agent/join/"@ + address@,
                flag_pairs(wan, "wan"@, "true"@),
            ),
    ;

    /// Has the agent leave the cluster and shut down.
    fn leave(&self) -> (outcome: Result<Request<'static, ()>, Error>)
        ensures
            puts(outcome, self.identity(), "/v1/agent/leave"@, Seq::empty()),
    ;

    /// Has the agent put a member into the state of one that left.
    fn force_leave(&self) -> (outcome: Result<Request<'static, ()>, Error>)
        ensures
            puts(outcome, self.identity(), "/v1/agent/force-leave"@, Seq::empty()),
    ;

    /// Lists the checks that the agent holds.
    fn checks(&self) -> (outcome: Result<Request<'static, ()>, Error>)
        ensures
            gets(outcome, self.identity(), "/v1/agent/checks"@, Seq::empty()),
    ;

    /// Registers a check. A registration that fills in the fields of no
    /// kind of check, or of several, is refused here: it is `InvalidCheck`,
    /// whatever the address, and there is no request to send.
    fn register_check<'a>(&self, reg: &'a RegisterAgentCheck) -> (outcome: Result<
        Request<'a, RegisterAgentCheck>,
        Error,
    >)
        ensures
            !reg.one_kind() ==> (outcome matches Err(e) && e == Error::InvalidCheck),
            reg.one_kind() ==> sends(
                outcome,
                Method::Put,
                self.identity().address@ + "/v1/agent/check/register"@,
                write_pairs(&self.identity(), Seq::empty(), None),
                self.identity().token,
                Some(reg),
            ),
    ;

    /// Removes a check.
    fn deregister_check(&self, check_id: &str) -> (outcome: Result<Request<'static, ()>, Error>)
        ensures
            puts(
                outcome,
                self.identity(),
                "/v1/agent/check/deregister/"@ + check_id@,
                Seq::empty(),
            ),
    ;

    /// Reports the status of a TTL check, with a note where one is given.
    fn ttl_check_send(
        &self,
        status: TTLStatus,
        check_id: &str,
        note: Option<&str>,
    ) -> (outcome: Result<Request<'static, ()>, Error>)
        ensures
            puts(
                outcome,
                self.identity(),
                "/v1/agent/check/"@ + status.path_text() + "/"@ + check_id@,
                text_pairs("note"@, note),
            ),
    ;

    /// Lists the services that the agent holds, those that `filter` lets
    /// through where one is given.
    fn services(&self, filter: Option<&str>) -> (outcome: Result<Request<'static, ()>, Error>)
        ensures
            gets(outcome, self.identity(), "/v1/agent/services"@, text_pairs("filter"@, filter)),
    ;

    /// Registers a service.
    fn register_service<'a>(
        &self,
        reg: &'a RegisterAgentService,
        replace_existing_checks: bool,
    ) -> (outcome: Result<Request<'a, RegisterAgentService>, Error>)
        ensures
            sends(
                outcome,
                Method::Put,
                self.identity().address@ + ("/v1/agent/service/register?replace-existing-checks="@
                    + bool_text(replace_existing_checks)),
                write_pairs(&self.identity(), Seq::empty(), None),
                self.identity().token,
                Some(reg),
            ),
    ;

    /// Removes a service.
    fn deregister_service(&self, service_id: &str) -> (outcome: Result<
        Request<'static, ()>,
        Error,
    >)
        ensures
            puts(
                outcome,
                self.identity(),
                "/v1/agent/service/deregister/"@ + service_id@,
                Seq::empty(),
            ),
    ;

    /// Puts a service into maintenance or takes it out of it.
    fn service_maintenance_mode(
        &self,
        service_id: &str,
        enable: bool,
        reason: Option<&str>,
    ) -> (outcome: Result<Request<'static, ()>, Error>)
        ensures
            puts(
                outcome,
                self.identity(),
                "/v1/agent/service/maintenance/"@ + service_id@,
                maintenance_pairs(enable, reason),
            ),
    ;
}

impl Agent for Client {
    open spec fn identity(&self) -> Config {
        self@
    }

    fn members(&self, wan: bool) -> (outcome: Result<Request<'static, ()>, Error>) {
        let params = flag_params(wan, "wan", "1");
        get_vec("/v1/agent/members", self.config(), params, None)
    }

    fn reload(&self) -> (outcome: Result<Request<'static, ()>, Error>) {
        put_empty("/v1/agent/reload", self.config(), Params::new())
    }

    fn maintenance_mode(&self, enable: bool, reason: Option<&str>) -> (outcome: Result<
        Request<'static, ()>,
        Error,
    >) {
        let params = maintenance_params(enable, reason);
        put_empty("/v1/agent/maintenance", self.config(), params)
    }

    fn join(&self, address: &str, wan: bool) -> (outcome: Result<Request<'static, ()>, Error>) {
        let params = flag_params(wan, "wan", "true");
        let path = join("/v1/agent/join/", address);
        put_empty(path.as_str(), self.config(), params)
    }

    fn leave(&self) -> (outcome: Result<Request<'static, ()>, Error>) {
        put_empty("/v1/agent/leave", self.config(), Params::new())
    }

    fn force_leave(&self) -> (outcome: Result<Request<'static, ()>, Error>) {
        put_empty("/v1/agent/force-leave", self.config(), Params::new())
    }

    fn checks(&self) -> (outcome: Result<Request<'static, ()>, Error>) {
        get("/v1/agent/checks", self.config(), Params::new(), None)
    }

    fn register_check<'a>(&self, reg: &'a RegisterAgentCheck) -> (outcome: Result<
        Request<'a, RegisterAgentCheck>,
        Error,
    >) {
        match reg.kind() {
            None => Err(Error::InvalidCheck),
            Some(_) => put(
                "/v1/agent/check/register",
                Some(reg),
                self.config(),
                Params::new(),
                None,
            ),
        }
    }

    fn deregister_check(&self, check_id: &str) -> (outcome: Result<Request<'static, ()>, Error>) {
        let path = join("/v1/agent/check/deregister/", check_id);
        put_empty(path.as_str(), self.config(), Params::new())
    }

    fn ttl_check_send(
        &self,
        status: TTLStatus,
        check_id: &str,
        note: Option<&str>,
    ) -> (outcome: Result<Request<'static, ()>, Error>) {
        let params = text_params("note", note);
        let path = join("/v1/agent/check/", status.path()).concat("/").concat(check_id);
        put_empty(path.as_str(), self.config(), params)
    }

    fn services(&self, filter: Option<&str>) -> (outcome: Result<Request<'static, ()>, Error>) {
        let params = text_params("filter", filter);
        get("/v1/agent/services", self.config(), params, None)
    }

    fn register_service<'a>(
        &self,
        reg: &'a RegisterAgentService,
        replace_existing_checks: bool,
    ) -> (outcome: Result<Request<'a, RegisterAgentService>, Error>) {
        let path = join(
            "/v1/agent/service/register?replace-existing-checks=",
            bool_str(replace_existing_checks),
        );
        put(path.as_str(), Some(reg), self.config(), Params::new(), None)
    }

    fn deregister_service(&self, service_id: &str) -> (outcome: Result<
        Request<'static, ()>,
        Error,
    >) {
        let path = join("/v1/agent/service/deregister/", service_id);
        put_empty(path.as_str(), self.config(), Params::new())
    }

    fn service_maintenance_mode(
        &self,
        service_id: &str,
        enable: bool,
        reason: Option<&str>,
    ) -> (outcome: Result<Request<'static, ()>, Error>) {
        let params = maintenance_params(enable, reason);
        let path = join("/v1/agent/service/maintenance/", service_id);
        put_empty(path.as_str(), self.config(), params)
    }
}

} // verus!
