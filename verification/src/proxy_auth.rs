//! Proxy Authentication and the Instance Selector: the password carries the
//! shared secret, the username carries the selector.
use vstd::prelude::*;

use crate::config;
use crate::pool::{
    auto_matches, leased, selection_matches, slot_result, ConnectionLease, InstanceSelector,
    PoolConfig, PoolMember, ProxyPool, ScheduleError, SpecSelector,
};
use crate::text::{chars_eq, chars_of, find_first, first_index_of, slice_chars, str_eq, string_from_chars};

verus! {

/// Proxy Authentication settings of a Proxy Endpoint.
#[derive(Debug, Clone, PartialEq, Eq)]
pub struct AuthConfig {
    shared_secret: Option<String>,
}

/// The username and password a client presented.
#[derive(Debug, Clone, PartialEq, Eq)]
pub struct ProxyCredentials {
    pub username: String,
    pub password: String,
}

/// Why a proxy request was refused.
#[derive(Debug, Clone, Copy, PartialEq, Eq, Structural)]
pub enum ProxyRequestError {
    AuthenticationFailed,
    InvalidSelector,
    SelectionFailed(ScheduleError),
}

/// How a request is routed.
enum ProxyRoute {
    Automatic,
    Select(InstanceSelector),
}

/// How a username routes a request, as values.
pub enum SpecRoute {
    Automatic,
    Select(SpecSelector),
}

/// The characters `i`, `d`.
pub open spec fn id_kind() -> Seq<char> {
    seq!['i', 'd']
}

/// The characters `e`, `x`, `i`, `t`.
pub open spec fn exit_kind() -> Seq<char> {
    seq!['e', 'x', 'i', 't']
}

/// The characters `g`, `r`, `o`, `u`, `p`.
pub open spec fn group_kind() -> Seq<char> {
    seq!['g', 'r', 'o', 'u', 'p']
}

/// The route a proxy username asks for: an empty username is automatic
/// scheduling; otherwise the text before the first `:` names the selector kind
/// (`id`, `exit` or `group`) and the non-empty text after it its value.
pub open spec fn route_of(username: Seq<char>) -> Result<SpecRoute, ProxyRequestError> {
    if username.len() == 0 {
        Ok(SpecRoute::Automatic)
    } else {
        match first_index_of(username, ':') {
            None => Err(ProxyRequestError::InvalidSelector),
            Some(i) => {
                let kind = username.take(i);
                let value = username.skip(i + 1);
                if value.len() == 0 {
                    Err(ProxyRequestError::InvalidSelector)
                } else if kind == id_kind() {
                    Ok(SpecRoute::Select(SpecSelector::Id(value)))
                } else if kind == exit_kind() {
                    Ok(SpecRoute::Select(SpecSelector::ExitIp(value)))
                } else if kind == group_kind() {
                    Ok(SpecRoute::Select(SpecSelector::Group(value)))
                } else {
                    Err(ProxyRequestError::InvalidSelector)
                }
            },
        }
    }
}

/// The slot a request was granted, or why it was refused.
pub open spec fn request_slot(r: Result<ConnectionLease, ProxyRequestError>) -> Result<
    int,
    ProxyRequestError,
> {
    match r {
        Ok(lease) => Ok(lease.spec_slot()),
        Err(e) => Err(e),
    }
}

/// A scheduling outcome lifted into a request outcome.
pub open spec fn lifted(r: Result<int, ScheduleError>) -> Result<int, ProxyRequestError> {
    match r {
        Ok(slot) => Ok(slot),
        Err(e) => Err(ProxyRequestError::SelectionFailed(e)),
    }
}

impl AuthConfig {
    /// The shared secret, when one is required.
    pub closed spec fn spec_secret(self) -> Option<Seq<char>> {
        match self.shared_secret {
            Some(s) => Some(s@),
            None => None,
        }
    }

    /// Whether a password passes Proxy Authentication: any password does without
    /// a shared secret, otherwise only the secret itself.
    pub open spec fn accepts(self, password: Seq<char>) -> bool {
        match self.spec_secret() {
            Some(secret) => password == secret,
            None => true,
        }
    }

    /// Proxy Authentication with a shared secret.
    pub fn shared_secret(secret: &str) -> (r: Self)
        ensures
            r.spec_secret() == Some(secret@),
    {
        AuthConfig { shared_secret: Some(String::from_str(secret)) }
    }

    /// No Proxy Authentication.
    pub fn disabled() -> (r: Self)
        ensures
            r.spec_secret() is None,
    {
        AuthConfig { shared_secret: None }
    }

    /// Proxy Authentication as the configuration asks: an empty shared secret
    /// disables it.
    pub fn from_config(config: &config::AuthConfig) -> (r: Self)
        ensures
            config.shared_secret@.len() == 0 ==> r.spec_secret() is None,
            config.shared_secret@.len() > 0 ==> r.spec_secret() == Some(config.shared_secret@),
    {
        if config.shared_secret.as_str().is_empty() {
            Self::disabled()
        } else {
            Self::shared_secret(config.shared_secret.as_str())
        }
    }

    /// Whether clients must present the shared secret.
    pub fn requires_password(&self) -> (r: bool)
        ensures
            r == self.spec_secret() is Some,
    {
        self.shared_secret.is_some()
    }

    /// Whether the credentials pass Proxy Authentication; the username is never
    /// consulted.
    fn authenticate(&self, credentials: &ProxyCredentials) -> (r: bool)
        ensures
            r == self.accepts(credentials.password@),
    {
        match &self.shared_secret {
            Some(secret) => str_eq(credentials.password.as_str(), secret.as_str()),
            None => true,
        }
    }
}

impl ProxyCredentials {
    /// Credentials from a username and a password.
    pub fn new(username: &str, password: &str) -> (r: Self)
        ensures
            r.username@ == username@,
            r.password@ == password@,
    {
        ProxyCredentials { username: String::from_str(username), password: String::from_str(password) }
    }
}

spec fn route_view(route: ProxyRoute) -> SpecRoute {
    match route {
        ProxyRoute::Automatic => SpecRoute::Automatic,
        ProxyRoute::Select(s) => SpecRoute::Select(crate::pool::selector_view(s)),
    }
}

/// Reads the route out of a proxy username.
fn parse_route(username: &str) -> (r: Result<ProxyRoute, ProxyRequestError>)
    ensures
        match r {
            Ok(route) => route_of(username@) == Ok::<SpecRoute, ProxyRequestError>(
                route_view(route),
            ),
            Err(e) => route_of(username@) == Err::<SpecRoute, ProxyRequestError>(e),
        },
{
    let chars = chars_of(username);
    if chars.len() == 0 {
        return Ok(ProxyRoute::Automatic);
    }
    let colon = match find_first(&chars, ':') {
        Some(i) => i,
        None => {
            return Err(ProxyRequestError::InvalidSelector);
        },
    };
    let kind = slice_chars(&chars, 0, colon);
    let value_chars = slice_chars(&chars, colon + 1, chars.len());
    proof {
        assert(kind@ == chars@.take(colon as int));
        assert(value_chars@ == chars@.skip(colon + 1));
    }
    if value_chars.len() == 0 {
        return Err(ProxyRequestError::InvalidSelector);
    }
    let value = string_from_chars(&value_chars);
    let id = vec!['i', 'd'];
    let exit = vec!['e', 'x', 'i', 't'];
    let group = vec!['g', 'r', 'o', 'u', 'p'];
    assert(id@ == id_kind());
    assert(exit@ == exit_kind());
    assert(group@ == group_kind());
    if chars_eq(&kind, &id) {
        Ok(ProxyRoute::Select(InstanceSelector::Id(value)))
    } else if chars_eq(&kind, &exit) {
        Ok(ProxyRoute::Select(InstanceSelector::ExitIp(value)))
    } else if chars_eq(&kind, &group) {
        Ok(ProxyRoute::Select(InstanceSelector::Group(value)))
    } else {
        Err(ProxyRequestError::InvalidSelector)
    }
}

/// What resolving a request with these credentials against a pool gives: the
/// slot of the granted WARP Instance, or why it was refused.
pub open spec fn request_resolution(
    members: Seq<PoolMember>,
    pool_config: PoolConfig,
    cursor: int,
    auth: AuthConfig,
    username: Seq<char>,
    password: Seq<char>,
    r: Result<int, ProxyRequestError>,
) -> bool {
    if !auth.accepts(password) {
        r == Err::<int, ProxyRequestError>(ProxyRequestError::AuthenticationFailed)
    } else {
        match route_of(username) {
            Err(e) => r == Err::<int, ProxyRequestError>(e),
            Ok(SpecRoute::Automatic) => exists|s: Result<int, ScheduleError>|
                auto_matches(members, cursor, s) && r == lifted(s),
            Ok(SpecRoute::Select(selector)) => exists|s: Result<int, ScheduleError>|
                selection_matches(members, pool_config, selector, s) && r == lifted(s),
        }
    }
}

/// Where round-robin tie-breaking starts after a request with this username was
/// granted `slot`: just after it when the request was scheduled automatically;
/// an explicit selection leaves it where it was.
pub open spec fn cursor_after(cursor: int, username: Seq<char>, slot: int) -> int {
    if route_of(username) matches Ok(SpecRoute::Automatic) {
        slot + 1
    } else {
        cursor
    }
}

/// Resolves a proxy request to a WARP Instance: the password must pass Proxy
/// Authentication, then the username routes the request (automatic scheduling or
/// an explicit selector). A failed selector fails the request; it never falls
/// back to automatic scheduling.
pub fn resolve_proxy_request(
    pool: &mut ProxyPool,
    auth: &AuthConfig,
    credentials: ProxyCredentials,
) -> (r: Result<ConnectionLease, ProxyRequestError>)
    requires
        old(pool).has_headroom(),
    ensures
        final(pool).spec_config() == old(pool).spec_config(),
        request_resolution(
            old(pool).spec_members(),
            old(pool).spec_config(),
            old(pool).spec_cursor(),
            *auth,
            credentials.username@,
            credentials.password@,
            request_slot(r),
        ),
        !auth.accepts(credentials.password@) ==> r == Err::<
            ConnectionLease,
            ProxyRequestError,
        >(ProxyRequestError::AuthenticationFailed),
        auth.accepts(credentials.password@) ==> match route_of(credentials.username@) {
            Err(e) => r == Err::<ConnectionLease, ProxyRequestError>(e),
            Ok(SpecRoute::Automatic) => exists|s: Result<int, ScheduleError>|
                auto_matches(old(pool).spec_members(), old(pool).spec_cursor(), s)
                    && request_slot(r) == lifted(s),
            Ok(SpecRoute::Select(selector)) => exists|s: Result<int, ScheduleError>|
                selection_matches(old(pool).spec_members(), old(pool).spec_config(), selector, s)
                    && request_slot(r) == lifted(s),
        },
        r matches Ok(lease) ==> leased(
            old(pool).spec_members(),
            final(pool).spec_members(),
            lease.spec_slot(),
        ) && lease.spec_instance_id()
            == old(pool).spec_members()[lease.spec_slot()].instance.instance_id@,
        r is Err ==> final(pool).spec_members() == old(pool).spec_members(),
        r is Err ==> final(pool).spec_cursor() == old(pool).spec_cursor(),
        r matches Ok(lease) ==> final(pool).spec_cursor() == cursor_after(
            old(pool).spec_cursor(),
            credentials.username@,
            lease.spec_slot(),
        ),
{
    if !auth.authenticate(&credentials) {
        return Err(ProxyRequestError::AuthenticationFailed);
    }
    match parse_route(credentials.username.as_str()) {
        Err(e) => Err(e),
        Ok(ProxyRoute::Automatic) => {
            let r = pool.schedule_auto();
            let ghost s = slot_result(r);
            let res = match r {
                Ok(lease) => Ok(lease),
                Err(e) => Err(ProxyRequestError::SelectionFailed(e)),
            };
            assert(request_slot(res) == lifted(s));
            res
        },
        Ok(ProxyRoute::Select(selector)) => {
            let r = pool.select_instance(selector);
            let ghost s = slot_result(r);
            let res = match r {
                Ok(lease) => Ok(lease),
                Err(e) => Err(ProxyRequestError::SelectionFailed(e)),
            };
            assert(request_slot(res) == lifted(s));
            res
        },
    }
}

/// Proxy Authentication law: when a shared secret is configured, a request whose
/// password differs from it is refused, whatever its username says.
pub proof fn law_password_alone_authenticates(auth: AuthConfig, username: Seq<char>, password: Seq<char>)
    requires
        auth.spec_secret() matches Some(secret) && password != secret,
    ensures
        !auth.accepts(password),
{
}

proof fn lemma_first_colon(kind: Seq<char>, value: Seq<char>)
    requires
        forall|j: int| 0 <= j < kind.len() ==> kind[j] != ':',
    ensures
        first_index_of(kind + seq![':'] + value, ':') == Some(kind.len() as int),
        (kind + seq![':'] + value).take(kind.len() as int) == kind,
        (kind + seq![':'] + value).skip(kind.len() as int + 1) == value,
        (kind + seq![':'] + value).len() > 0,
{
    let u = kind + seq![':'] + value;
    let n = kind.len() as int;
    assert(u[n] == ':');
    assert forall|j: int| 0 <= j < n implies u[j] != ':' by {
        assert(u[j] == kind[j]);
    }
    let i = choose|i: int| 0 <= i < u.len() && u[i] == ':' && forall|j: int| 0 <= j < i ==> u[j] != ':';
    assert(i == n);
    assert(u.take(n) =~= kind);
    assert(u.skip(n + 1) =~= value);
}

/// Instance Selector law: the selector kind is the text before the first `:`
/// of the username and its value is everything after it, `:` included; each
/// kind with a non-empty value routes to its selector.
pub proof fn law_selector_kind_before_first_colon(kind: Seq<char>, value: Seq<char>)
    requires
        kind == id_kind() || kind == exit_kind() || kind == group_kind(),
        value.len() > 0,
    ensures
        kind == id_kind() ==> route_of(kind + seq![':'] + value) == Ok::<
            SpecRoute,
            ProxyRequestError,
        >(SpecRoute::Select(SpecSelector::Id(value))),
        kind == exit_kind() ==> route_of(kind + seq![':'] + value) == Ok::<
            SpecRoute,
            ProxyRequestError,
        >(SpecRoute::Select(SpecSelector::ExitIp(value))),
        kind == group_kind() ==> route_of(kind + seq![':'] + value) == Ok::<
            SpecRoute,
            ProxyRequestError,
        >(SpecRoute::Select(SpecSelector::Group(value))),
{
    let u = kind + seq![':'] + value;
    assert(id_kind().len() == 2 && exit_kind().len() == 4 && group_kind().len() == 5);
    assert forall|j: int| 0 <= j < kind.len() implies kind[j] != ':' by {
        if kind == id_kind() {
            assert(kind[j] == id_kind()[j]);
        } else if kind == exit_kind() {
            assert(kind[j] == exit_kind()[j]);
        } else {
            assert(kind[j] == group_kind()[j]);
        }
    }
    lemma_first_colon(kind, value);
    assert(u.len() > 0);
    assert(first_index_of(u, ':') == Some(kind.len() as int));
    assert(u.take(kind.len() as int) == kind);
    assert(u.skip(kind.len() as int + 1) == value);
    if kind == exit_kind() {
        assert(kind != id_kind());
    } else if kind == group_kind() {
        assert(kind != id_kind());
        assert(kind != exit_kind());
    }
}

} // verus!
