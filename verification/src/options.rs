//! How a camera is described to this crate.

use crate::net::IpAddr;
use vstd::prelude::*;

verus! {

/// Chooses the format in which status messages such as battery levels are
/// printed.
#[derive(Debug, Clone, Copy, PartialEq, Eq, Structural)]
pub enum PrintFormat {
    /// Nothing is printed.
    NoPrint,
    /// A human readable output.
    Human,
    /// XML.
    Xml,
}

/// The kinds of connection to try.
#[derive(Debug, Clone, Copy)]
pub enum ConnectionProtocol {
    /// TCP and UDP.
    TcpUdp,
    /// TCP only.
    Tcp,
    /// UDP only.
    Udp,
}

impl Default for ConnectionProtocol {
    /// The default keeps the widest reach.
    fn default() -> (protocol: Self)
        ensures
            protocol == ConnectionProtocol::TcpUdp,
    {
        ConnectionProtocol::TcpUdp
    }
}

impl ConnectionProtocol {
    /// Whether TCP may be tried.
    pub open spec fn tcp(self) -> bool {
        self is Tcp || self is TcpUdp
    }

    /// Whether UDP may be tried.
    pub open spec fn udp(self) -> bool {
        self is Udp || self is TcpUdp
    }
}

/// How far discovery may reach when UDP is used.
#[derive(Debug, Clone, Copy, PartialEq, Eq, Structural)]
pub enum DiscoveryMethods {
    /// No discovery at all.
    Disabled,
    /// The local network.
    Local,
    /// Also a direct connection that a relay arranges.
    Remote,
    /// Also a connection that a relay maps.
    Mapped,
    /// Also traffic that a relay forwards.
    Relay,
    /// An account camera, which logs in with a minted cloud token.
    Cloud,
}

/// Which UDP discovery arms may run.
#[derive(Debug, Clone, Copy, PartialEq, Eq, Structural)]
pub struct DiscoveryFlags {
    /// Broadcast on the local network.
    pub local: bool,
    /// Direct connection after registration.
    pub remote: bool,
    /// Mapped connection after registration.
    pub map: bool,
    /// Relayed connection after registration.
    pub relay: bool,
}

impl DiscoveryFlags {
    /// Whether any arm needs a registration first.
    pub open spec fn registers(self) -> bool {
        self.remote || self.map || self.relay
    }
}

/// The text that stands for a password wherever one would be shown.
pub open spec fn password_mask() -> Seq<char> {
    seq!['*', '*', '*', '*', '*', '*']
}

/// The characters of an optional string.
pub open spec fn text_of(text: Option<String>) -> Option<Seq<char>> {
    match text {
        Some(s) => Some(s@),
        None => None,
    }
}

/// Copies an optional string.
pub(crate) fn copy_text(text: &Option<String>) -> (copy: Option<String>)
    ensures
        text_of(copy) == text_of(*text),
{
    match text {
        Some(s) => Some(s.clone()),
        None => None,
    }
}

/// The characters of a user name and of a password.
pub struct CredentialsView {
    /// The user name.
    pub username: Seq<char>,
    /// The password.
    pub password: Option<Seq<char>>,
}

/// What a camera asks for at login.
pub struct Credentials {
    /// The user name.
    pub username: String,
    /// The password, if there is one.
    pub password: Option<String>,
}

impl View for Credentials {
    type V = CredentialsView;

    open spec fn view(&self) -> CredentialsView {
        CredentialsView { username: self.username@, password: text_of(self.password) }
    }
}

impl Credentials {
    /// Bundles a user name with a password.
    pub fn new(username: String, password: Option<String>) -> (credentials: Self)
        ensures
            credentials == (Credentials { username, password }),
    {
        Credentials { username, password }
    }

    /// An independent copy.
    pub fn duplicate(&self) -> (copy: Self)
        ensures
            copy@ == self@,
    {
        Credentials { username: self.username.clone(), password: copy_text(&self.password) }
    }

    /// A copy that is safe to print: a password is replaced by its mask.
    pub fn redacted(&self) -> (shown: RedactedCredentials)
        ensures
            shown.username@ == self@.username,
            text_of(shown.password) == masked(self@.password),
    {
        let password = match &self.password {
            Some(_) => {
                proof {
                    reveal_strlit("******");
                }
                let mask = "******".to_owned();
                assert(mask@ =~= password_mask());
                Some(mask)
            },
            None => None,
        };
        RedactedCredentials { username: self.username.clone(), password }
    }
}

/// What is shown of an optional password.
pub open spec fn masked(password: Option<Seq<char>>) -> Option<Seq<char>> {
    match password {
        Some(_) => Some(password_mask()),
        None => None,
    }
}

/// Credentials without the password.
#[derive(Debug)]
pub struct RedactedCredentials {
    /// The user name.
    pub username: String,
    /// The mask, where there is a password.
    pub password: Option<String>,
}

/// Options used to construct a camera.
pub struct BcCameraOpt {
    /// Name, mostly used for log messages.
    pub name: String,
    /// The channel that the camera is on: 0 unless it sits behind an NVR.
    pub channel_id: u8,
    /// The addresses of the camera.
    pub addrs: Vec<IpAddr>,
    /// The UID of the camera.
    pub uid: Option<String>,
    /// A port to try ahead of the standard ones.
    pub port: Option<u16>,
    /// Whether TCP, UDP or both are used.
    pub protocol: ConnectionProtocol,
    /// The discovery methods to allow.
    pub discovery: DiscoveryMethods,
    /// How often a failed registration is repeated; 0 means for ever.
    pub max_discovery_retries: usize,
    /// Credentials for the login.
    pub credentials: Credentials,
    /// The account e-mail of an account camera.
    pub cloud_account: Option<String>,
    /// The account password of an account camera.
    pub cloud_password: Option<String>,
    /// A stored trust token that clears login verification.
    pub cloud_mfa_trust_token: Option<String>,
    /// A stored refresh token, used where there is no trust token.
    pub cloud_refresh_token: Option<String>,
    /// Whether the underlying data is printed.
    pub debug: bool,
}

/// Everything that printing the options reveals.
pub struct RedactedView {
    pub name: Seq<char>,
    pub channel_id: u8,
    pub addrs: Seq<IpAddr>,
    pub uid: Option<Seq<char>>,
    pub port: Option<u16>,
    pub protocol: ConnectionProtocol,
    pub discovery: DiscoveryMethods,
    pub max_discovery_retries: usize,
    pub credentials: CredentialsView,
    pub cloud_account: Option<Seq<char>>,
    pub cloud_password: Option<Seq<char>>,
    pub cloud_mfa_trust_token: Option<Seq<char>>,
    pub cloud_refresh_token: Option<Seq<char>>,
    pub debug: bool,
}

/// The options in the form in which they are printed.
#[derive(Debug)]
pub struct RedactedOpt {
    pub name: String,
    pub channel_id: u8,
    pub addrs: Vec<IpAddr>,
    pub uid: Option<String>,
    pub port: Option<u16>,
    pub protocol: ConnectionProtocol,
    pub discovery: DiscoveryMethods,
    pub max_discovery_retries: usize,
    pub credentials: RedactedCredentials,
    pub cloud_account: Option<String>,
    pub cloud_password: Option<String>,
    pub cloud_mfa_trust_token: Option<String>,
    pub cloud_refresh_token: Option<String>,
    pub debug: bool,
}

impl View for RedactedOpt {
    type V = RedactedView;

    open spec fn view(&self) -> RedactedView {
        RedactedView {
            name: self.name@,
            channel_id: self.channel_id,
            addrs: self.addrs@,
            uid: text_of(self.uid),
            port: self.port,
            protocol: self.protocol,
            discovery: self.discovery,
            max_discovery_retries: self.max_discovery_retries,
            credentials: CredentialsView {
                username: self.credentials.username@,
                password: text_of(self.credentials.password),
            },
            cloud_account: text_of(self.cloud_account),
            cloud_password: text_of(self.cloud_password),
            cloud_mfa_trust_token: text_of(self.cloud_mfa_trust_token),
            cloud_refresh_token: text_of(self.cloud_refresh_token),
            debug: self.debug,
        }
    }
}

impl BcCameraOpt {
    /// What printing these options reveals: every field, but for the login
    /// password, of which only the presence shows.
    pub open spec fn shown(self) -> RedactedView {
        RedactedView {
            name: self.name@,
            channel_id: self.channel_id,
            addrs: self.addrs@,
            uid: text_of(self.uid),
            port: self.port,
            protocol: self.protocol,
            discovery: self.discovery,
            max_discovery_retries: self.max_discovery_retries,
            credentials: CredentialsView {
                username: self.credentials@.username,
                password: masked(self.credentials@.password),
            },
            cloud_account: text_of(self.cloud_account),
            cloud_password: text_of(self.cloud_password),
            cloud_mfa_trust_token: text_of(self.cloud_mfa_trust_token),
            cloud_refresh_token: text_of(self.cloud_refresh_token),
            debug: self.debug,
        }
    }

    /// A copy that is safe to print.
    pub fn redacted(&self) -> (shown: RedactedOpt)
        ensures
            shown@ == self.shown(),
    {
        let addrs = self.addrs.clone();
        assert(addrs@ =~= self.addrs@);
        RedactedOpt {
            name: self.name.clone(),
            channel_id: self.channel_id,
            addrs,
            uid: copy_text(&self.uid),
            port: self.port,
            protocol: self.protocol,
            discovery: self.discovery,
            max_discovery_retries: self.max_discovery_retries,
            credentials: self.credentials.redacted(),
            cloud_account: copy_text(&self.cloud_account),
            cloud_password: copy_text(&self.cloud_password),
            cloud_mfa_trust_token: copy_text(&self.cloud_mfa_trust_token),
            cloud_refresh_token: copy_text(&self.cloud_refresh_token),
            debug: self.debug,
        }
    }

    /// Whether this is an account camera, which advertises the token
    /// handshake while it is discovered and logs in without a local password.
    pub fn is_cloud(&self) -> (cloud: bool)
        ensures
            cloud == (self.discovery is Cloud),
    {
        matches!(self.discovery, DiscoveryMethods::Cloud)
    }
}

/// Printing the options tells nothing about the login password: two sets of
/// options that differ in the password alone print alike.
pub proof fn law_printing_hides_the_password(
    opt: BcCameraOpt,
    first: Credentials,
    second: Credentials,
)
    requires
        first@.username == second@.username,
        first@.password is Some,
        second@.password is Some,
    ensures
        (BcCameraOpt { credentials: first, ..opt }).shown() == (BcCameraOpt {
            credentials: second,
            ..opt
        }).shown(),
{
}

/// The view of credentials is their text, nothing more and nothing less.
pub proof fn law_credentials_view_is_their_text(credentials: Credentials)
    ensures
        credentials@.username == credentials.username@,
        credentials.password is None ==> credentials@.password is None,
        credentials.password matches Some(p) ==> credentials@.password == Some(p@),
{
}

/// Printing options shows every field as it is, the user name among them. Of a
/// login password it shows six asterisks, whatever its text, and of a missing
/// one that it is missing.
pub proof fn law_printing_shows_all_else(opt: BcCameraOpt)
    ensures
        opt.shown().name == opt.name@,
        opt.shown().channel_id == opt.channel_id,
        opt.shown().addrs == opt.addrs@,
        opt.uid is None ==> opt.shown().uid is None,
        opt.uid matches Some(t) ==> opt.shown().uid == Some(t@),
        opt.shown().port == opt.port,
        opt.shown().protocol == opt.protocol,
        opt.shown().discovery == opt.discovery,
        opt.shown().max_discovery_retries == opt.max_discovery_retries,
        opt.shown().credentials.username == opt.credentials.username@,
        opt.credentials.password is None ==> opt.shown().credentials.password is None,
        opt.credentials.password is Some ==> opt.shown().credentials.password == Some(
            seq!['*', '*', '*', '*', '*', '*'],
        ),
        opt.cloud_account is None ==> opt.shown().cloud_account is None,
        opt.cloud_account matches Some(t) ==> opt.shown().cloud_account == Some(t@),
        opt.cloud_password is None ==> opt.shown().cloud_password is None,
        opt.cloud_password matches Some(t) ==> opt.shown().cloud_password == Some(t@),
        opt.cloud_mfa_trust_token is None ==> opt.shown().cloud_mfa_trust_token is None,
        opt.cloud_mfa_trust_token matches Some(t) ==> opt.shown().cloud_mfa_trust_token == Some(
            t@,
        ),
        opt.cloud_refresh_token is None ==> opt.shown().cloud_refresh_token is None,
        opt.cloud_refresh_token matches Some(t) ==> opt.shown().cloud_refresh_token == Some(t@),
        opt.shown().debug == opt.debug,
{
}

/// The view of printed options is what stands in them.
pub proof fn law_printed_view_is_what_is_printed(opt: RedactedOpt)
    ensures
        opt@.name == opt.name@,
        opt@.channel_id == opt.channel_id,
        opt@.addrs == opt.addrs@,
        opt.uid is None ==> opt@.uid is None,
        opt.uid matches Some(t) ==> opt@.uid == Some(t@),
        opt@.port == opt.port,
        opt@.protocol == opt.protocol,
        opt@.discovery == opt.discovery,
        opt@.max_discovery_retries == opt.max_discovery_retries,
        opt@.credentials.username == opt.credentials.username@,
        opt.credentials.password is None ==> opt@.credentials.password is None,
        opt.credentials.password matches Some(t) ==> opt@.credentials.password == Some(t@),
        opt.cloud_account is None ==> opt@.cloud_account is None,
        opt.cloud_account matches Some(t) ==> opt@.cloud_account == Some(t@),
        opt.cloud_password is None ==> opt@.cloud_password is None,
        opt.cloud_password matches Some(t) ==> opt@.cloud_password == Some(t@),
        opt.cloud_mfa_trust_token is None ==> opt@.cloud_mfa_trust_token is None,
        opt.cloud_mfa_trust_token matches Some(t) ==> opt@.cloud_mfa_trust_token == Some(t@),
        opt.cloud_refresh_token is None ==> opt@.cloud_refresh_token is None,
        opt.cloud_refresh_token matches Some(t) ==> opt@.cloud_refresh_token == Some(t@),
        opt@.debug == opt.debug,
{
}

/// What is shown of a password does not depend on it: any two look alike, and a
/// missing one looks like none of them.
pub proof fn law_masks_look_alike(first: Seq<char>, second: Seq<char>)
    ensures
        masked(Some(first)) == masked(Some(second)),
        masked(Some(first)) == Some(seq!['*', '*', '*', '*', '*', '*']),
        masked(None) is None,
{
}

} // verus!
