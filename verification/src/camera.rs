//! The camera: its identity, its counters and what it is allowed to do.

use crate::error::{is_missing_ability, Error};
use crate::options::{
    copy_text, text_of, BcCameraOpt, Credentials, CredentialsView, DiscoveryMethods,
};
use std::sync::Arc;
use vstd::hash_map::StringHashMap;
use vstd::prelude::*;

verus! {

/// What the camera lets this user do with one of its abilities.
#[derive(Debug, Clone, Copy, PartialEq, Eq, Structural)]
pub enum ReadKind {
    /// Look, but not change.
    ReadOnly,
    /// Look and change.
    ReadWrite,
    /// Nothing.
    NoAccess,
}

/// The handshake of an account camera: a nonce and its payload.
pub open spec fn handshake_of(handshake: Option<(i64, String)>) -> Option<(i64, Seq<char>)> {
    match handshake {
        Some((nonce, payload)) => Some((nonce, payload@)),
        None => None,
    }
}

/// The state of a camera.
pub struct CameraView<C> {
    pub channel_id: u8,
    pub connection: C,
    pub logged_in: bool,
    pub message_num: u16,
    pub credentials: CredentialsView,
    pub abilities: Map<Seq<char>, ReadKind>,
    pub is_cloud: bool,
    pub sigv3_handshake: Option<(i64, Seq<char>)>,
    pub cloud_account: Option<Seq<char>>,
    pub cloud_password: Option<Seq<char>>,
    pub cloud_uid: Option<Seq<char>>,
    pub cloud_mfa_trust_token: Option<Seq<char>>,
    pub cloud_refresh_token: Option<Seq<char>>,
}

/// The primary type of this crate: a camera that is reached over a connection
/// of type `C`.
///
/// The connection is only carried along; a driver outside this crate talks
/// over it.
pub struct BcCamera<C> {
    /// The channel that the camera is on.
    pub channel_id: u8,
    /// The connection to the camera.
    pub connection: Arc<C>,
    /// Whether the login went through.
    pub logged_in: bool,
    /// The number that the next message gets.
    pub message_num: u16,
    /// The logout message carries these in the clear, so they are kept.
    pub credentials: Credentials,
    /// What the camera granted at login.
    pub abilities: StringHashMap<ReadKind>,
    /// Whether this is an account camera. The account fields below are set on
    /// every camera, so this flag alone selects the token login.
    pub is_cloud: bool,
    /// The handshake that discovery captured, on account cameras.
    pub sigv3_handshake: Option<(i64, String)>,
    /// The account e-mail.
    pub cloud_account: Option<String>,
    /// The account password.
    pub cloud_password: Option<String>,
    /// The UID under which the account knows the camera.
    pub cloud_uid: Option<String>,
    /// A stored trust token.
    pub cloud_mfa_trust_token: Option<String>,
    /// A stored refresh token.
    pub cloud_refresh_token: Option<String>,
}

impl<C> View for BcCamera<C> {
    type V = CameraView<C>;

    open spec fn view(&self) -> CameraView<C> {
        CameraView {
            channel_id: self.channel_id,
            connection: *self.connection,
            logged_in: self.logged_in,
            message_num: self.message_num,
            credentials: self.credentials@,
            abilities: self.abilities@,
            is_cloud: self.is_cloud,
            sigv3_handshake: handshake_of(self.sigv3_handshake),
            cloud_account: text_of(self.cloud_account),
            cloud_password: text_of(self.cloud_password),
            cloud_uid: text_of(self.cloud_uid),
            cloud_mfa_trust_token: text_of(self.cloud_mfa_trust_token),
            cloud_refresh_token: text_of(self.cloud_refresh_token),
        }
    }
}

/// What a new camera starts with, when its first message gets `message_num`.
pub open spec fn fresh_camera<C>(
    options: BcCameraOpt,
    connection: C,
    handshake: Option<(i64, Seq<char>)>,
    message_num: u16,
) -> CameraView<C> {
    CameraView {
        channel_id: options.channel_id,
        connection,
        logged_in: false,
        message_num,
        credentials: options.credentials@,
        abilities: Map::empty(),
        is_cloud: options.discovery is Cloud,
        sigv3_handshake: handshake,
        cloud_account: text_of(options.cloud_account),
        cloud_password: text_of(options.cloud_password),
        cloud_uid: text_of(options.uid),
        cloud_mfa_trust_token: text_of(options.cloud_mfa_trust_token),
        cloud_refresh_token: text_of(options.cloud_refresh_token),
    }
}

/// What an ability table grants of `name`.
pub open spec fn granted(abilities: Map<Seq<char>, ReadKind>, name: Seq<char>) -> ReadKind {
    if abilities.contains_key(name) {
        abilities[name]
    } else {
        ReadKind::NoAccess
    }
}

/// Whether looking is allowed.
pub open spec fn may_read(kind: ReadKind) -> bool {
    kind != ReadKind::NoAccess
}

/// Whether changing is allowed.
pub open spec fn may_write(kind: ReadKind) -> bool {
    kind == ReadKind::ReadWrite
}

/// How a refusal names what the camera grants.
pub open spec fn kind_text(kind: ReadKind) -> Seq<char> {
    match kind {
        ReadKind::ReadOnly => "read"@,
        ReadKind::ReadWrite => "write"@,
        ReadKind::NoAccess => "none"@,
    }
}

/// Calls `rand::random` for a `u16`. Any value may come back, so nothing is
/// claimed of it. The call panics only where the system has no randomness to
/// seed the generator with.
#[verifier::external_body]
fn random_message_num() -> (num: u16) {
    rand::random::<u16>()
}

/// Calls `Arc::clone`: the new handle leads to the same value.
#[verifier::external_body]
fn share<C>(handle: &Arc<C>) -> (copy: Arc<C>)
    ensures
        copy == *handle,
{
    handle.clone()
}

/// What is to be done after the first keepalive of a new camera.
pub enum Startup<C> {
    /// The camera is ready.
    Ready(BcCamera<C>),
    /// The keepalive failed: shut the connection down, then report the error.
    TearDown {
        /// The connection, whose tasks are already running.
        connection: Arc<C>,
        /// Why the camera could not be started.
        error: Error,
    },
}

impl<C> BcCamera<C> {
    /// Wraps a freshly opened connection.
    ///
    /// Message numbers start at a random point, so that their wraparound does
    /// not line up from one session to the next.
    pub fn new(
        options: &BcCameraOpt,
        connection: Arc<C>,
        handshake: Option<(i64, String)>,
    ) -> (camera: Self)
        ensures
            camera@ == fresh_camera(
                *options,
                *connection,
                handshake_of(handshake),
                camera@.message_num,
            ),
            camera.channel_id == options.channel_id,
            camera.credentials.username@ == options.credentials.username@,
            options.credentials.password is None ==> camera.credentials.password is None,
            options.credentials.password matches Some(p) ==> (camera.credentials.password matches
                Some(q) && q@ == p@),
            camera.is_cloud == (options.discovery is Cloud),
            !camera.logged_in,
            camera.connection == connection,
            camera.sigv3_handshake == handshake,
    {
        let first_num: u16 = random_message_num();
        Self::with_message_num(options, connection, handshake, first_num)
    }

    /// Wraps a freshly opened connection; the first message gets `first_num`.
    pub fn with_message_num(
        options: &BcCameraOpt,
        connection: Arc<C>,
        handshake: Option<(i64, String)>,
        first_num: u16,
    ) -> (camera: Self)
        ensures
            camera@ == fresh_camera(*options, *connection, handshake_of(handshake), first_num),
            camera.message_num == first_num,
            camera.channel_id == options.channel_id,
            camera.credentials.username@ == options.credentials.username@,
            options.credentials.password is None ==> camera.credentials.password is None,
            options.credentials.password matches Some(p) ==> (camera.credentials.password matches
                Some(q) && q@ == p@),
            camera.is_cloud == (options.discovery is Cloud),
            !camera.logged_in,
            camera.connection == connection,
            camera.sigv3_handshake == handshake,
    {
        BcCamera {
            channel_id: options.channel_id,
            connection,
            logged_in: false,
            message_num: first_num,
            credentials: options.credentials.duplicate(),
            abilities: StringHashMap::new(),
            is_cloud: options.is_cloud(),
            sigv3_handshake: handshake,
            cloud_account: copy_text(&options.cloud_account),
            cloud_password: copy_text(&options.cloud_password),
            cloud_uid: copy_text(&options.uid),
            cloud_mfa_trust_token: copy_text(&options.cloud_mfa_trust_token),
            cloud_refresh_token: copy_text(&options.cloud_refresh_token),
        }
    }

    /// Decides what follows the first keepalive, given how it went.
    pub fn after_keepalive(self, keepalive: Result<(), Error>) -> (startup: Startup<C>)
        ensures
            match keepalive {
                Ok(_) => startup == Startup::Ready(self),
                Err(e) => startup == (Startup::<C>::TearDown {
                    connection: self.connection,
                    error: e,
                }),
            },
    {
        match keepalive {
            Ok(_) => Startup::Ready(self),
            Err(error) => Startup::TearDown { connection: self.connection, error },
        }
    }

    /// A camera for tests: logged in as `admin` without a password, on channel
    /// 0, with no abilities and with message numbers from 0.
    pub fn from_mock_connection(mock: Arc<C>) -> (camera: Self)
        ensures
            camera@ == mock_camera(
                *mock,
                CredentialsView { username: "admin"@, password: None },
            ),
    {
        Self::from_mock_connection_with_credentials(
            mock,
            Credentials::new("admin".to_owned(), None),
        )
    }

    /// As [`BcCamera::from_mock_connection`], with other credentials.
    pub fn from_mock_connection_with_credentials(
        mock: Arc<C>,
        credentials: Credentials,
    ) -> (camera: Self)
        ensures
            camera@ == mock_camera(*mock, credentials@),
    {
        BcCamera {
            channel_id: 0,
            connection: mock,
            logged_in: true,
            message_num: 0,
            credentials,
            abilities: StringHashMap::new(),
            is_cloud: false,
            sigv3_handshake: None,
            cloud_account: None,
            cloud_password: None,
            cloud_uid: None,
            cloud_mfa_trust_token: None,
            cloud_refresh_token: None,
        }
    }

    /// Hands out a message number and moves on to the next one, which wraps
    /// around after the largest.
    pub fn new_message_num(&mut self) -> (num: u16)
        ensures
            num == old(self)@.message_num,
            final(self)@ == (CameraView {
                message_num: next_num(old(self)@.message_num),
                ..old(self)@
            }),
    {
        let num: u16 = self.message_num;
        self.message_num = num.wrapping_add(1);
        num
    }

    /// A handle on the connection.
    pub fn get_connection(&self) -> (connection: Arc<C>)
        ensures
            connection == self.connection,
    {
        share(&self.connection)
    }

    /// The credentials, which commands such as logout need.
    pub fn get_credentials(&self) -> (credentials: &Credentials)
        ensures
            *credentials == self.credentials,
    {
        &self.credentials
    }

    /// What the camera grants of an ability; nothing, if it never named it.
    pub fn has_ability(&self, name: &str) -> (kind: ReadKind)
        ensures
            kind == granted(self@.abilities, name@),
    {
        match self.abilities.get(name) {
            Some(kind) => *kind,
            None => ReadKind::NoAccess,
        }
    }

    /// Fails unless the ability may be read.
    pub fn has_ability_ro(&self, name: &str) -> (result: Result<(), Error>)
        ensures
            result is Ok <==> may_read(granted(self@.abilities, name@)),
            result matches Err(e) ==> is_missing_ability(e, name@, "read"@, "none"@),
    {
        match self.has_ability(name) {
            ReadKind::ReadWrite | ReadKind::ReadOnly => Ok(()),
            ReadKind::NoAccess => Err(
                Error::MissingAbility {
                    name: name.to_owned(),
                    requested: "read".to_owned(),
                    actual: "none".to_owned(),
                },
            ),
        }
    }

    /// Fails unless the ability may be changed.
    pub fn has_ability_rw(&self, name: &str) -> (result: Result<(), Error>)
        ensures
            result is Ok <==> may_write(granted(self@.abilities, name@)),
            result matches Err(e) ==> is_missing_ability(
                e,
                name@,
                "write"@,
                kind_text(granted(self@.abilities, name@)),
            ),
    {
        match self.has_ability(name) {
            ReadKind::ReadWrite => Ok(()),
            ReadKind::ReadOnly => Err(
                Error::MissingAbility {
                    name: name.to_owned(),
                    requested: "write".to_owned(),
                    actual: "read".to_owned(),
                },
            ),
            ReadKind::NoAccess => Err(
                Error::MissingAbility {
                    name: name.to_owned(),
                    requested: "write".to_owned(),
                    actual: "none".to_owned(),
                },
            ),
        }
    }

    /// Installs an ability, for tests.
    pub fn test_set_ability(&mut self, name: String, read_write: bool)
        ensures
            final(self)@ == (CameraView {
                abilities: with_ability(old(self)@.abilities, name@, read_write),
                ..old(self)@
            }),
    {
        let kind = if read_write {
            ReadKind::ReadWrite
        } else {
            ReadKind::ReadOnly
        };
        self.abilities.insert(name, kind);
    }
}

/// The state of a camera for tests.
pub open spec fn mock_camera<C>(mock: C, credentials: CredentialsView) -> CameraView<C> {
    CameraView {
        channel_id: 0,
        connection: mock,
        logged_in: true,
        message_num: 0,
        credentials,
        abilities: Map::empty(),
        is_cloud: false,
        sigv3_handshake: None,
        cloud_account: None,
        cloud_password: None,
        cloud_uid: None,
        cloud_mfa_trust_token: None,
        cloud_refresh_token: None,
    }
}

/// The message number that follows `num`.
pub open spec fn next_num(num: u16) -> u16 {
    if num == u16::MAX {
        0
    } else {
        (num + 1) as u16
    }
}

/// An ability table in which `name` is granted.
pub open spec fn with_ability(
    abilities: Map<Seq<char>, ReadKind>,
    name: Seq<char>,
    read_write: bool,
) -> Map<Seq<char>, ReadKind> {
    abilities.insert(
        name,
        if read_write {
            ReadKind::ReadWrite
        } else {
            ReadKind::ReadOnly
        },
    )
}

/// Whoever may change an ability may also look at it.
pub proof fn law_write_includes_read(kind: ReadKind)
    ensures
        may_write(kind) ==> may_read(kind),
{
}

/// An ability that was installed is granted as it was installed, and no other
/// ability is affected.
pub proof fn law_installed_ability_is_granted(
    abilities: Map<Seq<char>, ReadKind>,
    name: Seq<char>,
    other: Seq<char>,
    read_write: bool,
)
    ensures
        may_read(granted(with_ability(abilities, name, read_write), name)),
        may_write(granted(with_ability(abilities, name, read_write), name)) == read_write,
        other != name ==> granted(with_ability(abilities, name, read_write), other) == granted(
            abilities,
            other,
        ),
{
}

/// A camera that granted nothing allows nothing.
pub proof fn law_empty_table_grants_nothing(name: Seq<char>)
    ensures
        granted(Map::empty(), name) == ReadKind::NoAccess,
{
}

/// The message number that is handed out after `count` others.
pub open spec fn num_after(first: u16, count: nat) -> u16
    decreases count,
{
    if count == 0 {
        first
    } else {
        next_num(num_after(first, (count - 1) as nat))
    }
}

/// Message numbers count up by one and wrap around after 65535.
pub proof fn law_message_nums_count_up(first: u16, count: nat)
    ensures
        num_after(first, count) == (first + count) % 65536,
    decreases count,
{
    if count > 0 {
        law_message_nums_count_up(first, (count - 1) as nat);
    }
}

/// A message number is not handed out again before all the others were.
pub proof fn law_message_nums_do_not_repeat_soon(first: u16, earlier: nat, later: nat)
    requires
        earlier < later < earlier + 65536,
    ensures
        num_after(first, earlier) != num_after(first, later),
{
    law_message_nums_count_up(first, earlier);
    law_message_nums_count_up(first, later);
}

/// The view of a camera is what stands in its fields.
pub proof fn law_camera_view_is_its_fields<C>(camera: BcCamera<C>)
    ensures
        camera@.channel_id == camera.channel_id,
        camera@.connection == *camera.connection,
        camera@.logged_in == camera.logged_in,
        camera@.message_num == camera.message_num,
        camera@.credentials.username == camera.credentials.username@,
        camera.credentials.password is None ==> camera@.credentials.password is None,
        camera.credentials.password matches Some(t) ==> camera@.credentials.password == Some(t@),
        camera@.abilities == camera.abilities@,
        camera@.is_cloud == camera.is_cloud,
        camera.sigv3_handshake is None ==> camera@.sigv3_handshake is None,
        camera.sigv3_handshake matches Some((nonce, payload)) ==> camera@.sigv3_handshake == Some(
            (nonce, payload@),
        ),
        camera.cloud_account is None ==> camera@.cloud_account is None,
        camera.cloud_account matches Some(t) ==> camera@.cloud_account == Some(t@),
        camera.cloud_password is None ==> camera@.cloud_password is None,
        camera.cloud_password matches Some(t) ==> camera@.cloud_password == Some(t@),
        camera.cloud_uid is None ==> camera@.cloud_uid is None,
        camera.cloud_uid matches Some(t) ==> camera@.cloud_uid == Some(t@),
        camera.cloud_mfa_trust_token is None ==> camera@.cloud_mfa_trust_token is None,
        camera.cloud_mfa_trust_token matches Some(t) ==> camera@.cloud_mfa_trust_token == Some(t@),
        camera.cloud_refresh_token is None ==> camera@.cloud_refresh_token is None,
        camera.cloud_refresh_token matches Some(t) ==> camera@.cloud_refresh_token == Some(t@),
{
}

/// A new camera keeps what its options say, whatever the discovery method: the
/// channel, the user name and the password of the login, the UID and all that
/// belongs to the account. It is not logged in and knows of no ability.
pub proof fn law_new_camera_keeps_its_options<C>(
    options: BcCameraOpt,
    connection: C,
    handshake: Option<(i64, Seq<char>)>,
    message_num: u16,
)
    ensures
        ({
            let camera = fresh_camera(options, connection, handshake, message_num);
            &&& camera.channel_id == options.channel_id
            &&& camera.connection == connection
            &&& !camera.logged_in
            &&& camera.message_num == message_num
            &&& camera.credentials.username == options.credentials.username@
            &&& options.credentials.password is None ==> camera.credentials.password is None
            &&& options.credentials.password matches Some(t) ==> camera.credentials.password
                == Some(t@)
            &&& forall|name: Seq<char>| !(#[trigger] camera.abilities.contains_key(name))
            &&& camera.is_cloud <==> options.discovery is Cloud
            &&& camera.sigv3_handshake == handshake
            &&& options.cloud_account is None ==> camera.cloud_account is None
            &&& options.cloud_account matches Some(t) ==> camera.cloud_account == Some(t@)
            &&& options.cloud_password is None ==> camera.cloud_password is None
            &&& options.cloud_password matches Some(t) ==> camera.cloud_password == Some(t@)
            &&& options.uid is None ==> camera.cloud_uid is None
            &&& options.uid matches Some(t) ==> camera.cloud_uid == Some(t@)
            &&& options.cloud_mfa_trust_token is None ==> camera.cloud_mfa_trust_token is None
            &&& options.cloud_mfa_trust_token matches Some(t) ==> camera.cloud_mfa_trust_token
                == Some(t@)
            &&& options.cloud_refresh_token is None ==> camera.cloud_refresh_token is None
            &&& options.cloud_refresh_token matches Some(t) ==> camera.cloud_refresh_token == Some(
                t@,
            )
        }),
{
}

/// The discovery method decides whether a camera is an account camera, and
/// nothing else about it: options that differ in the method alone give cameras
/// that differ in that mark alone.
pub proof fn law_discovery_method_sets_the_account_mark_alone<C>(
    options: BcCameraOpt,
    method: DiscoveryMethods,
    connection: C,
    handshake: Option<(i64, Seq<char>)>,
    message_num: u16,
)
    ensures
        fresh_camera(
            BcCameraOpt { discovery: method, ..options },
            connection,
            handshake,
            message_num,
        ) == (CameraView {
            is_cloud: method is Cloud,
            ..fresh_camera(options, connection, handshake, message_num)
        }),
{
}

/// How a camera is found and reached leaves no trace in it: options that differ
/// in the name, the addresses, the port, the protocol, the number of retries or
/// the debug switch give the same camera.
pub proof fn law_search_settings_do_not_reach_the_camera<C>(
    options: BcCameraOpt,
    other: BcCameraOpt,
    connection: C,
    handshake: Option<(i64, Seq<char>)>,
    message_num: u16,
)
    ensures
        fresh_camera(
            BcCameraOpt {
                name: other.name,
                addrs: other.addrs,
                port: other.port,
                protocol: other.protocol,
                max_discovery_retries: other.max_discovery_retries,
                debug: other.debug,
                ..options
            },
            connection,
            handshake,
            message_num,
        ) == fresh_camera(options, connection, handshake, message_num),
{
}

/// A camera for tests has the credentials it was given and is an ordinary
/// camera on channel 0, logged in, with no abilities and with message numbers
/// from 0.
pub proof fn law_mock_camera_is_plain<C>(mock: C, credentials: CredentialsView)
    ensures
        ({
            let camera = mock_camera(mock, credentials);
            &&& camera.connection == mock
            &&& camera.credentials == credentials
            &&& camera.channel_id == 0
            &&& camera.logged_in
            &&& camera.message_num == 0
            &&& forall|name: Seq<char>| !(#[trigger] camera.abilities.contains_key(name))
            &&& !camera.is_cloud
            &&& camera.sigv3_handshake is None
            &&& camera.cloud_account is None
            &&& camera.cloud_password is None
            &&& camera.cloud_uid is None
            &&& camera.cloud_mfa_trust_token is None
            &&& camera.cloud_refresh_token is None
        }),
{
}

/// What the table holds of an ability is what is granted, and an ability that
/// it does not hold is not granted at all.
pub proof fn law_table_decides_what_is_granted(
    abilities: Map<Seq<char>, ReadKind>,
    name: Seq<char>,
)
    ensures
        abilities.contains_key(name) ==> granted(abilities, name) == abilities[name],
        !abilities.contains_key(name) ==> granted(abilities, name) is NoAccess,
{
}

/// Installing an ability sets it to what was asked for, leaves every other
/// entry of the table as it was and adds none besides.
pub proof fn law_installing_touches_one_entry(
    abilities: Map<Seq<char>, ReadKind>,
    name: Seq<char>,
    other: Seq<char>,
    read_write: bool,
)
    requires
        other != name,
    ensures
        ({
            let table = with_ability(abilities, name, read_write);
            &&& table.contains_key(name)
            &&& read_write ==> table[name] is ReadWrite
            &&& !read_write ==> table[name] is ReadOnly
            &&& table.contains_key(other) == abilities.contains_key(other)
            &&& abilities.contains_key(other) ==> table[other] == abilities[other]
        }),
{
}

/// Both grants allow looking and only one of them allows changing; a refusal
/// says `read` of the other one, and `none` where nothing is granted.
pub proof fn law_grants_allow_what_they_say(kind: ReadKind)
    ensures
        may_read(kind) <==> kind is ReadOnly || kind is ReadWrite,
        may_write(kind) <==> kind is ReadWrite,
        kind is ReadOnly ==> kind_text(kind) == "read"@,
        kind is NoAccess ==> kind_text(kind) == "none"@,
{
}

/// A handshake is carried over as it is.
pub proof fn law_handshake_is_kept(nonce: i64, payload: String)
    ensures
        handshake_of(Some((nonce, payload))) == Some((nonce, payload@)),
        handshake_of(None) is None,
{
}

/// The numbers go up by one and start again at 0 after the largest one.
pub proof fn law_next_number_is_one_more(num: u16)
    ensures
        num < 65535 ==> next_num(num) == num + 1,
        num == 65535 ==> next_num(num) == 0,
{
}

} // verus!
