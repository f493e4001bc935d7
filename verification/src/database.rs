//! The database handle: how a database is opened, what it admits while it is
//! open, and what it refuses once it is closed.
//!
//! The handle does not reach the engine itself. An operation that needs the
//! engine answers with the request that the caller is to carry out, or with
//! the failure of a closed connection; the caller hands back what the engine
//! gave.

use crate::auth::{Authorizer, AuthorizerBuilder};
use crate::double::{is_positive, spec_is_positive, spec_to_u64, to_u64};
use crate::errors::{code_name, engine_failure, throw_libsql_error, EngineError, Error, ErrorData};
use crate::params::name_view;
use crate::statement::{AccessMode, Column, Statement};
use crate::params::names_view;
use crate::text::has_prefix;
use vstd::prelude::*;
use vstd::string::*;

verus! {

/// The targets that name a remote database: those that begin with one of the
/// three URL schemes the engine is reached over.
pub open spec fn spec_is_remote_path(path: Seq<char>) -> bool {
    "libsql://"@.is_prefix_of(path) || "http://"@.is_prefix_of(path) || "https://"@.is_prefix_of(
        path,
    )
}

/// Tells a remote target (a URL) from a local one (a file path).
pub fn is_remote_path(path: &str) -> (remote: bool)
    ensures
        remote == spec_is_remote_path(path@),
{
    has_prefix(path, "libsql://") || has_prefix(path, "http://") || has_prefix(path, "https://")
}

/// The result code that the engine refuses the name of a cipher with.
pub const UNKNOWN_CIPHER: i32 = 21;

/// Asks the engine for the cipher of a name and hands back the code of its
/// refusal, if it refuses. Calls `libsql::Cipher::from_str`, which accepts the
/// one name `aes256cbc` and fails for every other text with an error whose
/// extended code is 21.
#[verifier::external_body]
fn cipher_failure(name: &str) -> (failure: Option<i32>)
    ensures
        failure == (if name@ == "aes256cbc"@ {
            None
        } else {
            Some(UNKNOWN_CIPHER)
        }),
{
    <libsql::Cipher as std::str::FromStr>::from_str(name).err().map(|e| e.extended_code)
}

/// The options that a database is opened with. The two durations are
/// doubles, held as their bits.
#[derive(Debug, Clone, PartialEq, Eq)]
#[allow(non_snake_case)]
pub struct Options {
    /// How long a write waits for a lock, in milliseconds.
    pub timeout: Option<u64>,
    /// The token that a remote database asks for.
    pub authToken: Option<String>,
    /// The URL that a replica is kept in step with.
    pub syncUrl: Option<String>,
    /// Whether a replica sees its own writes at once.
    pub readYourWrites: Option<bool>,
    /// How often a replica is brought in step, in seconds.
    pub syncPeriod: Option<u64>,
    /// The cipher of a local file.
    pub encryptionCipher: Option<String>,
    /// The key of a local file.
    pub encryptionKey: Option<String>,
    /// The key that the remote side encrypts with.
    pub remoteEncryptionKey: Option<String>,
}

/// The cipher and key that a local file is encrypted with.
#[derive(Debug, Clone, PartialEq, Eq)]
pub struct Encryption {
    pub cipher: String,
    pub key: String,
}

/// What the engine is asked to open.
#[derive(Debug, Clone, PartialEq, Eq)]
pub enum OpenTarget {
    /// A database behind a URL.
    Remote { url: String, auth_token: String, remote_encryption_key: Option<String> },
    /// A local file that is kept in step with a remote database.
    Replica {
        path: String,
        sync_url: String,
        auth_token: String,
        read_your_writes: bool,
        encryption: Option<Encryption>,
        remote_encryption_key: Option<String>,
        /// The bits of the period in seconds, where the replica is brought
        /// in step by itself.
        sync_interval: Option<u64>,
    },
    /// A local file that takes its changes from a remote database and
    /// can be used while that one is out of reach.
    Synced { path: String, sync_url: String, auth_token: String },
    /// A local file, or a database in memory.
    Local { path: String, encryption: Option<Encryption> },
}

/// What an [`OpenTarget`] holds.
pub enum TargetData {
    Remote { url: Seq<char>, auth_token: Seq<char>, remote_encryption_key: Option<Seq<char>> },
    Replica {
        path: Seq<char>,
        sync_url: Seq<char>,
        auth_token: Seq<char>,
        read_your_writes: bool,
        encryption: Option<(Seq<char>, Seq<char>)>,
        remote_encryption_key: Option<Seq<char>>,
        sync_interval: Option<u64>,
    },
    Synced { path: Seq<char>, sync_url: Seq<char>, auth_token: Seq<char> },
    Local { path: Seq<char>, encryption: Option<(Seq<char>, Seq<char>)> },
}

/// What an encryption that may be absent holds: the cipher and the key.
pub open spec fn encryption_view(encryption: Option<Encryption>) -> Option<(Seq<char>, Seq<char>)> {
    match encryption {
        Some(e) => Some((e.cipher@, e.key@)),
        None => None,
    }
}

/// The encryption for a cipher and a key: none for the empty key.
pub open spec fn spec_encryption(cipher: Seq<char>, key: Seq<char>) -> Option<
    (Seq<char>, Seq<char>),
> {
    if key.len() > 0 {
        Some((cipher, key))
    } else {
        None
    }
}

/// The interval that a period in seconds asks for: the period itself where
/// it is greater than zero.
pub open spec fn spec_interval(period: u64) -> Option<u64> {
    if spec_is_positive(period) {
        Some(period)
    } else {
        None
    }
}

/// The busy timeout in whole milliseconds that a timeout asks for: none
/// unless it is greater than zero.
pub open spec fn spec_timeout(timeout: u64) -> Option<u64> {
    if spec_is_positive(timeout) {
        Some(spec_to_u64(timeout) as u64)
    } else {
        None
    }
}

impl View for OpenTarget {
    type V = TargetData;

    open spec fn view(&self) -> TargetData {
        match *self {
            OpenTarget::Remote { url, auth_token, remote_encryption_key } => TargetData::Remote {
                url: url@,
                auth_token: auth_token@,
                remote_encryption_key: name_view(remote_encryption_key),
            },
            OpenTarget::Replica {
                path,
                sync_url,
                auth_token,
                read_your_writes,
                encryption,
                remote_encryption_key,
                sync_interval,
            } => TargetData::Replica {
                path: path@,
                sync_url: sync_url@,
                auth_token: auth_token@,
                read_your_writes,
                encryption: encryption_view(encryption),
                remote_encryption_key: name_view(remote_encryption_key),
                sync_interval,
            },
            OpenTarget::Synced { path, sync_url, auth_token } => TargetData::Synced {
                path: path@,
                sync_url: sync_url@,
                auth_token: auth_token@,
            },
            OpenTarget::Local { path, encryption } => TargetData::Local {
                path: path@,
                encryption: encryption_view(encryption),
            },
        }
    }
}

/// A text that may be missing, or the text that stands in for it.
pub open spec fn text_or(text: Option<String>, default: Seq<char>) -> Seq<char> {
    match text {
        Some(t) => t@,
        None => default,
    }
}

/// The target that a path and options name, or nothing where the options
/// name a cipher that the engine does not know. A URL is a remote database.
/// A path with a URL to keep in step with is a replica: its token is empty
/// unless given, its cipher is `aes256cbc` unless given, it sees its own
/// writes unless told otherwise, it is encrypted where the key is not empty,
/// and it is brought in step by itself where the period is greater than
/// zero. Any other path is a local database.
pub open spec fn spec_open_target(path: Seq<char>, opts: Option<Options>) -> Option<TargetData> {
    if spec_is_remote_path(path) {
        Some(
            TargetData::Remote {
                url: path,
                auth_token: match opts {
                    Some(o) => text_or(o.authToken, Seq::empty()),
                    None => Seq::empty(),
                },
                remote_encryption_key: match opts {
                    Some(o) => name_view(o.remoteEncryptionKey),
                    None => None,
                },
            },
        )
    } else if opts is Some && opts->Some_0.syncUrl is Some {
        let o = opts->Some_0;
        let cipher = text_or(o.encryptionCipher, "aes256cbc"@);
        let key = text_or(o.encryptionKey, Seq::empty());
        if cipher != "aes256cbc"@ {
            None
        } else {
            Some(
                TargetData::Replica {
                    path,
                    sync_url: o.syncUrl->Some_0@,
                    auth_token: text_or(o.authToken, Seq::empty()),
                    read_your_writes: match o.readYourWrites {
                        Some(b) => b,
                        None => true,
                    },
                    encryption: spec_encryption(cipher, key),
                    remote_encryption_key: name_view(o.remoteEncryptionKey),
                    sync_interval: match o.syncPeriod {
                        Some(period) => spec_interval(period),
                        None => None,
                    },
                },
            )
        }
    } else {
        Some(TargetData::Local { path, encryption: None })
    }
}

/// The target that a path or URL names, with the token, cipher and key that
/// go with it; or nothing where a local file names a cipher that the engine
/// does not know. A URL is a remote database, and its cipher is not looked
/// at. A path is a local database, encrypted where the key is not empty.
pub open spec fn spec_js_open_target(
    path: Seq<char>,
    auth_token: Seq<char>,
    cipher: Seq<char>,
    key: Seq<char>,
) -> Option<TargetData> {
    if spec_is_remote_path(path) {
        Some(TargetData::Remote { url: path, auth_token, remote_encryption_key: None })
    } else if cipher != "aes256cbc"@ {
        None
    } else {
        Some(TargetData::Local { path, encryption: spec_encryption(cipher, key) })
    }
}

/// The target of a local file that is kept in step with a remote database;
/// or nothing where the cipher is one that the engine does not know. Offline
/// it is a synced database, which takes neither encryption nor a period;
/// else it is a replica, encrypted where the key is not empty and brought in
/// step by itself where the period is greater than zero.
pub open spec fn spec_js_open_with_sync_target(
    path: Seq<char>,
    sync_url: Seq<char>,
    sync_auth: Seq<char>,
    cipher: Seq<char>,
    key: Seq<char>,
    sync_period: u64,
    read_your_writes: bool,
    offline: bool,
) -> Option<TargetData> {
    if cipher != "aes256cbc"@ {
        None
    } else if offline {
        Some(TargetData::Synced { path, sync_url, auth_token: sync_auth })
    } else {
        Some(
            TargetData::Replica {
                path,
                sync_url,
                auth_token: sync_auth,
                read_your_writes,
                encryption: spec_encryption(cipher, key),
                remote_encryption_key: None,
                sync_interval: spec_interval(sync_period),
            },
        )
    }
}

/// The failure of opening a file with a cipher that the engine refuses: the
/// engine's own code for it, without a message.
pub open spec fn unknown_cipher() -> ErrorData {
    ErrorData::Sqlite {
        message: Seq::empty(),
        code: code_name(UNKNOWN_CIPHER as int),
        raw_code: UNKNOWN_CIPHER,
    }
}

/// The busy timeout that the options ask for, in whole milliseconds: that of
/// a timeout greater than zero, and none otherwise.
pub open spec fn spec_busy_timeout(opts: Option<Options>) -> Option<u64> {
    match opts {
        Some(o) => match o.timeout {
            Some(timeout) => spec_timeout(timeout),
            None => None,
        },
        None => None,
    }
}

/// The failure of opening with a cipher that the engine does not know.
pub open spec fn invalid_cipher() -> ErrorData {
    ErrorData::Sqlite {
        message: "Invalid encryption cipher"@,
        code: "SQLITE_INVALID_ENCRYPTION_CIPHER"@,
        raw_code: 0,
    }
}

fn text_or_empty(text: Option<String>) -> (result: String)
    ensures
        result@ == text_or(text, Seq::empty()),
{
    match text {
        Some(t) => t,
        None => String::new(),
    }
}

fn encryption_for(cipher: String, key: String) -> (encryption: Option<Encryption>)
    ensures
        encryption_view(encryption) == spec_encryption(cipher@, key@),
{
    if !key.as_str().is_empty() {
        Some(Encryption { cipher, key })
    } else {
        None
    }
}

fn interval_for(period: u64) -> (interval: Option<u64>)
    ensures
        interval == spec_interval(period),
{
    if is_positive(period) {
        Some(period)
    } else {
        None
    }
}

fn timeout_for(timeout: u64) -> (millis: Option<u64>)
    ensures
        millis == spec_timeout(timeout),
{
    if is_positive(timeout) {
        Some(to_u64(timeout))
    } else {
        None
    }
}

/// What the caller is to ask of the engine.
#[derive(Debug, Clone, PartialEq, Eq)]
pub enum Request {
    /// Run every statement of the text, for their effects.
    ExecuteBatch { sql: String },
    /// Compile the text into a statement.
    Prepare { sql: String },
    /// Break off what is running on the connection.
    Interrupt,
}

/// What an outcome of an operation that needs the connection must be: the
/// failure of a closed connection, or the given request.
pub open spec fn admits(outcome: Result<Request, Error>, open: bool, request: Request) -> bool {
    if open {
        outcome == Ok::<Request, Error>(request)
    } else {
        outcome == Err::<Request, Error>(Error::ConnectionClosed)
    }
}

/// What is told of a replica that was brought in step.
#[derive(Debug, Clone, Copy, PartialEq, Eq, Structural)]
pub struct SyncResult {
    /// The frames that were copied.
    pub frames_synced: u64,
    /// The index of the last frame, or zero where there is none.
    pub replication_index: u64,
}

/// A step of loading an extension. Loading is switched on, the extension is
/// loaded, and loading is switched off again, whether the extension loaded
/// or not.
#[derive(Debug, Clone, PartialEq, Eq)]
pub enum ExtensionLoad {
    /// Loading is to be switched on.
    Enabling,
    /// The extension is to be loaded.
    Loading,
    /// Loading is to be switched off; the failure of the load is kept.
    Restoring { failure: Option<EngineError> },
    /// Nothing is left to do; the failure of the whole is kept.
    Finished { failure: Option<Error> },
}

/// What the caller is to do for a step of loading an extension.
#[derive(Debug, Clone, Copy, PartialEq, Eq, Structural)]
pub enum ExtensionAction {
    Enable,
    Load,
    Disable,
    Stop,
}

impl ExtensionLoad {
    /// The step after this one, given how the engine answered. A failure to
    /// switch loading on ends the whole with that failure. After the load,
    /// loading is switched off in any case; a failed load ends the whole
    /// with its own failure, whatever the switching off gave, and else the
    /// switching off decides.
    pub open spec fn follows(self, answer: Result<(), EngineError>, next: ExtensionLoad) -> bool {
        match self {
            ExtensionLoad::Enabling => match answer {
                Ok(_) => next is Loading,
                Err(e) => next is Finished && next->Finished_failure is Some
                    && next->Finished_failure->Some_0@ == engine_failure(e),
            },
            ExtensionLoad::Loading => match answer {
                Ok(_) => next == (ExtensionLoad::Restoring { failure: None }),
                Err(e) => next == (ExtensionLoad::Restoring { failure: Some(e) }),
            },
            ExtensionLoad::Restoring { failure: Some(e) } => next is Finished
                && next->Finished_failure is Some && next->Finished_failure->Some_0@
                == engine_failure(e),
            ExtensionLoad::Restoring { failure: None } => match answer {
                Ok(_) => next == (ExtensionLoad::Finished { failure: None }),
                Err(e) => next is Finished && next->Finished_failure is Some
                    && next->Finished_failure->Some_0@ == engine_failure(e),
            },
            ExtensionLoad::Finished { .. } => next == self,
        }
    }

    /// What the caller is to do now.
    pub fn action(&self) -> (action: ExtensionAction)
        ensures
            action == (match *self {
                ExtensionLoad::Enabling => ExtensionAction::Enable,
                ExtensionLoad::Loading => ExtensionAction::Load,
                ExtensionLoad::Restoring { .. } => ExtensionAction::Disable,
                ExtensionLoad::Finished { .. } => ExtensionAction::Stop,
            }),
    {
        match self {
            ExtensionLoad::Enabling => ExtensionAction::Enable,
            ExtensionLoad::Loading => ExtensionAction::Load,
            ExtensionLoad::Restoring { .. } => ExtensionAction::Disable,
            ExtensionLoad::Finished { .. } => ExtensionAction::Stop,
        }
    }

    /// Takes the engine's answer to the action of this step and gives the
    /// next step.
    pub fn advance(self, answer: Result<(), EngineError>) -> (next: ExtensionLoad)
        ensures
            self.follows(answer, next),
    {
        match self {
            ExtensionLoad::Enabling => match answer {
                Ok(_) => ExtensionLoad::Loading,
                Err(e) => ExtensionLoad::Finished { failure: Some(throw_libsql_error(e)) },
            },
            ExtensionLoad::Loading => match answer {
                Ok(_) => ExtensionLoad::Restoring { failure: None },
                Err(e) => ExtensionLoad::Restoring { failure: Some(e) },
            },
            ExtensionLoad::Restoring { failure: Some(e) } => ExtensionLoad::Finished {
                failure: Some(throw_libsql_error(e)),
            },
            ExtensionLoad::Restoring { failure: None } => match answer {
                Ok(_) => ExtensionLoad::Finished { failure: None },
                Err(e) => ExtensionLoad::Finished { failure: Some(throw_libsql_error(e)) },
            },
            ExtensionLoad::Finished { failure } => ExtensionLoad::Finished { failure },
        }
    }
}

/// What the rules of an authorizer hold: a table and a number for each.
pub open spec fn rules_view(rules: Seq<(String, i32)>) -> Seq<(Seq<char>, i32)> {
    rules.map_values(|r: (String, i32)| (r.0@, r.1))
}

/// The tables that the rules give the number `value`.
pub open spec fn tables_with(rules: Seq<(Seq<char>, i32)>, value: i32) -> Set<Seq<char>> {
    Set::new(
        |table: Seq<char>| exists|i: int| 0 <= i < rules.len() && #[trigger] rules[i] == (table, value),
    )
}

/// Whether a rule allows (0) or denies (1).
pub open spec fn rule_is_valid(rule: (Seq<char>, i32)) -> bool {
    rule.1 == 0 || rule.1 == 1
}

/// Whether the rule at place `k` is the first that neither allows nor denies,
/// and `e` is the failure that names it.
pub open spec fn refused_at(rules: Seq<(Seq<char>, i32)>, k: int, e: ErrorData) -> bool {
    &&& 0 <= k < rules.len()
    &&& !rule_is_valid(rules[k])
    &&& forall|j: int| 0 <= j < k ==> rule_is_valid(#[trigger] rules[j])
    &&& e == (ErrorData::InvalidRule { table: rules[k].0, value: rules[k].1 })
}

/// A database, as the binding sees it.
#[derive(Debug, Clone, PartialEq, Eq)]
pub struct Database {
    target: OpenTarget,
    busy_timeout: Option<u64>,
    open: bool,
    default_safe_integers: bool,
    memory: bool,
}

impl Database {
    /// What the engine is asked to open.
    pub closed spec fn spec_target(&self) -> TargetData {
        self.target@
    }

    /// The busy timeout in milliseconds that the connection is given.
    pub closed spec fn spec_busy_timeout(&self) -> Option<u64> {
        self.busy_timeout
    }

    /// Whether the database holds its connection.
    pub closed spec fn is_open(&self) -> bool {
        self.open
    }

    /// Whether statements are prepared with safe integers.
    pub closed spec fn spec_default_safe_integers(&self) -> bool {
        self.default_safe_integers
    }

    /// Whether the database lives in memory only.
    pub closed spec fn spec_memory(&self) -> bool {
        self.memory
    }

    /// The database with the same target and settings, open or closed as
    /// told.
    pub open spec fn same_but_open(&self, other: &Database, open: bool) -> bool {
        &&& other.spec_target() == self.spec_target()
        &&& other.spec_busy_timeout() == self.spec_busy_timeout()
        &&& other.spec_default_safe_integers() == self.spec_default_safe_integers()
        &&& other.spec_memory() == self.spec_memory()
        &&& other.is_open() == open
    }

    /// The handle of a database that is opened on `path` with `opts`. It
    /// names what the engine is to open and the busy timeout that the
    /// connection is to get. It is open, prepares without safe integers, and
    /// is in memory where the path is `:memory:`.
    pub fn new(path: String, opts: Option<Options>) -> (outcome: Result<Database, Error>)
        ensures
            match spec_open_target(path@, opts) {
                Some(target) => outcome is Ok && outcome->Ok_0.spec_target() == target
                    && outcome->Ok_0.spec_busy_timeout() == spec_busy_timeout(opts)
                    && outcome->Ok_0.is_open() && !outcome->Ok_0.spec_default_safe_integers()
                    && outcome->Ok_0.spec_memory() == (path@ == ":memory:"@),
                None => outcome is Err && outcome->Err_0@ == invalid_cipher(),
            },
    {
        let memory = path == String::from_str(":memory:");
        let remote = is_remote_path(path.as_str());
        let (timeout, auth_token, sync_url, read_your_writes, sync_period, cipher, key, remote_key) =
            match opts {
            Some(o) => (
                o.timeout,
                o.authToken,
                o.syncUrl,
                o.readYourWrites,
                o.syncPeriod,
                o.encryptionCipher,
                o.encryptionKey,
                o.remoteEncryptionKey,
            ),
            None => (None, None, None, None, None, None, None, None),
        };
        let busy_timeout = match timeout {
            Some(t) => timeout_for(t),
            None => None,
        };
        let target = if remote {
            OpenTarget::Remote {
                url: path,
                auth_token: text_or_empty(auth_token),
                remote_encryption_key: remote_key,
            }
        } else {
            match sync_url {
                Some(sync_url) => {
                    let cipher = match cipher {
                        Some(c) => c,
                        None => String::from_str("aes256cbc"),
                    };
                    if cipher_failure(cipher.as_str()).is_some() {
                        return Err(
                            Error::Sqlite {
                                message: String::from_str("Invalid encryption cipher"),
                                code: String::from_str("SQLITE_INVALID_ENCRYPTION_CIPHER"),
                                raw_code: 0,
                            },
                        );
                    }
                    let encryption = encryption_for(cipher, text_or_empty(key));
                    OpenTarget::Replica {
                        path,
                        sync_url,
                        auth_token: text_or_empty(auth_token),
                        read_your_writes: match read_your_writes {
                            Some(b) => b,
                            None => true,
                        },
                        encryption,
                        remote_encryption_key: remote_key,
                        sync_interval: match sync_period {
                            Some(period) => interval_for(period),
                            None => None,
                        },
                    }
                },
                None => OpenTarget::Local { path, encryption: None },
            }
        };
        Ok(Database { target, busy_timeout, open: true, default_safe_integers: false, memory })
    }

    /// The handle of a database that is opened on a path or URL, with the
    /// token, the cipher and key, and the busy timeout given one by one.
    pub fn js_open(
        path: String,
        auth_token: String,
        encryption_cipher: String,
        encryption_key: String,
        busy_timeout: u64,
    ) -> (outcome: Result<Database, Error>)
        ensures
            match spec_js_open_target(path@, auth_token@, encryption_cipher@, encryption_key@) {
                Some(target) => outcome is Ok && outcome->Ok_0.spec_target() == target
                    && outcome->Ok_0.spec_busy_timeout() == spec_timeout(busy_timeout)
                    && outcome->Ok_0.is_open() && !outcome->Ok_0.spec_default_safe_integers()
                    && outcome->Ok_0.spec_memory() == (path@ == ":memory:"@),
                None => outcome is Err && outcome->Err_0@ == unknown_cipher(),
            },
    {
        let memory = path == String::from_str(":memory:");
        let target = if is_remote_path(path.as_str()) {
            OpenTarget::Remote { url: path, auth_token, remote_encryption_key: None }
        } else {
            match cipher_failure(encryption_cipher.as_str()) {
                Some(code) => {
                    return Err(
                        throw_libsql_error(
                            EngineError::SqliteFailure { code, message: String::new() },
                        ),
                    );
                },
                None => OpenTarget::Local {
                    path,
                    encryption: encryption_for(encryption_cipher, encryption_key),
                },
            }
        };
        Ok(
            Database {
                target,
                busy_timeout: timeout_for(busy_timeout),
                open: true,
                default_safe_integers: false,
                memory,
            },
        )
    }

    /// The handle of a database in a local file that is kept in step with
    /// a remote one. It gets no busy timeout.
    pub fn js_open_with_sync(
        path: String,
        sync_url: String,
        sync_auth: String,
        encryption_cipher: String,
        encryption_key: String,
        sync_period: u64,
        read_your_writes: bool,
        offline: bool,
    ) -> (outcome: Result<Database, Error>)
        ensures
            match spec_js_open_with_sync_target(
                path@,
                sync_url@,
                sync_auth@,
                encryption_cipher@,
                encryption_key@,
                sync_period,
                read_your_writes,
                offline,
            ) {
                Some(target) => outcome is Ok && outcome->Ok_0.spec_target() == target
                    && outcome->Ok_0.spec_busy_timeout() is None && outcome->Ok_0.is_open()
                    && !outcome->Ok_0.spec_default_safe_integers() && outcome->Ok_0.spec_memory()
                    == (path@ == ":memory:"@),
                None => outcome is Err && outcome->Err_0@ == unknown_cipher(),
            },
    {
        let memory = path == String::from_str(":memory:");
        match cipher_failure(encryption_cipher.as_str()) {
            Some(code) => {
                return Err(
                    throw_libsql_error(EngineError::SqliteFailure { code, message: String::new() }),
                );
            },
            None => {},
        }
        let target = if offline {
            OpenTarget::Synced { path, sync_url, auth_token: sync_auth }
        } else {
            OpenTarget::Replica {
                path,
                sync_url,
                auth_token: sync_auth,
                read_your_writes,
                encryption: encryption_for(encryption_cipher, encryption_key),
                remote_encryption_key: None,
                sync_interval: interval_for(sync_period),
            }
        };
        Ok(Database { target, busy_timeout: None, open: true, default_safe_integers: false, memory })
    }

    /// What the engine is asked to open.
    pub fn target(&self) -> (target: &OpenTarget)
        ensures
            target@ == self.spec_target(),
    {
        &self.target
    }

    /// The busy timeout in milliseconds that the connection is given.
    pub fn busy_timeout(&self) -> (timeout: Option<u64>)
        ensures
            timeout == self.spec_busy_timeout(),
    {
        self.busy_timeout
    }

    /// Whether the database lives in memory only.
    pub fn memory(&self) -> (memory: bool)
        ensures
            memory == self.spec_memory(),
    {
        self.memory
    }

    /// Whether the database holds its connection, or fails as an operation
    /// on a closed connection does.
    pub fn connection(&self) -> (outcome: Result<(), Error>)
        ensures
            self.is_open() ==> outcome is Ok,
            !self.is_open() ==> outcome == Err::<(), Error>(Error::ConnectionClosed),
    {
        if self.open {
            Ok(())
        } else {
            Err(Error::ConnectionClosed)
        }
    }

    /// Whether a transaction is under way: never on a closed database, and
    /// on an open one where the connection is not in autocommit.
    pub fn in_transaction(&self, autocommit: bool) -> (active: bool)
        ensures
            active == (self.is_open() && !autocommit),
    {
        self.open && !autocommit
    }

    /// Asks for the statements of `sql` to be run.
    pub fn exec(&self, sql: String) -> (outcome: Result<Request, Error>)
        ensures
            admits(outcome, self.is_open(), Request::ExecuteBatch { sql }),
    {
        if self.open {
            Ok(Request::ExecuteBatch { sql })
        } else {
            Err(Error::ConnectionClosed)
        }
    }

    /// Asks for `sql` to be compiled.
    pub fn prepare(&self, sql: String) -> (outcome: Result<Request, Error>)
        ensures
            admits(outcome, self.is_open(), Request::Prepare { sql }),
    {
        if self.open {
            Ok(Request::Prepare { sql })
        } else {
            Err(Error::ConnectionClosed)
        }
    }

    /// Asks for what runs on the connection to be broken off.
    pub fn interrupt(&self) -> (outcome: Result<Request, Error>)
        ensures
            admits(outcome, self.is_open(), Request::Interrupt),
    {
        if self.open {
            Ok(Request::Interrupt)
        } else {
            Err(Error::ConnectionClosed)
        }
    }

    /// The statement for what the engine compiled. It starts with the
    /// database's setting for safe integers and with every other switch off.
    pub fn statement(&self, columns: Vec<Column>, parameter_names: Vec<Option<String>>) -> (stmt:
        Statement)
        ensures
            stmt.spec_columns() == columns@,
            stmt.spec_parameter_names() == names_view(parameter_names@),
            stmt.spec_mode() == (AccessMode {
                raw: false,
                pluck: false,
                safe_ints: self.spec_default_safe_integers(),
                timing: false,
            }),
    {
        Statement::new(
            columns,
            parameter_names,
            AccessMode {
                raw: false,
                pluck: false,
                safe_ints: self.default_safe_integers,
                timing: false,
            },
        )
    }

    /// Starts the loading of an extension.
    #[allow(non_snake_case)]
    pub fn loadExtension(&self) -> (outcome: Result<ExtensionLoad, Error>)
        ensures
            self.is_open() ==> outcome == Ok::<ExtensionLoad, Error>(ExtensionLoad::Enabling),
            !self.is_open() ==> outcome == Err::<ExtensionLoad, Error>(Error::ConnectionClosed),
    {
        if self.open {
            Ok(ExtensionLoad::Enabling)
        } else {
            Err(Error::ConnectionClosed)
        }
    }

    /// What is told of a replica that was brought in step, from the frames
    /// that the engine copied and the index of the last frame, if any.
    pub fn sync(&self, frames_synced: u64, frame_no: Option<u64>) -> (result: SyncResult)
        ensures
            result.frames_synced == frames_synced,
            result.replication_index == (match frame_no {
                Some(n) => n,
                None => 0,
            }),
    {
        SyncResult {
            frames_synced,
            replication_index: match frame_no {
                Some(n) => n,
                None => 0,
            },
        }
    }

    /// Closes the database: it lets go of its connection. Closing a closed
    /// database changes nothing.
    pub fn close(&mut self)
        ensures
            old(self).same_but_open(final(self), false),
    {
        self.open = false;
    }

    /// Sets whether statements are prepared with safe integers from now on;
    /// without an argument they are.
    #[allow(non_snake_case)]
    pub fn defaultSafeIntegers(&mut self, toggle: Option<bool>)
        ensures
            final(self).spec_target() == old(self).spec_target(),
            final(self).spec_busy_timeout() == old(self).spec_busy_timeout(),
            final(self).spec_memory() == old(self).spec_memory(),
            final(self).is_open() == old(self).is_open(),
            final(self).spec_default_safe_integers() == (match toggle {
                Some(b) => b,
                None => true,
            }),
    {
        self.default_safe_integers = match toggle {
            Some(b) => b,
            None => true,
        };
    }

    /// Builds the authorizer for a table of rules: 0 allows a table, 1
    /// denies it. The first rule with another number is refused.
    pub fn authorizer(&self, rules: &Vec<(String, i32)>) -> (outcome: Result<Authorizer, Error>)
        ensures
            match outcome {
                Ok(authorizer) => {
                    &&& self.is_open()
                    &&& forall|i: int|
                        0 <= i < rules@.len() ==> rule_is_valid(#[trigger] rules_view(rules@)[i])
                    &&& authorizer.allowed() == tables_with(rules_view(rules@), 0)
                    &&& authorizer.denied() == tables_with(rules_view(rules@), 1)
                },
                Err(e) => {
                    ||| !self.is_open() && e@ == ErrorData::ConnectionClosed
                    ||| self.is_open() && exists|k: int| refused_at(rules_view(rules@), k, e@)
                },
            },
    {
        if !self.open {
            return Err(Error::ConnectionClosed);
        }
        let ghost all = rules_view(rules@);
        let mut builder = AuthorizerBuilder::new();
        let mut idx: usize = 0;
        assert(tables_with(all.take(0), 0) =~= Set::<Seq<char>>::empty());
        assert(tables_with(all.take(0), 1) =~= Set::<Seq<char>>::empty());
        while idx < rules.len()
            invariant
                self.open,
                idx <= rules@.len(),
                all == rules_view(rules@),
                forall|i: int| 0 <= i < idx ==> rule_is_valid(#[trigger] all[i]),
                builder.allowed() == tables_with(all.take(idx as int), 0),
                builder.denied() == tables_with(all.take(idx as int), 1),
            decreases rules@.len() - idx,
        {
            let value: i32 = rules[idx].1;
            let ghost before = all.take(idx as int);
            let ghost after = all.take(idx + 1);
            proof {
                assert(after[idx as int] == all[idx as int]);
                assert forall|i: int| 0 <= i < idx implies #[trigger] after[i] == before[i] by {}
                assert forall|t: Seq<char>, v: i32|
                    tables_with(after, v).contains(t) <==> (tables_with(before, v).contains(t)
                        || all[idx as int] == (t, v)) by {
                    if tables_with(before, v).contains(t) {
                        let i = choose|i: int| 0 <= i < before.len() && before[i] == (t, v);
                        assert(after[i] == (t, v));
                    }
                    if all[idx as int] == (t, v) {
                        assert(after[idx as int] == (t, v));
                    }
                    if tables_with(after, v).contains(t) {
                        let i = choose|i: int| 0 <= i < after.len() && after[i] == (t, v);
                        if i < idx {
                            assert(before[i] == (t, v));
                        }
                    }
                }
            }
            if value == 0 {
                builder.allow(rules[idx].0.as_str());
                assert(builder.allowed() =~= tables_with(after, 0));
                assert(builder.denied() =~= tables_with(after, 1));
            } else if value == 1 {
                builder.deny(rules[idx].0.as_str());
                assert(builder.allowed() =~= tables_with(after, 0));
                assert(builder.denied() =~= tables_with(after, 1));
            } else {
                let e = Error::InvalidRule { table: rules[idx].0.clone(), value };
                assert(refused_at(rules_view(rules@), idx as int, e@));
                return Err(e);
            }
            idx = idx + 1;
        }
        assert(all.take(idx as int) =~= all);
        Ok(builder.build())
    }
}

/// A closed database refuses what needs its connection: after `close`, the
/// outcome of such an operation is the failure of a closed connection.
pub proof fn lemma_closed_database_refuses(
    before: Database,
    closed: Database,
    outcome: Result<Request, Error>,
    request: Request,
)
    requires
        before.same_but_open(&closed, false),
        admits(outcome, closed.is_open(), request),
    ensures
        outcome == Err::<Request, Error>(Error::ConnectionClosed),
{
}

/// Closing twice is closing once: the second `close` changes nothing.
pub proof fn lemma_close_is_idempotent(before: Database, once: Database, twice: Database)
    requires
        before.same_but_open(&once, false),
        once.same_but_open(&twice, false),
    ensures
        once.same_but_open(&twice, once.is_open()),
        before.same_but_open(&twice, false),
{
}

} // verus!
