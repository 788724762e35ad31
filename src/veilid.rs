//! State and decisions of the overlay client: attachment, the update
//! stream, attach retries, the protected store's password, and the retry of
//! a read on a record that is not open.
use vstd::prelude::*;
use vstd::string::*;
use crate::error::{Result, RoseliteError, VeilidError};
use crate::text::{chars_of, contains, occurs_at};

verus! {

/// The client's peering state.
#[derive(Debug, Clone, Copy, PartialEq, Eq, Structural)]
pub enum AttachmentState {
    Detached,
    Detaching,
    Attaching,
    AttachedWeak,
    AttachedGood,
    AttachedStrong,
    FullyAttached,
    OverAttached,
}

impl AttachmentState {
    /// Attached at least weakly: operations may proceed.
    pub open spec fn attached(self) -> bool {
        match self {
            AttachmentState::AttachedWeak | AttachmentState::AttachedGood | AttachmentState::AttachedStrong
            | AttachmentState::FullyAttached | AttachmentState::OverAttached => true,
            _ => false,
        }
    }

    /// Whether the state is at least `AttachedWeak`.
    pub fn is_attached(&self) -> (r: bool)
        ensures
            r == self.attached(),
    {
        match self {
            AttachmentState::AttachedWeak | AttachmentState::AttachedGood | AttachmentState::AttachedStrong
            | AttachmentState::FullyAttached | AttachmentState::OverAttached => true,
            _ => false,
        }
    }
}

/// What the client knows of its connection.
#[derive(Debug)]
pub struct ConnectionState {
    pub is_connected: bool,
    pub attachment_state: AttachmentState,
    pub network_started: bool,
    pub use_fallback_storage: bool,
    pub node_id: Option<String>,
}

impl Default for ConnectionState {
    fn default() -> (r: ConnectionState)
        ensures
            !r.is_connected,
            r.attachment_state == AttachmentState::Detached,
            !r.network_started,
            !r.use_fallback_storage,
            r.node_id is None,
    {
        ConnectionState {
            is_connected: false,
            attachment_state: AttachmentState::Detached,
            network_started: false,
            use_fallback_storage: false,
            node_id: None,
        }
    }
}

/// An update from the overlay, as far as the client's state goes.
#[derive(Debug, Clone, Copy, PartialEq, Eq, Structural)]
pub enum StateUpdate {
    /// The attachment state changed.
    Attachment(AttachmentState),
    /// The network started or stopped.
    Network { started: bool },
    /// The overlay is shutting down.
    Shutdown,
    /// A log, config, route, value, message or call update: only observed.
    Observed,
}

impl ConnectionState {
    /// Applies one update: attachment and network updates set their field,
    /// shutdown marks the client detached and stopped, the others change
    /// nothing.
    pub fn apply(&mut self, update: StateUpdate)
        ensures
            match update {
                StateUpdate::Attachment(a) => final(self).attachment_state == a && final(self).is_connected
                    == old(self).is_connected && final(self).network_started == old(self).network_started,
                StateUpdate::Network { started } => final(self).network_started == started
                    && final(self).attachment_state == old(self).attachment_state && final(self).is_connected
                    == old(self).is_connected,
                StateUpdate::Shutdown => !final(self).is_connected && !final(self).network_started
                    && final(self).attachment_state == AttachmentState::Detached,
                StateUpdate::Observed => final(self).is_connected == old(self).is_connected
                    && final(self).network_started == old(self).network_started && final(self).attachment_state
                    == old(self).attachment_state,
            },
            final(self).use_fallback_storage == old(self).use_fallback_storage,
            final(self).node_id == old(self).node_id,
    {
        match update {
            StateUpdate::Attachment(a) => {
                self.attachment_state = a;
            },
            StateUpdate::Network { started } => {
                self.network_started = started;
            },
            StateUpdate::Shutdown => {
                self.is_connected = false;
                self.network_started = false;
                self.attachment_state = AttachmentState::Detached;
            },
            StateUpdate::Observed => {},
        }
    }

    /// Connecting has begun: the client is attaching.
    pub fn begin_connect(&mut self)
        ensures
            final(self).attachment_state == AttachmentState::Attaching,
            final(self).is_connected == old(self).is_connected,
            final(self).network_started == old(self).network_started,
            final(self).node_id == old(self).node_id,
    {
        self.attachment_state = AttachmentState::Attaching;
    }

    /// Connecting has succeeded, with the node's identifier.
    pub fn finish_connect(&mut self, node_id: String)
        ensures
            final(self).is_connected,
            final(self).network_started,
            final(self).node_id == Some(node_id),
            final(self).attachment_state == old(self).attachment_state,
    {
        self.is_connected = true;
        self.network_started = true;
        self.node_id = Some(node_id);
    }
}

/// Longest wait for attachment, in milliseconds.
pub const ATTACH_TIMEOUT_MS: u64 = 30_000;

/// Pause between two looks at the attachment state, in milliseconds.
pub const ATTACH_POLL_MS: u64 = 250;

/// What waiting for attachment does next.
#[derive(Debug, Clone, Copy, PartialEq, Eq, Structural)]
pub enum WaitStep {
    /// Attached: go on.
    Ready,
    /// Fail with `ConnectionFailed`.
    Fail,
    /// Look again after `ATTACH_POLL_MS`.
    Poll,
}

/// The decision of a wait for attachment, given the state and the time
/// waited so far: go on once attached; fail when detached or detaching,
/// or after more than `timeout_ms` of attaching; else look again.
pub fn wait_step(state: AttachmentState, elapsed_ms: u64, timeout_ms: u64) -> (r: WaitStep)
    ensures
        state.attached() ==> r == WaitStep::Ready,
        (state == AttachmentState::Detached || state == AttachmentState::Detaching) ==> r == WaitStep::Fail,
        state == AttachmentState::Attaching ==> r == (if elapsed_ms > timeout_ms {
            WaitStep::Fail
        } else {
            WaitStep::Poll
        }),
{
    match state {
        AttachmentState::Detached | AttachmentState::Detaching => WaitStep::Fail,
        AttachmentState::Attaching => if elapsed_ms > timeout_ms {
            WaitStep::Fail
        } else {
            WaitStep::Poll
        },
        _ => WaitStep::Ready,
    }
}

/// The error of a failed wait for attachment.
pub fn connection_failed() -> (e: RoseliteError)
    ensures
        e == RoseliteError::Veilid(VeilidError::ConnectionFailed),
{
    RoseliteError::Veilid(VeilidError::ConnectionFailed)
}

/// Attempts at attaching before giving up.
pub const MAX_ATTACH_ATTEMPTS: u32 = 3;

/// Pause between two attempts at attaching, in milliseconds.
pub const ATTACH_RETRY_DELAY_MS: u64 = 2000;

/// What follows an attempt at attaching.
#[derive(Debug, Clone, Copy, PartialEq, Eq, Structural)]
pub enum AttachStep {
    /// Attached.
    Done,
    /// Try again after `ATTACH_RETRY_DELAY_MS`.
    Retry,
    /// Give up with `ConnectionFailed`.
    GiveUp,
}

/// The decision after attempt number `attempt` (from 1) at attaching:
/// done where it succeeded; else retry, up to `MAX_ATTACH_ATTEMPTS`
/// attempts in all.
pub fn attach_step(attempt: u32, succeeded: bool) -> (r: AttachStep)
    ensures
        succeeded ==> r == AttachStep::Done,
        !succeeded ==> r == (if attempt < MAX_ATTACH_ATTEMPTS {
            AttachStep::Retry
        } else {
            AttachStep::GiveUp
        }),
{
    if succeeded {
        AttachStep::Done
    } else if attempt < MAX_ATTACH_ATTEMPTS {
        AttachStep::Retry
    } else {
        AttachStep::GiveUp
    }
}

/// The text of the overlay's error on a read from a record that is not
/// open.
pub open spec fn not_open_text() -> Seq<char> {
    "record not open"@
}

/// Whether a failed read should open the record and read once more: the
/// overlay's error says the record is not open.
pub fn should_open_and_retry(error_text: &str) -> (r: bool)
    ensures
        r == exists|i: int| occurs_at(error_text@, not_open_text(), i),
{
    let t = chars_of(error_text);
    let p = chars_of("record not open");
    assert(p@ == not_open_text() && t@ == error_text@);
    contains(t.as_slice(), p.as_slice())
}

/// Settings of the overlay's protected key store.
#[derive(Debug)]
pub struct ProtectedStoreSettings {
    /// Keys are stored without a password.
    pub insecure: bool,
    /// The password that unlocks the device encryption key.
    pub password: String,
}

/// The password used where the store is insecure.
pub open spec fn fallback_password() -> Seq<char> {
    "roselite-dev"@
}

/// The protected store's settings for a password: an empty password
/// selects insecure storage under a fixed password.
pub fn protected_store_settings(password: &str) -> (r: ProtectedStoreSettings)
    ensures
        r.insecure == (password@.len() == 0),
        r.password@ == if password@.len() == 0 {
            fallback_password()
        } else {
            password@
        },
{
    if password.unicode_len() == 0 {
        ProtectedStoreSettings { insecure: true, password: String::from_str("roselite-dev") }
    } else {
        ProtectedStoreSettings { insecure: false, password: String::from_str(password) }
    }
}

/// Detailed network state information.
#[derive(Debug)]
pub struct NetworkStateInfo {
    pub mode: String,
    pub attachment: AttachmentState,
    pub node_id: Option<String>,
    pub peer_count: usize,
    pub network_started: bool,
    pub routes_count: usize,
}

impl NetworkStateInfo {
    /// The report of a client without a running overlay.
    pub fn fallback(state: &ConnectionState) -> (r: NetworkStateInfo)
        ensures
            r.mode@ == "Fallback Storage"@,
            r.attachment == state.attachment_state,
            r.node_id == state.node_id,
            r.peer_count == 0,
            !r.network_started,
            r.routes_count == 0,
    {
        NetworkStateInfo {
            mode: String::from_str("Fallback Storage"),
            attachment: state.attachment_state,
            node_id: state.node_id.clone(),
            peer_count: 0,
            network_started: false,
            routes_count: 0,
        }
    }
}

/// Network settings of the client.
#[derive(Debug)]
pub struct NetworkConfig {
    pub connection_timeout_ms: u64,
    pub max_connections: u32,
    pub enable_upnp: bool,
    pub enable_nat_detection: bool,
    pub udp_listen_address: Option<String>,
    pub tcp_listen_address: Option<String>,
    pub ws_listen_address: Option<String>,
}

impl Default for NetworkConfig {
    fn default() -> (r: NetworkConfig)
        ensures
            r.connection_timeout_ms == 10000,
            r.max_connections == 64,
            r.enable_upnp,
            r.enable_nat_detection,
            r.udp_listen_address is None,
            r.tcp_listen_address is None,
            r.ws_listen_address is None,
    {
        NetworkConfig {
            connection_timeout_ms: 10000,
            max_connections: 64,
            enable_upnp: true,
            enable_nat_detection: true,
            udp_listen_address: None,
            tcp_listen_address: None,
            ws_listen_address: None,
        }
    }
}

/// Storage settings of the client.
#[derive(Debug)]
pub struct StorageConfig {
    pub data_directory: Option<String>,
    pub enable_encryption: bool,
    pub max_storage_mb: u64,
    pub cleanup_old_data: bool,
}

impl Default for StorageConfig {
    fn default() -> (r: StorageConfig)
        ensures
            r.data_directory matches Some(d) && d@ == ".roselite"@,
            r.enable_encryption,
            r.max_storage_mb == 1024,
            r.cleanup_old_data,
    {
        StorageConfig {
            data_directory: Some(String::from_str(".roselite")),
            enable_encryption: true,
            max_storage_mb: 1024,
            cleanup_old_data: true,
        }
    }
}

/// Settings of the client.
#[derive(Debug)]
pub struct VeilidConfig {
    pub program_name: String,
    pub namespace: String,
    pub table_name: String,
    pub use_fallback_storage: bool,
    pub network: NetworkConfig,
    pub storage: StorageConfig,
    pub development_mode: bool,
}

impl Default for VeilidConfig {
    fn default() -> (r: VeilidConfig)
        ensures
            r.program_name@ == "roselite"@,
            r.namespace@ == "roselite"@,
            r.table_name@ == "roselite_sites"@,
            !r.use_fallback_storage,
            r.network.connection_timeout_ms == 10000,
            r.storage.max_storage_mb == 1024,
            r.development_mode,
    {
        VeilidConfig {
            program_name: String::from_str("roselite"),
            namespace: String::from_str("roselite"),
            table_name: String::from_str("roselite_sites"),
            use_fallback_storage: false,
            network: NetworkConfig::default(),
            storage: StorageConfig::default(),
            development_mode: true,
        }
    }
}

} // verus!
