use vstd::prelude::*;
use sha2::Digest;
use crate::hardware::HardwareInfo;
use crate::text::contains;
use crate::token::{get_token_expiry, should_refresh, token_expiry, needs_refresh};

verus! {

/// Failures of the fleet-management protocol and of credential handling.
#[derive(Debug, Clone)]
pub enum DeviceError {
    InitError(String),
    VerifyError(String),
    CodeExpired,
    DeviceDisabled,
    NetworkError(String),
    HeartbeatError(String),
    RefreshError(String),
    TokenParseError(String),
}

/// The text an error carries, empty for the variants that carry none.
pub open spec fn error_detail(e: DeviceError) -> Seq<char> {
    match e {
        DeviceError::InitError(m) => m@,
        DeviceError::VerifyError(m) => m@,
        DeviceError::NetworkError(m) => m@,
        DeviceError::HeartbeatError(m) => m@,
        DeviceError::RefreshError(m) => m@,
        DeviceError::TokenParseError(m) => m@,
        _ => Seq::<char>::empty(),
    }
}

impl DeviceError {
    /// Whether the error reports an HTTP 401 (the access token was refused).
    pub fn is_unauthorized(&self) -> (r: bool)
        ensures
            r == contains(error_detail(*self), "401"@),
    {
        proof {
            reveal_strlit("401");
        }
        match self {
            DeviceError::InitError(m) => crate::text::contains_str(m.as_str(), "401"),
            DeviceError::VerifyError(m) => crate::text::contains_str(m.as_str(), "401"),
            DeviceError::NetworkError(m) => crate::text::contains_str(m.as_str(), "401"),
            DeviceError::HeartbeatError(m) => crate::text::contains_str(m.as_str(), "401"),
            DeviceError::RefreshError(m) => crate::text::contains_str(m.as_str(), "401"),
            DeviceError::TokenParseError(m) => crate::text::contains_str(m.as_str(), "401"),
            _ => {
                assert forall|i: int| !crate::text::occurs_at(Seq::<char>::empty(), "401"@, i) by {}
                false
            },
        }
    }
}

#[derive(Debug, Clone)]
pub struct GpuInfo {
    pub model: String,
    pub memory: u64,
    pub cuda_version: String,
}

#[derive(Debug, Clone)]
pub struct DeviceInfo {
    pub cpu_serial: String,
    pub gpu_uuid: Option<String>,
    pub system_fingerprint: String,
    pub installation_hash: String,
}

#[derive(Debug, Clone)]
pub struct DeviceInitRequest {
    pub device_fingerprint: String,
    pub gpu_info: GpuInfo,
    pub hardware_info: HardwareInfo,
    pub installation_hash: String,
}

#[derive(Debug, Clone)]
pub struct DeviceInitResponse {
    pub device_code: String,
    pub verification_uri: String,
    pub user_code: String,
    pub expires_at: String,
}

/// The backend's answer to a successful verification; `node_id` is the
/// hyphenated text of the node's UUID.
#[derive(Debug, Clone)]
pub struct DeviceVerifyResponse {
    pub node_id: String,
    pub access_token: String,
    pub refresh_token: String,
}

#[derive(Debug, Clone)]
pub struct DeviceMetrics {
    pub gpu_utilization: u8,
    pub gpu_memory_used: u64,
    pub gpu_temperature: u8,
    pub timestamp: String,
}

#[derive(Debug, Clone)]
pub struct DeviceHeartbeatRequest {
    pub node_id: String,
    pub metrics: DeviceMetrics,
}

#[derive(Debug, Clone)]
pub struct DeviceHeartbeatResponse {
    pub status: String,
    pub message: String,
}

#[derive(Debug, Clone)]
pub struct DeviceRefreshResponse {
    pub access_token: String,
}

/// The lowercase hex SHA-256 digest of the UTF-8 bytes of `s`.
pub uninterp spec fn sha256_hex_of(s: Seq<char>) -> Seq<char>;

/// Relies on sha2's `Sha256::digest` over the UTF-8 bytes of `s`, printed as
/// lowercase hex: 32 bytes, two digits each.
#[verifier::external_body]
fn sha256_hex(s: &str) -> (r: String)
    ensures
        r@ == sha256_hex_of(s@),
        r@.len() == 64,
{
    format!("{:x}", sha2::Sha256::digest(s.as_bytes()))
}

#[verifier::external_type_specification]
#[verifier::external_body]
pub struct ExSystemTime(std::time::SystemTime);

/// Relies on std's `SystemTime::now`: the current wall-clock time.
#[verifier::external_body]
fn system_now() -> (r: std::time::SystemTime) {
    std::time::SystemTime::now()
}

/// Relies on std's `SystemTime::duration_since(UNIX_EPOCH)`: whole seconds
/// since the Unix epoch, none for a time before it.
#[verifier::external_body]
fn seconds_since_epoch(t: &std::time::SystemTime) -> (r: Option<u64>) {
    t.duration_since(std::time::UNIX_EPOCH).ok().map(|d| d.as_secs())
}

/// The text hashed into a device fingerprint:
/// `cpu_serial:gpu_uuid:system_fingerprint:installation_hash`, with
/// `unknown` for a missing GPU UUID.
pub open spec fn fingerprint_input(info: DeviceInfo) -> Seq<char> {
    let gpu = match info.gpu_uuid {
        Some(u) => u@,
        None => "unknown"@,
    };
    info.cpu_serial@ + ":"@ + gpu + ":"@ + info.system_fingerprint@ + ":"@ + info.installation_hash@
}

/// Whether an HTTP status is a success (2xx).
pub open spec fn is_success(code: u16) -> bool {
    200 <= code <= 299
}

/// Protocol logic of the fleet-management API, for one backend base URL.
#[derive(Debug, Clone)]
pub struct DeviceManager {
    base_url: String,
}

impl DeviceManager {
    pub closed spec fn spec_base_url(&self) -> Seq<char> {
        self.base_url@
    }

    pub fn new(base_url: String) -> (r: DeviceManager)
        ensures
            r.spec_base_url() == base_url@,
    {
        DeviceManager { base_url }
    }

    /// `POST {base}/api/nodes/init`.
    pub fn init_url(&self) -> (r: String)
        ensures
            r@ == self.spec_base_url() + "/api/nodes/init"@,
    {
        self.base_url.clone().concat("/api/nodes/init")
    }

    /// `GET {base}/api/nodes/verify/{user_code}`.
    pub fn verify_url(&self, user_code: &str) -> (r: String)
        ensures
            r@ == self.spec_base_url() + "/api/nodes/verify/"@ + user_code@,
    {
        self.base_url.clone().concat("/api/nodes/verify/").concat(user_code)
    }

    /// `POST {base}/api/nodes/device/heartbeat`.
    pub fn heartbeat_url(&self) -> (r: String)
        ensures
            r@ == self.spec_base_url() + "/api/nodes/device/heartbeat"@,
    {
        self.base_url.clone().concat("/api/nodes/device/heartbeat")
    }

    /// `POST {base}/api/nodes/device/refresh`.
    pub fn refresh_url(&self) -> (r: String)
        ensures
            r@ == self.spec_base_url() + "/api/nodes/device/refresh"@,
    {
        self.base_url.clone().concat("/api/nodes/device/refresh")
    }

    /// The `Authorization` header value for a token.
    pub fn bearer(token: &str) -> (r: String)
        ensures
            r@ == "Bearer "@ + token@,
    {
        String::from_str("Bearer ").concat(token)
    }

    /// The installation hash sent at registration.
    pub fn generate_installation_hash(&self) -> (r: String)
        ensures
            r@ == "dummy_installation_hash_2024"@,
    {
        String::from_str("dummy_installation_hash_2024")
    }

    /// The device fingerprint: the SHA-256 hex digest of the fingerprint input.
    pub fn generate_device_fingerprint(&self, info: &DeviceInfo) -> (r: String)
        ensures
            r@ == sha256_hex_of(fingerprint_input(*info)),
    {
        let gpu = match &info.gpu_uuid {
            Some(u) => u.clone(),
            None => String::from_str("unknown"),
        };
        let combined = info.cpu_serial.clone().concat(":").concat(gpu.as_str()).concat(":").concat(
            info.system_fingerprint.as_str(),
        ).concat(":").concat(info.installation_hash.as_str());
        assert(combined@ == fingerprint_input(*info));
        sha256_hex(combined.as_str())
    }

    /// The body of the device-init request.
    pub fn init_request(&self, device_info: DeviceInfo, gpu_info: GpuInfo, hardware_info: HardwareInfo) -> (r:
        DeviceInitRequest)
        ensures
            r.device_fingerprint@ == sha256_hex_of(fingerprint_input(device_info)),
            r.gpu_info == gpu_info,
            r.hardware_info == hardware_info,
            r.installation_hash == device_info.installation_hash,
    {
        let fingerprint = self.generate_device_fingerprint(&device_info);
        DeviceInitRequest {
            device_fingerprint: fingerprint,
            gpu_info,
            hardware_info,
            installation_hash: device_info.installation_hash,
        }
    }

    /// The result of the device-init call from its HTTP status and parsed body.
    pub fn init_outcome(code: u16, status_line: &str, body: Result<DeviceInitResponse, String>) -> (r: Result<
        DeviceInitResponse,
        DeviceError,
    >)
        ensures
            !is_success(code) ==> r matches Err(DeviceError::InitError(_)),
            is_success(code) ==> match body {
                Ok(b) => r == Ok::<DeviceInitResponse, DeviceError>(b),
                Err(_) => r matches Err(DeviceError::InitError(_)),
            },
    {
        if !(200 <= code && code <= 299) {
            return Err(DeviceError::InitError(String::from_str("Device initialization failed: ").concat(status_line)));
        }
        match body {
            Ok(b) => Ok(b),
            Err(e) => Err(DeviceError::InitError(e)),
        }
    }

    /// The result of the verify call: 200 with a parsed body succeeds, 410 is
    /// an expired code, 403 a disabled device, anything else a verify error.
    pub fn verify_outcome(code: u16, status_line: &str, body: Result<DeviceVerifyResponse, String>) -> (r: Result<
        DeviceVerifyResponse,
        DeviceError,
    >)
        ensures
            code == 200 ==> match body {
                Ok(b) => r == Ok::<DeviceVerifyResponse, DeviceError>(b),
                Err(_) => r matches Err(DeviceError::VerifyError(_)),
            },
            code == 410 ==> r matches Err(DeviceError::CodeExpired),
            code == 403 ==> r matches Err(DeviceError::DeviceDisabled),
            code != 200 && code != 410 && code != 403 ==> r matches Err(DeviceError::VerifyError(_)),
    {
        if code == 200 {
            match body {
                Ok(b) => Ok(b),
                Err(e) => Err(DeviceError::VerifyError(e)),
            }
        } else if code == 410 {
            Err(DeviceError::CodeExpired)
        } else if code == 403 {
            Err(DeviceError::DeviceDisabled)
        } else {
            Err(DeviceError::VerifyError(String::from_str("Device verification failed: ").concat(status_line)))
        }
    }

    /// The body of a heartbeat.
    pub fn heartbeat_request(node_id: &str, metrics: DeviceMetrics) -> (r: DeviceHeartbeatRequest)
        ensures
            r.node_id@ == node_id@,
            r.metrics == metrics,
    {
        DeviceHeartbeatRequest { node_id: String::from_str(node_id), metrics }
    }

    /// The result of the heartbeat call; a refused status reads `HTTP {status}`.
    pub fn heartbeat_outcome(code: u16, status_line: &str, body: Result<DeviceHeartbeatResponse, String>) -> (r:
        Result<DeviceHeartbeatResponse, DeviceError>)
        ensures
            !is_success(code) ==> (r matches Err(DeviceError::HeartbeatError(m)) && m@ == "HTTP "@ + status_line@),
            is_success(code) ==> match body {
                Ok(b) => r == Ok::<DeviceHeartbeatResponse, DeviceError>(b),
                Err(_) => r matches Err(DeviceError::HeartbeatError(_)),
            },
    {
        if !(200 <= code && code <= 299) {
            return Err(DeviceError::HeartbeatError(String::from_str("HTTP ").concat(status_line)));
        }
        match body {
            Ok(b) => Ok(b),
            Err(e) => Err(DeviceError::HeartbeatError(String::from_str("failed to parse response: ").concat(e.as_str()))),
        }
    }

    /// The result of the token-refresh call.
    pub fn refresh_outcome(code: u16, status_line: &str, body: Result<DeviceRefreshResponse, String>) -> (r: Result<
        DeviceRefreshResponse,
        DeviceError,
    >)
        ensures
            !is_success(code) ==> r matches Err(DeviceError::RefreshError(_)),
            is_success(code) ==> match body {
                Ok(b) => r == Ok::<DeviceRefreshResponse, DeviceError>(b),
                Err(_) => r matches Err(DeviceError::RefreshError(_)),
            },
    {
        if !(200 <= code && code <= 299) {
            return Err(DeviceError::RefreshError(String::from_str("token refresh failed: ").concat(status_line)));
        }
        match body {
            Ok(b) => Ok(b),
            Err(e) => Err(DeviceError::RefreshError(e)),
        }
    }

    /// Whether `token` expires within `threshold_seconds` of the current time.
    /// A token whose expiry cannot be read is a `TokenParseError`.
    pub fn should_refresh_token(&self, token: &str, threshold_seconds: u64) -> (r: Result<bool, DeviceError>)
        ensures
            token_expiry(token@) is None ==> r matches Err(DeviceError::TokenParseError(_)),
            r is Ok ==> token_expiry(token@) is Some,
            r matches Ok(b) ==> exists|now: u64| b == needs_refresh(token_expiry(token@)->0, now, threshold_seconds),
    {
        let now = system_now();
        match seconds_since_epoch(&now) {
            Some(now) => should_refresh(token, threshold_seconds, now),
            None => Err(DeviceError::TokenParseError(String::from_str("system clock is before the Unix epoch"))),
        }
    }

    /// The expiry claim of `token`.
    pub fn get_token_expiry(&self, token: &str) -> (r: Result<u64, DeviceError>)
        ensures
            match token_expiry(token@) {
                Some(exp) => r == Ok::<u64, DeviceError>(exp),
                None => r matches Err(DeviceError::TokenParseError(_)),
            },
    {
        get_token_expiry(token)
    }
}

} // verus!
