//! WiFi credentials and their validation.
use vstd::prelude::*;
use vstd::string::StrSliceExecFns;

verus! {

pub const MIN_SSID_LEN: usize = 1;
pub const MAX_SSID_LEN: usize = 32;
pub const MIN_PASSWORD_LEN: usize = 8;
pub const MAX_PASSWORD_LEN: usize = 64;

/// Why a pair of credentials was refused.
#[derive(Clone, Copy, Debug, PartialEq, Eq, Structural)]
pub enum CredentialsError {
    /// The SSID is empty or longer than `MAX_SSID_LEN` bytes.
    SsidLength,
    /// The password is shorter than `MIN_PASSWORD_LEN` or longer than `MAX_PASSWORD_LEN` bytes.
    PasswordLength,
    /// The SSID holds control characters.
    SsidCharacters,
}

impl CredentialsError {
    pub fn message(&self) -> (m: &'static str)
        ensures
            m == match self {
                CredentialsError::SsidLength => "SSID must be 1-32 bytes",
                CredentialsError::PasswordLength => "Password must be 8-64 bytes",
                CredentialsError::SsidCharacters => "SSID contains invalid characters",
            },
    {
        match self {
            CredentialsError::SsidLength => "SSID must be 1-32 bytes",
            CredentialsError::PasswordLength => "Password must be 8-64 bytes",
            CredentialsError::SsidCharacters => "SSID contains invalid characters",
        }
    }
}

/// A control character (Unicode general category Cc).
pub open spec fn is_control(c: char) -> bool {
    (c as u32) <= 0x1F || (0x7F <= (c as u32) && (c as u32) <= 0x9F)
}

pub open spec fn byte_len(s: Seq<char>) -> int {
    vstd::utf8::encode_utf8(s).len() as int
}

pub open spec fn validate_spec(ssid: Seq<char>, password: Seq<char>) -> Result<(), CredentialsError> {
    if ssid.len() == 0 || byte_len(ssid) > MAX_SSID_LEN {
        Err(CredentialsError::SsidLength)
    } else if byte_len(password) < MIN_PASSWORD_LEN || byte_len(password) > MAX_PASSWORD_LEN {
        Err(CredentialsError::PasswordLength)
    } else if !vstd::utf8::is_ascii_chars(ssid) && exists|i: int| 0 <= i < ssid.len() && is_control(ssid[i]) {
        Err(CredentialsError::SsidCharacters)
    } else {
        Ok(())
    }
}

/// Network name and password for joining a WiFi network.
#[derive(Debug)]
pub struct WiFiCredentials {
    pub ssid: String,
    pub password: String,
}

fn has_control(s: &str) -> (r: bool)
    ensures
        r == exists|i: int| 0 <= i < s@.len() && is_control(s@[i]),
{
    let n = s.unicode_len();
    let mut i: usize = 0;
    while i < n
        invariant
            n == s@.len(),
            i <= n,
            forall|j: int| 0 <= j < i ==> !is_control(s@[j]),
        decreases n - i,
    {
        let c = s.get_char(i);
        let v = c as u32;
        if v <= 0x1F || (0x7F <= v && v <= 0x9F) {
            return true;
        }
        i += 1;
    }
    false
}

impl WiFiCredentials {
    /// Credentials that pass `validate`.
    pub fn new(ssid: String, password: String) -> (r: Result<WiFiCredentials, CredentialsError>)
        ensures
            r is Ok <==> validate_spec(ssid@, password@) is Ok,
            r is Ok ==> r->Ok_0.ssid@ == ssid@ && r->Ok_0.password@ == password@,
            r is Err ==> validate_spec(ssid@, password@) == Err::<(), CredentialsError>(r->Err_0),
    {
        let creds = WiFiCredentials { ssid, password };
        match creds.validate() {
            Ok(()) => Ok(creds),
            Err(e) => Err(e),
        }
    }

    /// Checks the lengths (in bytes) of SSID and password, and that a non-ASCII
    /// SSID holds no control characters.
    pub fn validate(&self) -> (r: Result<(), CredentialsError>)
        ensures
            r == validate_spec(self.ssid@, self.password@),
    {
        let ssid = self.ssid.as_str();
        let password = self.password.as_str();
        let ssid_len = ssid.as_bytes().len();
        let password_len = password.as_bytes().len();
        if ssid.is_empty() || ssid_len > MAX_SSID_LEN {
            return Err(CredentialsError::SsidLength);
        }
        if password_len < MIN_PASSWORD_LEN || password_len > MAX_PASSWORD_LEN {
            return Err(CredentialsError::PasswordLength);
        }
        if !ssid.is_ascii() && has_control(ssid) {
            return Err(CredentialsError::SsidCharacters);
        }
        Ok(())
    }
}

} // verus!
