//! What the network collaborator reports about the WiFi link.
use vstd::prelude::*;
use vstd::string::StrSliceExecFns;

verus! {

/// One network seen by a scan.
#[derive(Debug)]
pub struct WifiScanResult {
    pub ssid: String,
    pub rssi: i8,
    pub auth: String,
}

/// State of the station link: connected only with a real address.
#[derive(Debug)]
pub struct WifiStatus {
    pub connected: bool,
    pub ip: Option<String>,
}

/// Whether `ip` is the unspecified address `0.0.0.0`.
pub fn is_unspecified(ip: &str) -> (r: bool)
    ensures
        r == (ip@ == "0.0.0.0"@),
{
    proof {
        reveal_strlit("0.0.0.0");
    }
    let n = ip.unicode_len();
    if n != 7 {
        return false;
    }
    let mut i: usize = 0;
    while i < 7
        invariant
            n == ip@.len(),
            n == 7,
            i <= 7,
            "0.0.0.0"@.len() == 7,
            forall|j: int| 0 <= j < i ==> ip@[j] == "0.0.0.0"@[j],
        decreases 7 - i,
    {
        let c = ip.get_char(i);
        let want = if i % 2 == 0 { '0' } else { '.' };
        proof {
            reveal_strlit("0.0.0.0");
        }
        assert(want == "0.0.0.0"@[i as int]);
        if c != want {
            return false;
        }
        i += 1;
    }
    assert(ip@ =~= "0.0.0.0"@);
    true
}

impl WifiStatus {
    /// The status for a link state and the station's address: the address is
    /// kept only while connected and when it is not `0.0.0.0`, and the link
    /// counts as connected exactly when an address is kept.
    pub fn from_link(is_connected: bool, ip: Option<String>) -> (s: WifiStatus)
        ensures
            s.connected == s.ip is Some,
            s.ip is Some <==> is_connected && ip is Some && ip->Some_0@ != "0.0.0.0"@,
            s.ip is Some ==> s.ip->Some_0@ == ip->Some_0@,
    {
        let kept = if is_connected {
            match ip {
                Some(addr) => {
                    if is_unspecified(addr.as_str()) {
                        None
                    } else {
                        Some(addr)
                    }
                },
                None => None,
            }
        } else {
            None
        };
        WifiStatus { connected: kept.is_some(), ip: kept }
    }
}

} // verus!
