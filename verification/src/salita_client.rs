//! Records exchanged with the salita file-sharing mesh, and how the base
//! URL of each device on it is determined.

use vstd::prelude::*;
use crate::text::{push_signed_decimal, signed_decimal};

verus! {

/// A device of the mesh, as salita reports it.
#[derive(Debug, Clone, PartialEq, Eq)]
pub struct DeviceInfo {
    pub id: String,
    pub name: String,
    pub endpoint: Option<String>,
    pub port: i64,
    pub is_self: bool,
    pub status: String,
    pub last_seen: Option<String>,
}

/// An entry of a directory listing on a device.
#[derive(Debug, Clone, PartialEq, Eq)]
pub struct FileEntry {
    pub name: String,
    pub path: String,
    pub is_dir: bool,
    pub size: u64,
    pub modified: Option<String>,
}

/// Details of one file on a device.
#[derive(Debug, Clone, PartialEq, Eq)]
pub struct FileInfo {
    pub name: String,
    pub path: String,
    pub is_dir: bool,
    pub size: u64,
    pub modified: Option<String>,
    pub mime_type: Option<String>,
}

/// Identity of a salita node and the directories it shares.
#[derive(Debug, Clone, PartialEq, Eq)]
pub struct NodeInfo {
    pub id: String,
    pub name: String,
    pub version: String,
    pub directories: Vec<String>,
}

/// `s` without any trailing `c`.
pub open spec fn trim_end(s: Seq<char>, c: char) -> Seq<char>
    decreases s.len(),
{
    if s.len() > 0 && s.last() == c {
        trim_end(s.drop_last(), c)
    } else {
        s
    }
}

/// `http://<endpoint>:<port>`.
pub open spec fn peer_url_of(endpoint: Seq<char>, port: int) -> Seq<char> {
    "http://"@ + endpoint + ":"@ + signed_decimal(port)
}

/// The base URL under which `device` is reached, given the local salita's.
pub open spec fn device_url_of(base: Seq<char>, device: DeviceInfo) -> Seq<char> {
    if device.is_self {
        base
    } else {
        match device.endpoint {
            Some(ep) => peer_url_of(ep@, device.port as int),
            None => base,
        }
    }
}

/// Addressing of the local salita node and its peers. The HTTP client that
/// talks to them is held by the service beside this value.
#[derive(Debug, Clone)]
pub struct SalitaClient {
    base_url: String,
}

impl SalitaClient {
    /// Base URL of the local salita node.
    pub closed spec fn base(&self) -> Seq<char> {
        self.base_url@
    }

    /// A client for the salita node at `base_url`; trailing slashes are dropped.
    pub fn new(base_url: &str) -> (r: Self)
        ensures
            r.base() == trim_end(base_url@, '/'),
    {
        let n = base_url.unicode_len();
        let mut end: usize = n;
        assert(base_url@.subrange(0, n as int) =~= base_url@);
        while end > 0 && base_url.get_char(end - 1) == '/'
            invariant
                end <= n == base_url@.len(),
                trim_end(base_url@, '/') == trim_end(base_url@.subrange(0, end as int), '/'),
            decreases end,
        {
            assert(base_url@.subrange(0, end as int).drop_last() =~= base_url@.subrange(
                0,
                end - 1,
            ));
            end -= 1;
        }
        let trimmed = base_url.substring_char(0, end);
        SalitaClient { base_url: String::from_str(trimmed) }
    }

    /// Base URL of the local salita node.
    pub fn base_url(&self) -> (r: &str)
        ensures
            r@ == self.base(),
    {
        self.base_url.as_str()
    }

    fn peer_url(endpoint: &str, port: i64) -> (r: String)
        ensures
            r@ == peer_url_of(endpoint@, port as int),
    {
        let mut s = String::from_str("http://");
        s.append(endpoint);
        s.append(":");
        push_signed_decimal(&mut s, port);
        s
    }

    /// Get the base URL for a device — local salita for self, peer endpoint for remote
    pub fn device_url(&self, device: &DeviceInfo) -> (r: String)
        ensures
            r@ == device_url_of(self.base(), *device),
    {
        if device.is_self {
            self.base_url.clone()
        } else {
            match &device.endpoint {
                Some(ep) => Self::peer_url(ep.as_str(), device.port),
                None => self.base_url.clone(),
            }
        }
    }
}

/// The base URL kept by a client never ends in `/`.
pub proof fn lemma_trim_end_no_trailing(s: Seq<char>, c: char)
    ensures
        trim_end(s, c).len() == 0 || trim_end(s, c).last() != c,
        trim_end(trim_end(s, c), c) == trim_end(s, c),
    decreases s.len(),
{
    if s.len() > 0 && s.last() == c {
        lemma_trim_end_no_trailing(s.drop_last(), c);
    }
}

/// A client built from the base URL of another addresses the same node.
pub proof fn lemma_client_base_stable(base_url: Seq<char>)
    ensures
        trim_end(trim_end(base_url, '/'), '/') == trim_end(base_url, '/'),
{
    lemma_trim_end_no_trailing(base_url, '/');
}

} // verus!
