//! Resource paths of keys inside a key ring of the remote key-management service.
use vstd::prelude::*;
use vstd::string::StringExecFns;

verus! {

/// The character of a decimal digit.
pub open spec fn digit_char(d: nat) -> char {
    if d == 0 {
        '0'
    } else if d == 1 {
        '1'
    } else if d == 2 {
        '2'
    } else if d == 3 {
        '3'
    } else if d == 4 {
        '4'
    } else if d == 5 {
        '5'
    } else if d == 6 {
        '6'
    } else if d == 7 {
        '7'
    } else if d == 8 {
        '8'
    } else {
        '9'
    }
}

/// The decimal notation of `n`, without leading zeros.
pub open spec fn decimal(n: nat) -> Seq<char>
    decreases n,
{
    if n < 10 {
        seq![digit_char(n)]
    } else {
        decimal(n / 10) + seq![digit_char(n % 10)]
    }
}

fn digit_str(d: u64) -> (r: &'static str)
    requires
        d < 10,
    ensures
        r@ == seq![digit_char(d as nat)],
{
    proof {
        reveal_strlit("0");
        reveal_strlit("1");
        reveal_strlit("2");
        reveal_strlit("3");
        reveal_strlit("4");
        reveal_strlit("5");
        reveal_strlit("6");
        reveal_strlit("7");
        reveal_strlit("8");
        reveal_strlit("9");
    }
    let r = if d == 0 {
        "0"
    } else if d == 1 {
        "1"
    } else if d == 2 {
        "2"
    } else if d == 3 {
        "3"
    } else if d == 4 {
        "4"
    } else if d == 5 {
        "5"
    } else if d == 6 {
        "6"
    } else if d == 7 {
        "7"
    } else if d == 8 {
        "8"
    } else {
        "9"
    };
    assert(r@ =~= seq![digit_char(d as nat)]);
    r
}

/// Writes `n` in decimal.
pub fn decimal_string(n: u64) -> (r: String)
    ensures
        r@ == decimal(n as nat),
    decreases n,
{
    if n < 10 {
        String::from_str(digit_str(n))
    } else {
        let mut s = decimal_string(n / 10);
        s.append(digit_str(n % 10));
        s
    }
}

/// The path of a key ring: `projects/{project}/locations/{location}/keyRings/{keyRing}`.
pub open spec fn key_ring_path(project: Seq<char>, location: Seq<char>, key_ring: Seq<char>) -> Seq<
    char,
> {
    "projects/"@ + project + "/locations/"@ + location + "/keyRings/"@ + key_ring
}

/// The path of one version of a key inside a key ring:
/// `{keyRingPath}/cryptoKeys/{keyId}/cryptoKeyVersions/{keyVersion}`.
pub open spec fn key_version_path(
    project: Seq<char>,
    location: Seq<char>,
    key_ring: Seq<char>,
    key_id: Seq<char>,
    key_version: nat,
) -> Seq<char> {
    key_ring_path(project, location, key_ring) + "/cryptoKeys/"@ + key_id
        + "/cryptoKeyVersions/"@ + decimal(key_version)
}

/// The identity of a key ring: project, location and key ring name.
#[derive(Clone, Debug)]
pub struct GcpKeyRingRef {
    pub google_project_id: String,
    pub location: String,
    pub key_ring: String,
}

impl GcpKeyRingRef {
    pub fn new(google_project_id: &str, location: &str, key_ring: &str) -> (r: Self)
        ensures
            r.google_project_id@ == google_project_id@,
            r.location@ == location@,
            r.key_ring@ == key_ring@,
    {
        GcpKeyRingRef {
            google_project_id: String::from_str(google_project_id),
            location: String::from_str(location),
            key_ring: String::from_str(key_ring),
        }
    }

    /// The key ring's own path.
    pub open spec fn ring_path(&self) -> Seq<char> {
        key_ring_path(self.google_project_id@, self.location@, self.key_ring@)
    }

    /// The path of version `key_version` of key `key_id` in this key ring.
    pub open spec fn version_path(&self, key_id: Seq<char>, key_version: nat) -> Seq<char> {
        key_version_path(
            self.google_project_id@,
            self.location@,
            self.key_ring@,
            key_id,
            key_version,
        )
    }

    pub fn to_google_ref(&self) -> (r: String)
        ensures
            r@ == self.ring_path(),
    {
        let mut r = String::from_str("projects/");
        r.append(self.google_project_id.as_str());
        r.append("/locations/");
        r.append(self.location.as_str());
        r.append("/keyRings/");
        r.append(self.key_ring.as_str());
        r
    }

    pub fn to_key_version_ref(&self, key_id: &str, key_version: u64) -> (r: String)
        ensures
            r@ == self.version_path(key_id@, key_version as nat),
    {
        let mut r = self.to_google_ref();
        r.append("/cryptoKeys/");
        r.append(key_id);
        r.append("/cryptoKeyVersions/");
        let v = decimal_string(key_version);
        r.append(v.as_str());
        r
    }
}

} // verus!
