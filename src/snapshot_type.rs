use vstd::prelude::*;
use vstd::string::*;

verus! {

/// The backend kinds a snapshot can be taken with.
#[derive(Clone, Copy, Debug, PartialEq, Eq, Hash, Structural)]
pub enum SnapshotType {
    /// Sentinel that no driver can mount.
    Unknown,
    /// Kernel overlay union mount.
    Overlay,
    /// User-space union filesystem for enclave execution.
    OcclumUnionfs,
}

/// The set of concrete backends that are built into the library.
#[derive(Clone, Copy, Debug, PartialEq, Eq, Structural)]
pub struct Backends {
    pub overlayfs: bool,
    pub unionfs: bool,
}

/// Canonical lowercase name of a variant.
pub open spec fn name_of(t: SnapshotType) -> Seq<char> {
    match t {
        SnapshotType::Unknown => "unknown"@,
        SnapshotType::Overlay => "overlay"@,
        SnapshotType::OcclumUnionfs => "occlum_unionfs"@,
    }
}

/// The variant whose canonical name is exactly `s`, if any.
pub open spec fn parse_name(s: Seq<char>) -> Option<SnapshotType> {
    if s == "unknown"@ {
        Some(SnapshotType::Unknown)
    } else if s == "overlay"@ {
        Some(SnapshotType::Overlay)
    } else if s == "occlum_unionfs"@ {
        Some(SnapshotType::OcclumUnionfs)
    } else {
        None
    }
}

impl Backends {
    /// Whether `t` names a backend of this set.
    pub open spec fn provides(self, t: SnapshotType) -> bool {
        match t {
            SnapshotType::Unknown => false,
            SnapshotType::Overlay => self.overlayfs,
            SnapshotType::OcclumUnionfs => self.unionfs,
        }
    }

    /// The preferred backend of this set: overlay before unionfs, `Unknown` if empty.
    pub open spec fn spec_preferred(self) -> SnapshotType {
        if self.overlayfs {
            SnapshotType::Overlay
        } else if self.unionfs {
            SnapshotType::OcclumUnionfs
        } else {
            SnapshotType::Unknown
        }
    }

    /// The backends built into this library.
    pub fn compiled() -> (r: Backends)
        ensures
            r.overlayfs,
            r.unionfs,
    {
        Backends { overlayfs: true, unionfs: true }
    }

    pub fn provides_type(&self, t: SnapshotType) -> (r: bool)
        ensures
            r == self.provides(t),
    {
        match t {
            SnapshotType::Unknown => false,
            SnapshotType::Overlay => self.overlayfs,
            SnapshotType::OcclumUnionfs => self.unionfs,
        }
    }

    pub fn preferred(&self) -> (r: SnapshotType)
        ensures
            r == self.spec_preferred(),
            r != SnapshotType::Unknown ==> self.provides(r),
    {
        if self.overlayfs {
            SnapshotType::Overlay
        } else if self.unionfs {
            SnapshotType::OcclumUnionfs
        } else {
            SnapshotType::Unknown
        }
    }
}

/// Whether two strings hold the same characters.
pub(crate) fn str_equal(a: &str, b: &str) -> (r: bool)
    ensures
        r == (a@ == b@),
{
    let n = a.unicode_len();
    if n != b.unicode_len() {
        return false;
    }
    let mut i: usize = 0;
    while i < n
        invariant
            n == a@.len(),
            n == b@.len(),
            i <= n,
            forall|j: int| 0 <= j < i ==> a@[j] == b@[j],
        decreases n - i,
    {
        if a.get_char(i) != b.get_char(i) {
            return false;
        }
        i = i + 1;
    }
    assert(a@ =~= b@);
    true
}

impl SnapshotType {
    pub open spec fn spec_default() -> SnapshotType {
        Backends { overlayfs: true, unionfs: true }.spec_preferred()
    }

    /// The canonical lowercase name, used for serialisation and logging.
    pub fn display(&self) -> (r: String)
        ensures
            r@ == name_of(*self),
    {
        match self {
            SnapshotType::Unknown => "unknown".to_owned(),
            SnapshotType::Overlay => "overlay".to_owned(),
            SnapshotType::OcclumUnionfs => "occlum_unionfs".to_owned(),
        }
    }

    /// Reads a variant back from its exact canonical name.
    pub fn from_name(s: &str) -> (r: Option<SnapshotType>)
        ensures
            r == parse_name(s@),
    {
        if str_equal(s, "unknown") {
            Some(SnapshotType::Unknown)
        } else if str_equal(s, "overlay") {
            Some(SnapshotType::Overlay)
        } else if str_equal(s, "occlum_unionfs") {
            Some(SnapshotType::OcclumUnionfs)
        } else {
            None
        }
    }
}

impl Default for SnapshotType {
    /// The preferred backend among those built in.
    fn default() -> (r: SnapshotType)
        ensures
            r == SnapshotType::spec_default(),
            r == SnapshotType::Overlay,
    {
        Backends::compiled().preferred()
    }
}

/// Parsing the canonical name of any variant gives that variant back.
pub proof fn lemma_name_round_trip(t: SnapshotType)
    ensures
        parse_name(name_of(t)) == Some(t),
{
    reveal_strlit("unknown");
    reveal_strlit("overlay");
    reveal_strlit("occlum_unionfs");
    if "unknown"@ == "overlay"@ {
        assert("unknown"@[0] == "overlay"@[0]);
    }
    if "unknown"@ == "occlum_unionfs"@ {
        assert("unknown"@.len() == "occlum_unionfs"@.len());
    }
    if "overlay"@ == "occlum_unionfs"@ {
        assert("overlay"@.len() == "occlum_unionfs"@.len());
    }
}

/// The displayed name of the default backend parses back to the default.
pub proof fn lemma_default_display_round_trip()
    ensures
        parse_name(name_of(SnapshotType::spec_default())) == Some(SnapshotType::spec_default()),
{
    lemma_name_round_trip(SnapshotType::spec_default());
}

} // verus!
