//! Immutable-after-construction backend metadata: scheme, normalized
//! root, capability descriptor, and the swappable HTTP client handle.

use vstd::prelude::*;

use crate::capability::Capability;

verus! {

/// The storage service a backend instance speaks to.
#[derive(Clone, Copy, Debug, PartialEq, Eq, Structural)]
pub enum Scheme {
    Opendrive,
}

impl Scheme {
    /// The scheme's identifier.
    pub fn as_str(&self) -> (r: &'static str)
        ensures
            *self == Scheme::Opendrive ==> r@ == "opendrive"@,
    {
        match self {
            Scheme::Opendrive => "opendrive",
        }
    }

    /// Parse a scheme identifier; unknown identifiers are refused.
    pub fn parse(s: &str) -> (r: Option<Scheme>)
        ensures
            r matches Some(scheme) ==> scheme == Scheme::Opendrive && s@ == "opendrive"@,
            r is None ==> s@ != "opendrive"@,
    {
        let owned = s.to_owned();
        if owned.eq(&"opendrive".to_owned()) {
            Some(Scheme::Opendrive)
        } else {
            None
        }
    }
}

/// Metadata of one backend instance. The HTTP client handle may be
/// swapped without invalidating operations already holding the old one;
/// sharing and atomicity of the swap belong to the embedding runtime.
pub struct AccessorInfo {
    pub scheme: Scheme,
    pub root: String,
    pub capability: Capability,
    pub http_client: Option<reqwest::Client>,
}

impl AccessorInfo {
    /// Assemble the metadata; no client handle is attached yet.
    pub fn new(scheme: Scheme, root: String, capability: Capability) -> (r: AccessorInfo)
        ensures
            r.scheme == scheme,
            r.root@ == root@,
            r.capability == capability,
            r.http_client is None,
    {
        AccessorInfo { scheme, root, capability, http_client: None }
    }

    /// Swap in another HTTP client, leaving everything else unchanged.
    pub fn update_http_client(&mut self, client: reqwest::Client)
        ensures
            final(self).scheme == old(self).scheme,
            final(self).root@ == old(self).root@,
            final(self).capability == old(self).capability,
            final(self).http_client is Some,
    {
        self.http_client = Some(client);
    }

    /// The declared capability.
    pub fn capability(&self) -> (r: Capability)
        ensures
            r == self.capability,
    {
        self.capability
    }

    /// The normalized root path.
    pub fn root(&self) -> (r: &str)
        ensures
            r@ == self.root@,
    {
        self.root.as_str()
    }

    /// The scheme identifier.
    pub fn scheme(&self) -> (r: Scheme)
        ensures
            r == self.scheme,
    {
        self.scheme
    }
}

} // verus!
