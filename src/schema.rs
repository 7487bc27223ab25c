use vstd::prelude::*;

verus! {

/// Identifies a package in a query to the vulnerability database.
#[derive(Debug, PartialEq, Eq)]
pub enum Package {
    /// A package URL such as `pkg:cargo/serde@1.0.0`.
    Purl { purl: String },
    /// A package named within an ecosystem, optionally at one version.
    Named { ecosystem: String, name: String, version: Option<String> },
}

impl Clone for Package {
    fn clone(&self) -> (r: Self)
        ensures
            r == *self,
    {
        match self {
            Package::Purl { purl } => Package::Purl { purl: purl.clone() },
            Package::Named { ecosystem, name, version } => {
                let version = match version {
                    Some(v) => Some(v.clone()),
                    None => None,
                };
                Package::Named { ecosystem: ecosystem.clone(), name: name.clone(), version }
            },
        }
    }
}

/// The short form of a vulnerability that a batch query returns: its
/// identifier and the time of its last modification, as the service wrote it.
#[derive(Debug, PartialEq, Eq)]
pub struct BatchVulnerability {
    pub id: String,
    pub modified: String,
}

impl Clone for BatchVulnerability {
    fn clone(&self) -> (r: Self)
        ensures
            r == *self,
    {
        BatchVulnerability { id: self.id.clone(), modified: self.modified.clone() }
    }
}

/// Copies a list of batch vulnerabilities, element by element.
pub fn clone_vulns(v: &Vec<BatchVulnerability>) -> (r: Vec<BatchVulnerability>)
    ensures
        r@ == v@,
{
    let mut r: Vec<BatchVulnerability> = Vec::new();
    let mut i: usize = 0;
    while i < v.len()
        invariant
            i <= v@.len(),
            r@ == v@.subrange(0, i as int),
        decreases v@.len() - i,
    {
        r.push(v[i].clone());
        i = i + 1;
    }
    assert(r@ =~= v@);
    r
}

} // verus!
