use crate::config::{all_enabled, RegistrySettings};
use crate::registry::{copy_opt_text, opt_text, AvailabilityResult};
use vstd::prelude::*;
use vstd::string::*;

verus! {

/// A batch check: a name, and which registries to probe (all when absent).
pub struct CheckRequest {
    pub name: String,
    pub registries: Option<RegistrySettings>,
}

/// The answer to a batch check.
pub struct CheckResponse {
    pub name: String,
    pub results: Vec<AvailabilityResult>,
}

/// A domain check: a name under several top-level domains.
pub struct DomainRequest {
    pub name: String,
    pub tlds: Vec<String>,
}

/// One domain of a domain check.
pub struct DomainResult {
    pub domain: String,
    pub available: Option<bool>,
    pub error: Option<String>,
}

/// The answer to a domain check.
pub struct DomainResponse {
    pub name: String,
    pub results: Vec<DomainResult>,
}

/// A check of complete domains.
pub struct FullDomainRequest {
    pub domains: Vec<String>,
}

/// A new registry selection to persist.
pub struct SaveConfigRequest {
    pub registries: RegistrySettings,
}

impl CheckRequest {
    /// The selection a batch check runs under: the one asked for, or every
    /// registry when none was given.
    pub fn effective_settings(&self) -> (r: RegistrySettings)
        ensures
            self.registries is Some ==> r == self.registries->0,
            self.registries is None ==> r == all_enabled(),
    {
        match self.registries {
            Some(s) => s,
            None => RegistrySettings::default(),
        }
    }
}

impl DomainResult {
    /// The entry of a domain check for the outcome of looking up `domain`.
    pub fn from_outcome(domain: &str, outcome: &AvailabilityResult) -> (r: DomainResult)
        ensures
            r.domain@ == domain@,
            r.available == outcome.available,
            opt_text(r.error) == opt_text(outcome.error),
    {
        DomainResult {
            domain: String::from_str(domain),
            available: outcome.available,
            error: copy_opt_text(&outcome.error),
        }
    }
}

/// The texts of `items` joined by ", ".
pub open spec fn joined(items: Seq<Seq<char>>) -> Seq<char>
    decreases items.len(),
{
    if items.len() == 0 {
        Seq::empty()
    } else if items.len() == 1 {
        items[0]
    } else {
        joined(items.drop_last()) + ", "@ + items.last()
    }
}

impl FullDomainRequest {
    /// The name a check of complete domains answers under: the domains
    /// joined by ", ".
    pub fn label(&self) -> (r: String)
        ensures
            r@ == joined(self.domains@.map_values(|d: String| d@)),
    {
        let ghost ds = self.domains@.map_values(|d: String| d@);
        let mut out = String::new();
        let mut i: usize = 0;
        while i < self.domains.len()
            invariant
                ds == self.domains@.map_values(|d: String| d@),
                i <= self.domains@.len(),
                out@ == joined(ds.subrange(0, i as int)),
            decreases self.domains@.len() - i,
        {
            assert(ds.subrange(0, i + 1).drop_last() =~= ds.subrange(0, i as int));
            if i > 0 {
                out.append(", ");
            }
            out.append(self.domains[i].as_str());
            i = i + 1;
        }
        assert(ds.subrange(0, self.domains@.len() as int) =~= ds);
        out
    }
}

} // verus!
