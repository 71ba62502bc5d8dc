use crate::text::{contains_text, join2, seq_contains};
use vstd::prelude::*;
use vstd::string::*;

verus! {

/// The naming registries a name can be checked against, in declaration order.
#[derive(Clone, Copy, Debug, PartialEq, Eq, Structural, Hash)]
pub enum RegistryType {
    Npm,
    Crates,
    PyPi,
    Brew,
    Flatpak,
    Debian,
    DevDomain,
    GitHub,
}

/// Position of a kind in declaration order.
pub open spec fn kind_rank(k: RegistryType) -> int {
    match k {
        RegistryType::Npm => 0,
        RegistryType::Crates => 1,
        RegistryType::PyPi => 2,
        RegistryType::Brew => 3,
        RegistryType::Flatpak => 4,
        RegistryType::Debian => 5,
        RegistryType::DevDomain => 6,
        RegistryType::GitHub => 7,
    }
}

/// The label a kind is shown under.
pub open spec fn kind_label(k: RegistryType) -> Seq<char> {
    match k {
        RegistryType::Npm => "npm"@,
        RegistryType::Crates => "crates.io"@,
        RegistryType::PyPi => "PyPI"@,
        RegistryType::Brew => "Homebrew"@,
        RegistryType::Flatpak => "Flatpak"@,
        RegistryType::Debian => "Debian"@,
        RegistryType::DevDomain => ".dev"@,
        RegistryType::GitHub => "GitHub"@,
    }
}

impl RegistryType {
    /// Display label of the kind.
    pub fn label(&self) -> (r: &'static str)
        ensures
            r@ == kind_label(*self),
    {
        match self {
            RegistryType::Npm => "npm",
            RegistryType::Crates => "crates.io",
            RegistryType::PyPi => "PyPI",
            RegistryType::Brew => "Homebrew",
            RegistryType::Flatpak => "Flatpak",
            RegistryType::Debian => "Debian",
            RegistryType::DevDomain => ".dev",
            RegistryType::GitHub => "GitHub",
        }
    }
}

/// What one probe found out about one name.
/// `available == None` means the probe could not tell; `error` then says why.
#[derive(Clone, Debug)]
pub struct AvailabilityResult {
    pub registry: RegistryType,
    pub name: String,
    pub available: Option<bool>,
    pub error: Option<String>,
}

/// Mathematical form of an outcome.
pub struct OutcomeView {
    pub registry: RegistryType,
    pub name: Seq<char>,
    pub available: Option<bool>,
    pub error: Option<Seq<char>>,
}

pub open spec fn opt_text(o: Option<String>) -> Option<Seq<char>> {
    match o {
        Some(s) => Some(s@),
        None => None,
    }
}

impl View for AvailabilityResult {
    type V = OutcomeView;

    open spec fn view(&self) -> OutcomeView {
        OutcomeView {
            registry: self.registry,
            name: self.name@,
            available: self.available,
            error: opt_text(self.error),
        }
    }
}

pub fn copy_opt_text(o: &Option<String>) -> (r: Option<String>)
    ensures
        opt_text(r) == opt_text(*o),
{
    match o {
        Some(s) => Some(s.clone()),
        None => None,
    }
}

impl AvailabilityResult {
    /// An independent copy of the outcome.
    pub fn duplicate(&self) -> (r: AvailabilityResult)
        ensures
            r@ == self@,
    {
        AvailabilityResult {
            registry: self.registry,
            name: self.name.clone(),
            available: self.available,
            error: copy_opt_text(&self.error),
        }
    }
}

/// Verdict of a registry lookup by its HTTP status: not found means free,
/// found means taken, anything else cannot be told.
pub open spec fn status_verdict(code: u16) -> Option<bool> {
    if code == 404 {
        Some(true)
    } else if code == 200 {
        Some(false)
    } else {
        None
    }
}

pub fn verdict_from_status(code: u16) -> (r: Option<bool>)
    ensures
        r == status_verdict(code),
{
    if code == 404 {
        Some(true)
    } else if code == 200 {
        Some(false)
    } else {
        None
    }
}

pub open spec fn unexpected_status_text(reason: Seq<char>) -> Seq<char> {
    "Unexpected status: "@ + reason
}

/// The outcome of a lookup that answered with `code`; `reason` is the status
/// line's text, used in the error when the code says nothing.
pub open spec fn status_outcome(kind: RegistryType, name: Seq<char>, code: u16, reason: Seq<char>) -> OutcomeView {
    OutcomeView {
        registry: kind,
        name: name,
        available: status_verdict(code),
        error: if status_verdict(code) is None {
            Some(unexpected_status_text(reason))
        } else {
            None
        },
    }
}

pub fn outcome_from_status(kind: RegistryType, name: &str, code: u16, reason: &str) -> (r: AvailabilityResult)
    ensures
        r@ == status_outcome(kind, name@, code, reason@),
{
    let available = verdict_from_status(code);
    let error = if available.is_none() {
        Some(join2("Unexpected status: ", reason))
    } else {
        None
    };
    AvailabilityResult { registry: kind, name: String::from_str(name), available, error }
}

/// The error text of a probe whose transport failed: the transport's own
/// message, or a fixed text where that message is empty.
pub open spec fn transport_error_text(message: Seq<char>) -> Seq<char> {
    if message.len() == 0 {
        "transport failure"@
    } else {
        message
    }
}

pub open spec fn failure_outcome(kind: RegistryType, name: Seq<char>, message: Seq<char>) -> OutcomeView {
    OutcomeView {
        registry: kind,
        name: name,
        available: None,
        error: Some(transport_error_text(message)),
    }
}

/// The outcome of a probe that could not complete its request.
pub fn outcome_from_failure(kind: RegistryType, name: &str, message: &str) -> (r: AvailabilityResult)
    ensures
        r@ == failure_outcome(kind, name@, message@),
        r.available is None,
        r.error is Some && r.error->0@.len() > 0,
{
    let text = if message.is_empty() {
        proof {
            reveal_strlit("transport failure");
        }
        String::from_str("transport failure")
    } else {
        String::from_str(message)
    };
    AvailabilityResult { registry: kind, name: String::from_str(name), available: None, error: Some(text) }
}

/// What the Debian sources index said about a package, once its body was read.
pub enum DebianBody {
    /// The JSON body: whether it holds an `error` field, and whether its
    /// `versions` array is non-empty.
    Fields { has_error_field: bool, has_versions: bool },
    /// The body could not be read as JSON.
    Unreadable { message: String },
}

pub open spec fn debian_outcome(name: Seq<char>, code: u16, reason: Seq<char>, body: DebianBody) -> OutcomeView {
    if code == 404 {
        OutcomeView { registry: RegistryType::Debian, name, available: Some(true), error: None }
    } else if code != 200 {
        OutcomeView {
            registry: RegistryType::Debian,
            name,
            available: None,
            error: Some(unexpected_status_text(reason)),
        }
    } else {
        match body {
            DebianBody::Fields { has_error_field, has_versions } => OutcomeView {
                registry: RegistryType::Debian,
                name,
                available: Some(has_error_field || !has_versions),
                error: None,
            },
            DebianBody::Unreadable { message } => OutcomeView {
                registry: RegistryType::Debian,
                name,
                available: None,
                error: Some("Parse error: "@ + message@),
            },
        }
    }
}

/// Verdict of the Debian probe: not found, or a body that reports an error
/// or lists no versions, means free.
pub fn outcome_from_debian(name: &str, code: u16, reason: &str, body: &DebianBody) -> (r: AvailabilityResult)
    ensures
        r@ == debian_outcome(name@, code, reason@, *body),
{
    let n = String::from_str(name);
    if code == 404 {
        return AvailabilityResult { registry: RegistryType::Debian, name: n, available: Some(true), error: None };
    }
    if code != 200 {
        return AvailabilityResult {
            registry: RegistryType::Debian,
            name: n,
            available: None,
            error: Some(join2("Unexpected status: ", reason)),
        };
    }
    match body {
        DebianBody::Fields { has_error_field, has_versions } => AvailabilityResult {
            registry: RegistryType::Debian,
            name: n,
            available: Some(*has_error_field || !*has_versions),
            error: None,
        },
        DebianBody::Unreadable { message } => AvailabilityResult {
            registry: RegistryType::Debian,
            name: n,
            available: None,
            error: Some(join2("Parse error: ", message.as_str())),
        },
    }
}

/// What a DNS lookup of a domain answered.
pub enum DnsAnswer {
    /// The lookup returned this many addresses.
    Addresses { count: usize },
    /// The lookup failed with this message.
    Failed { message: String },
}

/// A failed lookup whose message tells that the name does not exist.
pub open spec fn says_no_such_domain(message: Seq<char>) -> bool {
    seq_contains(message, "NXDOMAIN"@) || seq_contains(message, "no record"@)
}

pub open spec fn dns_outcome(domain: Seq<char>, answer: DnsAnswer) -> OutcomeView {
    match answer {
        DnsAnswer::Addresses { count } => OutcomeView {
            registry: RegistryType::DevDomain,
            name: domain,
            available: Some(count == 0),
            error: None,
        },
        DnsAnswer::Failed { message } => if says_no_such_domain(message@) {
            OutcomeView { registry: RegistryType::DevDomain, name: domain, available: Some(true), error: None }
        } else {
            OutcomeView {
                registry: RegistryType::DevDomain,
                name: domain,
                available: None,
                error: Some(transport_error_text(message@)),
            }
        },
    }
}

/// Verdict on a domain from its DNS answer: addresses mean taken, a
/// non-existent name means free, any other failure cannot be told.
pub fn outcome_from_dns(domain: &str, answer: &DnsAnswer) -> (r: AvailabilityResult)
    ensures
        r@ == dns_outcome(domain@, *answer),
{
    let d = String::from_str(domain);
    match answer {
        DnsAnswer::Addresses { count } => AvailabilityResult {
            registry: RegistryType::DevDomain,
            name: d,
            available: Some(*count == 0),
            error: None,
        },
        DnsAnswer::Failed { message } => {
            let gone = contains_text(message.as_str(), "NXDOMAIN") || contains_text(message.as_str(), "no record");
            if gone {
                AvailabilityResult { registry: RegistryType::DevDomain, name: d, available: Some(true), error: None }
            } else {
                AvailabilityResult {
                    registry: RegistryType::DevDomain,
                    name: d,
                    available: None,
                    error: Some(outcome_from_failure(RegistryType::DevDomain, domain, message.as_str()).error.unwrap()),
                }
            }
        },
    }
}

/// Lower-case form of a text, as `str::to_lowercase` gives it.
pub uninterp spec fn lower_of(s: Seq<char>) -> Seq<char>;

/// Relies on `str::to_lowercase`: the result depends on the characters alone.
#[verifier::external_body]
fn lowercase(s: &str) -> (r: String)
    ensures
        r@ == lower_of(s@),
{
    s.to_lowercase()
}

/// One application of the Flathub catalogue: its identifier and display name
/// (empty where the catalogue gave none).
pub struct FlatpakEntry {
    pub app_id: String,
    pub app_name: String,
}

/// An entry matches a query when its identifier contains the query or its
/// name equals it; all three already case-folded.
pub open spec fn entry_matches(id: Seq<char>, app_name: Seq<char>, query: Seq<char>) -> bool {
    seq_contains(id, query) || app_name == query
}

pub fn folded_entry_matches(id: &str, app_name: &str, query: &str) -> (r: bool)
    ensures
        r == entry_matches(id@, app_name@, query@),
{
    if contains_text(id, query) {
        return true;
    }
    String::from_str(app_name) == String::from_str(query)
}

pub open spec fn catalogue_has_match(entries: Seq<FlatpakEntry>, query: Seq<char>) -> bool {
    exists|i: int|
        0 <= i < entries.len() && #[trigger] entry_matches(
            lower_of(entries[i].app_id@),
            lower_of(entries[i].app_name@),
            lower_of(query),
        )
}

/// Whether some entry matches `query`, case-insensitively.
pub fn flatpak_has_match(query: &str, entries: &Vec<FlatpakEntry>) -> (r: bool)
    ensures
        r == catalogue_has_match(entries@, query@),
{
    let q = lowercase(query);
    let mut i: usize = 0;
    while i < entries.len()
        invariant
            q@ == lower_of(query@),
            i <= entries@.len(),
            forall|k: int|
                0 <= k < i ==> !#[trigger] entry_matches(
                    lower_of(entries@[k].app_id@),
                    lower_of(entries@[k].app_name@),
                    lower_of(query@),
                ),
        decreases entries@.len() - i,
    {
        let id = lowercase(entries[i].app_id.as_str());
        let nm = lowercase(entries[i].app_name.as_str());
        if folded_entry_matches(id.as_str(), nm.as_str(), q.as_str()) {
            return true;
        }
        i = i + 1;
    }
    false
}

/// What a Flathub answer held, once its body was read.
pub enum FlatpakListing {
    /// A JSON array of applications.
    Entries { entries: Vec<FlatpakEntry> },
    /// JSON that is not an array.
    NotAList,
    /// The body could not be read as JSON.
    Unreadable { message: String },
}

pub open spec fn flatpak_status_failure(name: Seq<char>, reason: Seq<char>) -> OutcomeView {
    OutcomeView { registry: RegistryType::Flatpak, name, available: None, error: Some("Status: "@ + reason) }
}

pub open spec fn flatpak_unreadable(name: Seq<char>, message: Seq<char>) -> OutcomeView {
    OutcomeView { registry: RegistryType::Flatpak, name, available: None, error: Some("Parse error: "@ + message) }
}

/// Verdict of the Flathub search endpoint. `None` when that endpoint is not
/// there (404 or 405) and the full catalogue must be consulted instead.
pub open spec fn flatpak_search_outcome(name: Seq<char>, code: u16, reason: Seq<char>, listing: FlatpakListing) -> Option<OutcomeView> {
    if code == 404 || code == 405 {
        None
    } else if code != 200 {
        Some(flatpak_status_failure(name, reason))
    } else {
        match listing {
            FlatpakListing::Entries { entries } => Some(
                OutcomeView {
                    registry: RegistryType::Flatpak,
                    name,
                    available: Some(!catalogue_has_match(entries@, name)),
                    error: None,
                },
            ),
            FlatpakListing::NotAList => Some(
                OutcomeView { registry: RegistryType::Flatpak, name, available: Some(true), error: None },
            ),
            FlatpakListing::Unreadable { message } => Some(flatpak_unreadable(name, message@)),
        }
    }
}

/// Verdict of the full Flathub catalogue.
pub open spec fn flatpak_catalogue_outcome(name: Seq<char>, code: u16, reason: Seq<char>, listing: FlatpakListing) -> OutcomeView {
    if code != 200 {
        flatpak_status_failure(name, reason)
    } else {
        match listing {
            FlatpakListing::Entries { entries } => OutcomeView {
                registry: RegistryType::Flatpak,
                name,
                available: Some(!catalogue_has_match(entries@, name)),
                error: None,
            },
            FlatpakListing::NotAList => flatpak_unreadable(name, "expected a list of applications"@),
            FlatpakListing::Unreadable { message } => flatpak_unreadable(name, message@),
        }
    }
}

pub fn outcome_from_flatpak_search(name: &str, code: u16, reason: &str, listing: &FlatpakListing) -> (r: Option<AvailabilityResult>)
    ensures
        match r {
            Some(o) => flatpak_search_outcome(name@, code, reason@, *listing) == Some(o@),
            None => flatpak_search_outcome(name@, code, reason@, *listing) is None,
        },
{
    if code == 404 || code == 405 {
        return None;
    }
    let n = String::from_str(name);
    if code != 200 {
        return Some(AvailabilityResult { registry: RegistryType::Flatpak, name: n, available: None, error: Some(join2("Status: ", reason)) });
    }
    match listing {
        FlatpakListing::Entries { entries } => {
            let found = flatpak_has_match(name, entries);
            Some(AvailabilityResult { registry: RegistryType::Flatpak, name: n, available: Some(!found), error: None })
        },
        FlatpakListing::NotAList => Some(AvailabilityResult { registry: RegistryType::Flatpak, name: n, available: Some(true), error: None }),
        FlatpakListing::Unreadable { message } => Some(
            AvailabilityResult { registry: RegistryType::Flatpak, name: n, available: None, error: Some(join2("Parse error: ", message.as_str())) },
        ),
    }
}

pub fn outcome_from_flatpak_catalogue(name: &str, code: u16, reason: &str, listing: &FlatpakListing) -> (r: AvailabilityResult)
    ensures
        r@ == flatpak_catalogue_outcome(name@, code, reason@, *listing),
{
    let n = String::from_str(name);
    if code != 200 {
        return AvailabilityResult { registry: RegistryType::Flatpak, name: n, available: None, error: Some(join2("Status: ", reason)) };
    }
    match listing {
        FlatpakListing::Entries { entries } => {
            let found = flatpak_has_match(name, entries);
            AvailabilityResult { registry: RegistryType::Flatpak, name: n, available: Some(!found), error: None }
        },
        FlatpakListing::NotAList => AvailabilityResult {
            registry: RegistryType::Flatpak,
            name: n,
            available: None,
            error: Some(join2("Parse error: ", "expected a list of applications")),
        },
        FlatpakListing::Unreadable { message } => AvailabilityResult {
            registry: RegistryType::Flatpak,
            name: n,
            available: None,
            error: Some(join2("Parse error: ", message.as_str())),
        },
    }
}

/// The address a probe looks `name` up at, for the kinds whose
/// probe is one HTTP request (`None` for the others).
pub open spec fn lookup_address(kind: RegistryType, name: Seq<char>) -> Option<Seq<char>> {
    match kind {
        RegistryType::Npm => Some("https://registry.npmjs.org/"@ + name),
        RegistryType::Crates => Some("https://crates.io/api/v1/crates/"@ + name),
        RegistryType::PyPi => Some("https://pypi.org/simple/"@ + name + "/"@),
        RegistryType::Brew => Some("https://formulae.brew.sh/api/formula/"@ + name + ".json"@),
        RegistryType::Debian => Some("https://sources.debian.org/api/src/"@ + name + "/"@),
        RegistryType::Flatpak => Some("https://flathub.org/api/v1/apps/search/"@ + name),
        _ => None,
    }
}

pub fn lookup_url(kind: RegistryType, name: &str) -> (r: Option<String>)
    ensures
        opt_text(r) == lookup_address(kind, name@),
{
    match kind {
        RegistryType::Npm => Some(join2("https://registry.npmjs.org/", name)),
        RegistryType::Crates => Some(join2("https://crates.io/api/v1/crates/", name)),
        RegistryType::PyPi => Some(crate::text::join3("https://pypi.org/simple/", name, "/")),
        RegistryType::Brew => Some(crate::text::join3("https://formulae.brew.sh/api/formula/", name, ".json")),
        RegistryType::Debian => Some(crate::text::join3("https://sources.debian.org/api/src/", name, "/")),
        RegistryType::Flatpak => Some(join2("https://flathub.org/api/v1/apps/search/", name)),
        _ => None,
    }
}

/// The full Flathub catalogue, consulted when its search is not available.
pub const FLATHUB_CATALOGUE_URL: &'static str = "https://flathub.org/api/v1/apps";

/// `name` under top-level domain `tld`.
pub open spec fn domain_of(name: Seq<char>, tld: Seq<char>) -> Seq<char> {
    name + "."@ + tld
}

pub fn domain_name(name: &str, tld: &str) -> (r: String)
    ensures
        r@ == domain_of(name@, tld@),
{
    let mut s = String::from_str(name);
    s.append(".");
    s.append(tld);
    s
}

} // verus!
