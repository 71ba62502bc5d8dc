use crate::github::{
    base64_of, encode_upload, fault_text, format_github_error, manifest_filename, manifest_text, publish_command,
    GitHubError, GitHubFault, ManifestType,
};
use crate::registry::RegistryType;
use crate::text::{join2, join3};
use vstd::prelude::*;
use vstd::string::*;
use vstd::utf8::encode_utf8;

verus! {

/// The single terminal outcome of a registration attempt.
#[derive(Clone, Debug)]
pub enum RegistrationResult {
    Success(String),
    Error(String),
}

/// Mathematical form of a `RegistrationResult`.
pub enum Verdict {
    Success(Seq<char>),
    Error(Seq<char>),
}

impl View for RegistrationResult {
    type V = Verdict;

    open spec fn view(&self) -> Verdict {
        match self {
            RegistrationResult::Success(m) => Verdict::Success(m@),
            RegistrationResult::Error(m) => Verdict::Error(m@),
        }
    }
}

/// The status line a finished attempt leaves: the message of a success, the
/// message of a failure behind "Error: ".
pub open spec fn verdict_status(v: Verdict) -> Seq<char> {
    match v {
        Verdict::Success(m) => m,
        Verdict::Error(m) => "Error: "@ + m,
    }
}

impl RegistrationResult {
    pub fn status_text(&self) -> (r: String)
        ensures
            r@ == verdict_status(self@),
    {
        match self {
            RegistrationResult::Success(m) => m.clone(),
            RegistrationResult::Error(m) => join2("Error: ", m.as_str()),
        }
    }
}

/// The next thing the orchestrator needs done by the transport.
pub enum RegistrationAction {
    /// Create a repository for the caller's account.
    CreateRepo { repo_name: String, description: Option<String> },
    /// Find the login of the caller's account.
    FetchUsername,
    /// Wait before the next request, to let a new repository settle.
    Pause { seconds: u64 },
    /// Ask whether `path` exists in `owner/repo`.
    LookupFile { owner: String, repo: String, path: String },
    /// Create `path` in `owner/repo` with the base64 body `encoded`.
    WriteFile { owner: String, repo: String, path: String, encoded: String, message: String },
    /// Nothing more to do: the attempt ends with `result`.
    Finish { result: RegistrationResult },
}

/// Mathematical form of a `RegistrationAction`.
pub enum Request {
    CreateRepo { repo_name: Seq<char>, description: Option<Seq<char>> },
    FetchUsername,
    Pause { seconds: u64 },
    LookupFile { owner: Seq<char>, repo: Seq<char>, path: Seq<char> },
    WriteFile { owner: Seq<char>, repo: Seq<char>, path: Seq<char>, encoded: Seq<char>, message: Seq<char> },
    Finish { result: Verdict },
}

impl View for RegistrationAction {
    type V = Request;

    open spec fn view(&self) -> Request {
        match self {
            RegistrationAction::CreateRepo { repo_name, description } => Request::CreateRepo {
                repo_name: repo_name@,
                description: match description {
                    Some(d) => Some(d@),
                    None => None,
                },
            },
            RegistrationAction::FetchUsername => Request::FetchUsername,
            RegistrationAction::Pause { seconds } => Request::Pause { seconds: *seconds },
            RegistrationAction::LookupFile { owner, repo, path } => Request::LookupFile {
                owner: owner@,
                repo: repo@,
                path: path@,
            },
            RegistrationAction::WriteFile { owner, repo, path, encoded, message } => Request::WriteFile {
                owner: owner@,
                repo: repo@,
                path: path@,
                encoded: encoded@,
                message: message@,
            },
            RegistrationAction::Finish { result } => Request::Finish { result: result@ },
        }
    }
}

/// What the transport reports back after performing an action.
pub enum RegistrationEvent {
    RepoCreated { html_url: String },
    Username { login: String },
    Resumed,
    FileLookup { exists: bool },
    FileWritten,
    Failed { error: GitHubError },
}

/// Mathematical form of a `RegistrationEvent`.
pub enum Reply {
    RepoCreated { html_url: Seq<char> },
    Username { login: Seq<char> },
    Resumed,
    FileLookup { exists: bool },
    FileWritten,
    Failed { error: GitHubFault },
}

impl View for RegistrationEvent {
    type V = Reply;

    open spec fn view(&self) -> Reply {
        match self {
            RegistrationEvent::RepoCreated { html_url } => Reply::RepoCreated { html_url: html_url@ },
            RegistrationEvent::Username { login } => Reply::Username { login: login@ },
            RegistrationEvent::Resumed => Reply::Resumed,
            RegistrationEvent::FileLookup { exists } => Reply::FileLookup { exists: *exists },
            RegistrationEvent::FileWritten => Reply::FileWritten,
            RegistrationEvent::Failed { error } => Reply::Failed { error: error@ },
        }
    }
}

/// Where an attempt stands.
#[derive(Clone, Copy, Debug, PartialEq, Eq, Structural)]
pub enum Phase {
    /// Waiting for the repository to be created.
    Creating,
    /// Repository created; waiting for the owner's login.
    NamingOwner,
    /// Waiting out the pause before the manifest is written.
    Settling,
    /// Waiting for the manifest of a new repository to be written.
    Writing,
    /// The repository already existed; waiting for the owner's login.
    ResolvingOwner,
    /// Waiting to learn whether the existing repository holds the manifest.
    Checking,
    /// Waiting for the manifest of the existing repository to be written.
    Ensuring,
    /// Finished.
    Done,
}

/// One registration attempt for one name on one registry.
pub struct Registration {
    kind: RegistryType,
    name: String,
    phase: Phase,
    repo_url: String,
    owner: String,
}

/// Mathematical form of a `Registration`.
pub struct RegistrationState {
    pub kind: RegistryType,
    pub name: Seq<char>,
    pub phase: Phase,
    pub repo_url: Seq<char>,
    pub owner: Seq<char>,
}

impl View for Registration {
    type V = RegistrationState;

    closed spec fn view(&self) -> RegistrationState {
        RegistrationState {
            kind: self.kind,
            name: self.name@,
            phase: self.phase,
            repo_url: self.repo_url@,
            owner: self.owner@,
        }
    }
}

/// Seconds to wait between creating a repository and writing into it.
pub const SETTLE_SECONDS: u64 = 2;

/// The package registries that are reserved through a repository holding a
/// manifest.
pub open spec fn manifest_for(kind: RegistryType) -> Option<ManifestType> {
    match kind {
        RegistryType::Npm => Some(ManifestType::Npm),
        RegistryType::Crates => Some(ManifestType::Crates),
        RegistryType::PyPi => Some(ManifestType::PyPi),
        _ => None,
    }
}

pub fn manifest_kind(kind: RegistryType) -> (r: Option<ManifestType>)
    ensures
        r == manifest_for(kind),
{
    match kind {
        RegistryType::Npm => Some(ManifestType::Npm),
        RegistryType::Crates => Some(ManifestType::Crates),
        RegistryType::PyPi => Some(ManifestType::PyPi),
        _ => None,
    }
}

/// The instructions given for registries that cannot be reserved by a call.
pub open spec fn manual_instructions(kind: RegistryType) -> Seq<char> {
    match kind {
        RegistryType::Brew => "Homebrew: Create a formula and submit PR to homebrew-core"@,
        RegistryType::Flatpak => "Flatpak: Submit your app to flathub.org/apps/submit"@,
        RegistryType::Debian => "Debian: Follow ITP process at wiki.debian.org/ITP"@,
        _ => "Domain registration requires a registrar (e.g., Google Domains, Namecheap)"@,
    }
}

fn manual_instructions_text(kind: RegistryType) -> (r: String)
    ensures
        r@ == manual_instructions(kind),
{
    match kind {
        RegistryType::Brew => String::from_str("Homebrew: Create a formula and submit PR to homebrew-core"),
        RegistryType::Flatpak => String::from_str("Flatpak: Submit your app to flathub.org/apps/submit"),
        RegistryType::Debian => String::from_str("Debian: Follow ITP process at wiki.debian.org/ITP"),
        _ => String::from_str("Domain registration requires a registrar (e.g., Google Domains, Namecheap)"),
    }
}

pub open spec fn reservation_description(m: ManifestType) -> Seq<char> {
    "Reserved package name for "@ + manifest_filename(m)
}

pub open spec fn commit_message(m: ManifestType) -> Seq<char> {
    "Add "@ + manifest_filename(m) + " for package reservation"@
}

pub open spec fn missing_credential_text() -> Seq<char> {
    "Set GITHUB_TOKEN environment variable"@
}

pub open spec fn too_large_text() -> Seq<char> {
    "manifest too large to upload"@
}

pub open spec fn out_of_turn_text() -> Seq<char> {
    "unexpected reply from GitHub"@
}

pub open spec fn finish(s: RegistrationState, v: Verdict) -> (RegistrationState, Request) {
    (RegistrationState { phase: Phase::Done, ..s }, Request::Finish { result: v })
}

/// The request that writes the manifest `m` of `repo` into `owner/repo`.
pub open spec fn write_request(m: ManifestType, owner: Seq<char>, repo: Seq<char>) -> Request {
    Request::WriteFile {
        owner,
        repo,
        path: manifest_filename(m),
        encoded: base64_of(encode_utf8(manifest_text(m, repo, reservation_description(m)))),
        message: commit_message(m),
    }
}

pub open spec fn manifest_fits(m: ManifestType, repo: Seq<char>) -> bool {
    encode_utf8(manifest_text(m, repo, reservation_description(m))).len() <= usize::MAX / 2
}

/// How an attempt opens. Without a credential it fails at once, with no
/// request made.
/// The kinds reserved by a call to the service, which needs a credential.
pub open spec fn needs_credential(kind: RegistryType) -> bool {
    kind == RegistryType::GitHub || manifest_for(kind) is Some
}

pub open spec fn opening(kind: RegistryType, name: Seq<char>, has_credential: bool) -> (RegistrationState, Request) {
    let s = RegistrationState { kind, name, phase: Phase::Creating, repo_url: Seq::empty(), owner: Seq::empty() };
    if !needs_credential(kind) {
        finish(s, Verdict::Success(manual_instructions(kind)))
    } else if !has_credential {
        finish(s, Verdict::Error(missing_credential_text()))
    } else if kind == RegistryType::GitHub {
        (s, Request::CreateRepo { repo_name: name, description: None })
    } else if let Some(m) = manifest_for(kind) {
        (s, Request::CreateRepo { repo_name: name, description: Some(reservation_description(m)) })
    } else {
        finish(s, Verdict::Success(manual_instructions(kind)))
    }
}

/// How an attempt moves on when `reply` comes back.
pub open spec fn transition(s: RegistrationState, reply: Reply) -> (RegistrationState, Request) {
    let m = manifest_for(s.kind)->0;
    match (s.phase, reply) {
        (Phase::Creating, Reply::RepoCreated { html_url }) => if s.kind == RegistryType::GitHub {
            finish(s, Verdict::Success("Created: "@ + html_url))
        } else {
            (RegistrationState { phase: Phase::NamingOwner, repo_url: html_url, ..s }, Request::FetchUsername)
        },
        (Phase::Creating, Reply::Failed { error }) => if s.kind != RegistryType::GitHub && error
            == GitHubFault::RepoExists {
            (RegistrationState { phase: Phase::ResolvingOwner, ..s }, Request::FetchUsername)
        } else {
            finish(s, Verdict::Error(fault_text(error)))
        },
        (Phase::NamingOwner, Reply::Username { login }) => (
            RegistrationState { phase: Phase::Settling, owner: login, ..s },
            Request::Pause { seconds: SETTLE_SECONDS },
        ),
        (Phase::Settling, Reply::Resumed) => if manifest_fits(m, s.name) {
            (RegistrationState { phase: Phase::Writing, ..s }, write_request(m, s.owner, s.name))
        } else {
            finish(s, Verdict::Success(partial_text(s.repo_url, too_large_text())))
        },
        (Phase::Writing, Reply::FileWritten) => finish(
            s,
            Verdict::Success(s.repo_url + " - Run '"@ + publish_command(m) + "' to claim the name"@),
        ),
        (Phase::NamingOwner, Reply::Failed { error }) => finish(
            s,
            Verdict::Success(partial_text(s.repo_url, fault_text(error))),
        ),
        (Phase::Writing, Reply::Failed { error }) => finish(
            s,
            Verdict::Success(partial_text(s.repo_url, fault_text(error))),
        ),
        (Phase::ResolvingOwner, Reply::Username { login }) => (
            RegistrationState { phase: Phase::Checking, owner: login, ..s },
            Request::LookupFile { owner: login, repo: s.name, path: manifest_filename(m) },
        ),
        (Phase::Checking, Reply::FileLookup { exists }) => if exists {
            finish(s, Verdict::Success(manifest_filename(m) + " already exists in repo"@))
        } else if manifest_fits(m, s.name) {
            (RegistrationState { phase: Phase::Ensuring, ..s }, write_request(m, s.owner, s.name))
        } else {
            finish(s, Verdict::Error(too_large_text()))
        },
        (Phase::Ensuring, Reply::FileWritten) => finish(
            s,
            Verdict::Success("Added "@ + manifest_filename(m) + " to existing repo"@),
        ),
        (Phase::ResolvingOwner, Reply::Failed { error }) => finish(s, Verdict::Error(fault_text(error))),
        (Phase::Checking, Reply::Failed { error }) => finish(s, Verdict::Error(fault_text(error))),
        (Phase::Ensuring, Reply::Failed { error }) => finish(s, Verdict::Error(fault_text(error))),
        _ => finish(s, Verdict::Error(out_of_turn_text())),
    }
}

/// A repository was created but the manifest step failed: the repository's
/// address is still reported, with what went wrong.
pub open spec fn partial_text(url: Seq<char>, detail: Seq<char>) -> Seq<char> {
    url + " - repository created, but the manifest was not added: "@ + detail
}

fn partial_report(url: &str, detail: &str) -> (r: String)
    ensures
        r@ == partial_text(url@, detail@),
{
    join3(url, " - repository created, but the manifest was not added: ", detail)
}

/// Without a credential no request reaches the service: an attempt on a
/// kind reserved by a call (GitHub included) ends at once with an error
/// asking for one, and any other kind gets its instructions as usual.
pub proof fn lemma_no_credential_no_request(kind: RegistryType, name: Seq<char>)
    ensures
        opening(kind, name, false).1 is Finish,
        opening(kind, name, false).0.phase == Phase::Done,
        needs_credential(kind) ==> opening(kind, name, false).1 == (Request::Finish {
            result: Verdict::Error(missing_credential_text()),
        }),
        !needs_credential(kind) ==> opening(kind, name, false).1 == (Request::Finish {
            result: Verdict::Success(manual_instructions(kind)),
        }),
{
}

/// One attempt on `name` whose repository already exists: creation is
/// refused as taken, the account's login is `login`, and the manifest is
/// `present` there or not. Gives whether the attempt wrote the manifest, and
/// how it ended.
pub open spec fn attempt_on_existing(kind: RegistryType, name: Seq<char>, login: Seq<char>, present: bool) -> (
    bool,
    Verdict,
) {
    let s0 = opening(kind, name, true).0;
    let s1 = transition(s0, Reply::Failed { error: GitHubFault::RepoExists }).0;
    let s2 = transition(s1, Reply::Username { login }).0;
    let (s3, r3) = transition(s2, Reply::FileLookup { exists: present });
    match r3 {
        Request::WriteFile { .. } => match transition(s3, Reply::FileWritten).1 {
            Request::Finish { result } => (true, result),
            _ => (true, Verdict::Error(out_of_turn_text())),
        },
        Request::Finish { result } => (false, result),
        _ => (false, Verdict::Error(out_of_turn_text())),
    }
}

/// Ensuring the manifest of an existing repository is idempotent: a first
/// attempt writes it only when it is missing, and a second attempt against
/// the repository as the first left it writes nothing and reports the
/// manifest as already there.
pub proof fn lemma_ensure_manifest_idempotent(kind: RegistryType, name: Seq<char>, login: Seq<char>, present: bool)
    requires
        manifest_for(kind) is Some,
        manifest_fits(manifest_for(kind)->0, name),
    ensures
        attempt_on_existing(kind, name, login, present).0 == !present,
        !present ==> attempt_on_existing(kind, name, login, present).1 == Verdict::Success(
            "Added "@ + manifest_filename(manifest_for(kind)->0) + " to existing repo"@,
        ),
        !attempt_on_existing(kind, name, login, present || attempt_on_existing(kind, name, login, present).0).0,
        attempt_on_existing(kind, name, login, present || attempt_on_existing(kind, name, login, present).0).1
            == Verdict::Success(manifest_filename(manifest_for(kind)->0) + " already exists in repo"@),
{
}

impl Registration {
    pub closed spec fn is_done(&self) -> bool {
        self@.phase == Phase::Done
    }

    /// An attempt only waits on the service for kinds it can reserve there,
    /// and past creation only for kinds reserved through a manifest.
    pub closed spec fn wf(&self) -> bool {
        &&& self.phase == Phase::Creating ==> self.kind == RegistryType::GitHub || manifest_for(self.kind) is Some
        &&& self.phase != Phase::Creating && self.phase != Phase::Done ==> manifest_for(self.kind) is Some
    }

    /// Opens an attempt to register `name` on `kind`. `has_credential` says
    /// whether a credential was found at this moment.
    pub fn start(kind: RegistryType, name: &str, has_credential: bool) -> (r: (Registration, RegistrationAction))
        ensures
            (r.0@, r.1@) == opening(kind, name@, has_credential),
            (r.1 is Finish) == r.0.is_done(),
            r.0.wf(),
    {
        let st = Registration {
            kind,
            name: String::from_str(name),
            phase: Phase::Creating,
            repo_url: String::new(),
            owner: String::new(),
        };
        if kind != RegistryType::GitHub && manifest_kind(kind).is_none() {
            let msg = manual_instructions_text(kind);
            return (
                Registration { phase: Phase::Done, ..st },
                RegistrationAction::Finish { result: RegistrationResult::Success(msg) },
            );
        }
        if !has_credential {
            let msg = String::from_str("Set GITHUB_TOKEN environment variable");
            return (
                Registration { phase: Phase::Done, ..st },
                RegistrationAction::Finish { result: RegistrationResult::Error(msg) },
            );
        }
        if kind == RegistryType::GitHub {
            let repo_name = String::from_str(name);
            return (st, RegistrationAction::CreateRepo { repo_name, description: None });
        }
        match manifest_kind(kind) {
            Some(m) => {
                let d = join2("Reserved package name for ", m.filename());
                let repo_name = String::from_str(name);
                (st, RegistrationAction::CreateRepo { repo_name, description: Some(d) })
            },
            None => {
                let msg = manual_instructions_text(kind);
                (
                    Registration { phase: Phase::Done, ..st },
                    RegistrationAction::Finish { result: RegistrationResult::Success(msg) },
                )
            },
        }
    }

    fn done(&mut self, result: RegistrationResult) -> (a: RegistrationAction)
        ensures
            (final(self)@, a@) == finish(old(self)@, result@),
            final(self).wf(),
            final(self).is_done(),
            a is Finish,
    {
        self.phase = Phase::Done;
        RegistrationAction::Finish { result }
    }

    fn write_action(m: ManifestType, owner: &str, repo: &str) -> (a: Option<RegistrationAction>)
        ensures
            match a {
                Some(w) => manifest_fits(m, repo@) && w@ == write_request(m, owner@, repo@),
                None => !manifest_fits(m, repo@),
            },
    {
        let description = join2("Reserved package name for ", m.filename());
        let content = m.generate_content(repo, description.as_str());
        match encode_upload(content.as_str()) {
            Some(encoded) => Some(
                RegistrationAction::WriteFile {
                    owner: String::from_str(owner),
                    repo: String::from_str(repo),
                    path: String::from_str(m.filename()),
                    encoded,
                    message: join3("Add ", m.filename(), " for package reservation"),
                },
            ),
            None => None,
        }
    }

    /// Moves the attempt on with what the transport reported.
    pub fn advance(&mut self, event: RegistrationEvent) -> (a: RegistrationAction)
        requires
            old(self).wf(),
        ensures
            (final(self)@, a@) == transition(old(self)@, event@),
            (a is Finish) == final(self).is_done(),
            final(self).wf(),
    {
        let phase = self.phase;
        let kind = self.kind;
        match (phase, event) {
            (Phase::Creating, RegistrationEvent::RepoCreated { html_url }) => {
                if kind == RegistryType::GitHub {
                    let msg = join2("Created: ", html_url.as_str());
                    self.done(RegistrationResult::Success(msg))
                } else {
                    self.phase = Phase::NamingOwner;
                    self.repo_url = html_url;
                    RegistrationAction::FetchUsername
                }
            },
            (Phase::Creating, RegistrationEvent::Failed { error }) => {
                let exists = match error {
                    GitHubError::RepoExists => true,
                    _ => false,
                };
                if kind != RegistryType::GitHub && exists {
                    self.phase = Phase::ResolvingOwner;
                    RegistrationAction::FetchUsername
                } else {
                    let msg = format_github_error(&error);
                    self.done(RegistrationResult::Error(msg))
                }
            },
            (Phase::NamingOwner, RegistrationEvent::Username { login }) => {
                self.phase = Phase::Settling;
                self.owner = login;
                RegistrationAction::Pause { seconds: SETTLE_SECONDS }
            },
            (Phase::NamingOwner, RegistrationEvent::Failed { error }) => {
                let detail = format_github_error(&error);
                let msg = partial_report(self.repo_url.as_str(), detail.as_str());
                self.done(RegistrationResult::Success(msg))
            },
            (Phase::Settling, RegistrationEvent::Resumed) => {
                let m = manifest_kind(kind).unwrap();
                match Self::write_action(m, self.owner.as_str(), self.name.as_str()) {
                    Some(w) => {
                        self.phase = Phase::Writing;
                        w
                    },
                    None => {
                        proof {
                            reveal_strlit("manifest too large to upload");
                        }
                        let msg = partial_report(self.repo_url.as_str(), "manifest too large to upload");
                        self.done(RegistrationResult::Success(msg))
                    },
                }
            },
            (Phase::Writing, RegistrationEvent::FileWritten) => {
                let m = manifest_kind(kind).unwrap();
                let mut msg = String::from_str(self.repo_url.as_str());
                msg.append(" - Run '");
                msg.append(m.publish_command());
                msg.append("' to claim the name");
                self.done(RegistrationResult::Success(msg))
            },
            (Phase::Writing, RegistrationEvent::Failed { error }) => {
                let detail = format_github_error(&error);
                let msg = partial_report(self.repo_url.as_str(), detail.as_str());
                self.done(RegistrationResult::Success(msg))
            },
            (Phase::ResolvingOwner, RegistrationEvent::Username { login }) => {
                let m = manifest_kind(kind).unwrap();
                let action = RegistrationAction::LookupFile {
                    owner: login.clone(),
                    repo: self.name.clone(),
                    path: String::from_str(m.filename()),
                };
                self.phase = Phase::Checking;
                self.owner = login;
                action
            },
            (Phase::Checking, RegistrationEvent::FileLookup { exists }) => {
                let m = manifest_kind(kind).unwrap();
                if exists {
                    let msg = join2(m.filename(), " already exists in repo");
                    self.done(RegistrationResult::Success(msg))
                } else {
                    match Self::write_action(m, self.owner.as_str(), self.name.as_str()) {
                        Some(w) => {
                            self.phase = Phase::Ensuring;
                            w
                        },
                        None => {
                            let msg = String::from_str("manifest too large to upload");
                            self.done(RegistrationResult::Error(msg))
                        },
                    }
                }
            },
            (Phase::Ensuring, RegistrationEvent::FileWritten) => {
                let m = manifest_kind(kind).unwrap();
                let msg = join3("Added ", m.filename(), " to existing repo");
                self.done(RegistrationResult::Success(msg))
            },
            (Phase::ResolvingOwner, RegistrationEvent::Failed { error }) => {
                let msg = format_github_error(&error);
                self.done(RegistrationResult::Error(msg))
            },
            (Phase::Checking, RegistrationEvent::Failed { error }) => {
                let msg = format_github_error(&error);
                self.done(RegistrationResult::Error(msg))
            },
            (Phase::Ensuring, RegistrationEvent::Failed { error }) => {
                let msg = format_github_error(&error);
                self.done(RegistrationResult::Error(msg))
            },
            _ => {
                let msg = String::from_str("unexpected reply from GitHub");
                self.done(RegistrationResult::Error(msg))
            },
        }
    }
}

} // verus!
