use crate::text::{contains_text, join2, seq_contains};
use base64::Engine;
use vstd::prelude::*;
use vstd::string::*;

verus! {

/// Why a call to the source-hosting service failed.
#[derive(Clone, Debug)]
pub enum GitHubError {
    AuthRequired,
    RepoExists,
    InvalidName,
    RateLimited,
    ApiError(String),
    NetworkError(String),
}

/// Mathematical form of a `GitHubError`.
pub enum GitHubFault {
    AuthRequired,
    RepoExists,
    InvalidName,
    RateLimited,
    ApiError(Seq<char>),
    NetworkError(Seq<char>),
}

impl View for GitHubError {
    type V = GitHubFault;

    open spec fn view(&self) -> GitHubFault {
        match self {
            GitHubError::AuthRequired => GitHubFault::AuthRequired,
            GitHubError::RepoExists => GitHubFault::RepoExists,
            GitHubError::InvalidName => GitHubFault::InvalidName,
            GitHubError::RateLimited => GitHubFault::RateLimited,
            GitHubError::ApiError(m) => GitHubFault::ApiError(m@),
            GitHubError::NetworkError(m) => GitHubFault::NetworkError(m@),
        }
    }
}

/// The text an error is reported with.
pub open spec fn fault_text(e: GitHubFault) -> Seq<char> {
    match e {
        GitHubFault::AuthRequired => "Authentication required - check your token"@,
        GitHubFault::RepoExists => "Repository already exists"@,
        GitHubFault::InvalidName => "Invalid repository name"@,
        GitHubFault::RateLimited => "Rate limited - try again later"@,
        GitHubFault::ApiError(m) => "API error: "@ + m,
        GitHubFault::NetworkError(m) => "Network error: "@ + m,
    }
}

pub fn format_github_error(error: &GitHubError) -> (r: String)
    ensures
        r@ == fault_text(error@),
{
    match error {
        GitHubError::AuthRequired => String::from_str("Authentication required - check your token"),
        GitHubError::RepoExists => String::from_str("Repository already exists"),
        GitHubError::InvalidName => String::from_str("Invalid repository name"),
        GitHubError::RateLimited => String::from_str("Rate limited - try again later"),
        GitHubError::ApiError(m) => join2("API error: ", m.as_str()),
        GitHubError::NetworkError(m) => join2("Network error: ", m.as_str()),
    }
}

pub open spec fn api_root() -> Seq<char> {
    "https://api.github.com"@
}

/// Where repositories of the caller's account are created.
pub fn user_repos_url() -> (r: String)
    ensures
        r@ == api_root() + "/user/repos"@,
{
    join2("https://api.github.com", "/user/repos")
}

/// Where repository `owner/repo` is described.
pub fn repo_url(owner: &str, repo: &str) -> (r: String)
    ensures
        r@ == api_root() + "/repos/"@ + owner@ + "/"@ + repo@,
{
    let mut s = String::from_str("https://api.github.com");
    s.append("/repos/");
    s.append(owner);
    s.append("/");
    s.append(repo);
    s
}

/// Where the caller's account is described.
pub fn user_url() -> (r: String)
    ensures
        r@ == api_root() + "/user"@,
{
    join2("https://api.github.com", "/user")
}

/// Where file `path` of `owner/repo` is read and written.
pub fn contents_url(owner: &str, repo: &str, path: &str) -> (r: String)
    ensures
        r@ == api_root() + "/repos/"@ + owner@ + "/"@ + repo@ + "/contents/"@ + path@,
{
    let mut s = String::from_str("https://api.github.com");
    s.append("/repos/");
    s.append(owner);
    s.append("/");
    s.append(repo);
    s.append("/contents/");
    s.append(path);
    s
}

/// A repository as the service describes it after creating it.
pub struct RepoResponse {
    pub id: u64,
    pub name: String,
    pub full_name: String,
    pub html_url: String,
}

/// A file of a repository, as far as the orchestrator needs it.
pub struct FileContent {
    pub sha: String,
}

pub open spec fn create_repo_verdict(code: u16, body: Seq<char>) -> Result<(), GitHubFault> {
    if code == 201 {
        Ok(())
    } else if code == 401 {
        Err(GitHubFault::AuthRequired)
    } else if code == 422 {
        if seq_contains(body, "name already exists"@) {
            Err(GitHubFault::RepoExists)
        } else {
            Err(GitHubFault::InvalidName)
        }
    } else if code == 403 {
        Err(GitHubFault::RateLimited)
    } else {
        Err(GitHubFault::ApiError(body))
    }
}

pub open spec fn unit_fault_view(r: Result<(), GitHubError>) -> Result<(), GitHubFault> {
    match r {
        Ok(()) => Ok(()),
        Err(e) => Err(e@),
    }
}

/// What the answer to a repository creation means: 201 created; 401 no
/// valid credential; 422 a taken or invalid name, told apart by the body;
/// 403 rate limited; anything else an API error carrying the body.
pub fn classify_create_repo(code: u16, body: &str) -> (r: Result<(), GitHubError>)
    ensures
        unit_fault_view(r) == create_repo_verdict(code, body@),
{
    if code == 201 {
        Ok(())
    } else if code == 401 {
        Err(GitHubError::AuthRequired)
    } else if code == 422 {
        if contains_text(body, "name already exists") {
            Err(GitHubError::RepoExists)
        } else {
            Err(GitHubError::InvalidName)
        }
    } else if code == 403 {
        Err(GitHubError::RateLimited)
    } else {
        Err(GitHubError::ApiError(String::from_str(body)))
    }
}

pub open spec fn file_lookup_verdict(code: u16, body: Seq<char>) -> Result<bool, GitHubFault> {
    if code == 200 {
        Ok(true)
    } else if code == 404 {
        Ok(false)
    } else if code == 401 {
        Err(GitHubFault::AuthRequired)
    } else {
        Err(GitHubFault::ApiError(body))
    }
}

pub open spec fn bool_fault_view(r: Result<bool, GitHubError>) -> Result<bool, GitHubFault> {
    match r {
        Ok(b) => Ok(b),
        Err(e) => Err(e@),
    }
}

/// What the answer to a file lookup means: `Ok(true)` the file is there,
/// `Ok(false)` it is not.
pub fn classify_file_lookup(code: u16, body: &str) -> (r: Result<bool, GitHubError>)
    ensures
        bool_fault_view(r) == file_lookup_verdict(code, body@),
{
    if code == 200 {
        Ok(true)
    } else if code == 404 {
        Ok(false)
    } else if code == 401 {
        Err(GitHubError::AuthRequired)
    } else {
        Err(GitHubError::ApiError(String::from_str(body)))
    }
}

pub open spec fn file_write_verdict(code: u16, body: Seq<char>) -> Result<(), GitHubFault> {
    if code == 201 || code == 200 {
        Ok(())
    } else if code == 401 {
        Err(GitHubFault::AuthRequired)
    } else if code == 422 {
        Err(GitHubFault::ApiError("File operation failed: "@ + body))
    } else {
        Err(GitHubFault::ApiError(body))
    }
}

/// What the answer to a file write means.
pub fn classify_file_write(code: u16, body: &str) -> (r: Result<(), GitHubError>)
    ensures
        unit_fault_view(r) == file_write_verdict(code, body@),
{
    if code == 201 || code == 200 {
        Ok(())
    } else if code == 401 {
        Err(GitHubError::AuthRequired)
    } else if code == 422 {
        Err(GitHubError::ApiError(join2("File operation failed: ", body)))
    } else {
        Err(GitHubError::ApiError(String::from_str(body)))
    }
}

/// What the answer to a user lookup means before its body is read: only a
/// refused credential is an error.
pub fn classify_user_lookup(code: u16) -> (r: Result<(), GitHubError>)
    ensures
        unit_fault_view(r) == (if code == 401 {
            Err::<(), GitHubFault>(GitHubFault::AuthRequired)
        } else {
            Ok(())
        }),
{
    if code == 401 {
        Err(GitHubError::AuthRequired)
    } else {
        Ok(())
    }
}

/// The package ecosystems whose names are reserved by a repository holding
/// a manifest.
#[derive(Clone, Copy, Debug, PartialEq, Eq, Structural)]
pub enum ManifestType {
    Npm,
    Crates,
    PyPi,
}

pub open spec fn manifest_filename(m: ManifestType) -> Seq<char> {
    match m {
        ManifestType::Npm => "package.json"@,
        ManifestType::Crates => "Cargo.toml"@,
        ManifestType::PyPi => "pyproject.toml"@,
    }
}

pub open spec fn publish_command(m: ManifestType) -> Seq<char> {
    match m {
        ManifestType::Npm => "npm publish"@,
        ManifestType::Crates => "cargo publish"@,
        ManifestType::PyPi => "twine upload"@,
    }
}

/// The manifest of a placeholder package called `name`.
pub open spec fn manifest_text(m: ManifestType, name: Seq<char>, description: Seq<char>) -> Seq<char> {
    match m {
        ManifestType::Npm => "{\n  \"name\": \""@ + name + "\",\n  \"version\": \"0.0.1\",\n  \"description\": \""@
            + description
            + "\",\n  \"main\": \"index.js\",\n  \"scripts\": {\n    \"test\": \"echo \\\"Error: no test specified\\\" && exit 1\"\n  },\n  \"keywords\": [],\n  \"author\": \"\",\n  \"license\": \"MIT\"\n}\n"@,
        ManifestType::Crates => "[package]\nname = \""@ + name + "\"\nversion = \"0.0.1\"\nedition = \"2021\"\ndescription = \""@
            + description + "\"\nlicense = \"MIT\"\n\n[dependencies]\n"@,
        ManifestType::PyPi => "[build-system]\nrequires = [\"setuptools>=61.0\"]\nbuild-backend = \"setuptools.build_meta\"\n\n[project]\nname = \""@
            + name + "\"\nversion = \"0.0.1\"\ndescription = \""@ + description
            + "\"\nreadme = \"README.md\"\nlicense = {text = \"MIT\"}\nrequires-python = \">=3.8\"\nclassifiers = [\n    \"Programming Language :: Python :: 3\",\n    \"License :: OSI Approved :: MIT License\",\n    \"Operating System :: OS Independent\",\n]\n\n[project.urls]\nHomepage = \"https://github.com/OWNER/"@
            + name + "\"\n"@,
    }
}

impl ManifestType {
    /// The file the manifest is stored under.
    pub fn filename(&self) -> (r: &'static str)
        ensures
            r@ == manifest_filename(*self),
    {
        match self {
            ManifestType::Npm => "package.json",
            ManifestType::Crates => "Cargo.toml",
            ManifestType::PyPi => "pyproject.toml",
        }
    }

    /// The command that later publishes the real package.
    pub fn publish_command(&self) -> (r: &'static str)
        ensures
            r@ == publish_command(*self),
    {
        match self {
            ManifestType::Npm => "npm publish",
            ManifestType::Crates => "cargo publish",
            ManifestType::PyPi => "twine upload",
        }
    }

    /// The manifest of a placeholder package `name` with `description`.
    pub fn generate_content(&self, name: &str, description: &str) -> (r: String)
        ensures
            r@ == manifest_text(*self, name@, description@),
    {
        let mut s: String;
        match self {
            ManifestType::Npm => {
                s = String::from_str("{\n  \"name\": \"");
                s.append(name);
                s.append("\",\n  \"version\": \"0.0.1\",\n  \"description\": \"");
                s.append(description);
                s.append(
                    "\",\n  \"main\": \"index.js\",\n  \"scripts\": {\n    \"test\": \"echo \\\"Error: no test specified\\\" && exit 1\"\n  },\n  \"keywords\": [],\n  \"author\": \"\",\n  \"license\": \"MIT\"\n}\n",
                );
            },
            ManifestType::Crates => {
                s = String::from_str("[package]\nname = \"");
                s.append(name);
                s.append("\"\nversion = \"0.0.1\"\nedition = \"2021\"\ndescription = \"");
                s.append(description);
                s.append("\"\nlicense = \"MIT\"\n\n[dependencies]\n");
            },
            ManifestType::PyPi => {
                s = String::from_str(
                    "[build-system]\nrequires = [\"setuptools>=61.0\"]\nbuild-backend = \"setuptools.build_meta\"\n\n[project]\nname = \"",
                );
                s.append(name);
                s.append("\"\nversion = \"0.0.1\"\ndescription = \"");
                s.append(description);
                s.append(
                    "\"\nreadme = \"README.md\"\nlicense = {text = \"MIT\"}\nrequires-python = \">=3.8\"\nclassifiers = [\n    \"Programming Language :: Python :: 3\",\n    \"License :: OSI Approved :: MIT License\",\n    \"Operating System :: OS Independent\",\n]\n\n[project.urls]\nHomepage = \"https://github.com/OWNER/",
                );
                s.append(name);
                s.append("\"\n");
            },
        }
        s
    }
}

/// Standard base64 (padded) of a byte string, as the base64 crate gives it.
pub uninterp spec fn base64_of(bytes: Seq<u8>) -> Seq<char>;

/// Relies on base64's `general_purpose::STANDARD.encode`: the padded
/// standard-alphabet encoding of the text's bytes, four characters for each
/// started group of three bytes (`encoded_len` with padding). It panics only
/// when that length overflows `usize`, which the bound on the length excludes.
#[verifier::external_body]
fn encode_base64(text: &str) -> (r: String)
    requires
        text.spec_bytes().len() <= usize::MAX / 2,
    ensures
        r@ == base64_of(text.spec_bytes()),
        r@.len() == 4 * ((text.spec_bytes().len() + 2) / 3),
{
    base64::engine::general_purpose::STANDARD.encode(text)
}

/// The body of a file upload: the text in base64, or `None` for a text too
/// long to encode.
pub fn encode_upload(text: &str) -> (r: Option<String>)
    ensures
        match r {
            Some(e) => text.spec_bytes().len() <= usize::MAX / 2 && e@ == base64_of(text.spec_bytes()),
            None => text.spec_bytes().len() > usize::MAX / 2,
        },
{
    let bytes = text.as_bytes();
    if bytes.len() <= usize::MAX / 2 {
        Some(encode_base64(text))
    } else {
        None
    }
}

} // verus!
