use crate::registry::RegistryType;
use vstd::prelude::*;

verus! {

/// Which registries a search probes: one switch per kind.
#[derive(Clone, Copy, Debug, PartialEq, Eq, Structural)]
pub struct RegistrySettings {
    pub npm: bool,
    pub crates: bool,
    pub pypi: bool,
    pub brew: bool,
    pub flatpak: bool,
    pub debian: bool,
    pub dev_domain: bool,
    pub github: bool,
}

/// The value a missing switch takes: on.
pub fn default_true() -> (r: bool)
    ensures
        r,
{
    true
}

/// Every registry switched on.
pub open spec fn all_enabled() -> RegistrySettings {
    RegistrySettings {
        npm: true,
        crates: true,
        pypi: true,
        brew: true,
        flatpak: true,
        debian: true,
        dev_domain: true,
        github: true,
    }
}

/// The switch of `kind` in `s`.
pub open spec fn enabled(s: RegistrySettings, kind: RegistryType) -> bool {
    match kind {
        RegistryType::Npm => s.npm,
        RegistryType::Crates => s.crates,
        RegistryType::PyPi => s.pypi,
        RegistryType::Brew => s.brew,
        RegistryType::Flatpak => s.flatpak,
        RegistryType::Debian => s.debian,
        RegistryType::DevDomain => s.dev_domain,
        RegistryType::GitHub => s.github,
    }
}

impl Default for RegistrySettings {
    /// Every registry switched on.
    fn default() -> (r: RegistrySettings)
        ensures
            r == all_enabled(),
    {
        RegistrySettings {
            npm: true,
            crates: true,
            pypi: true,
            brew: true,
            flatpak: true,
            debian: true,
            dev_domain: true,
            github: true,
        }
    }
}

impl RegistrySettings {
    /// Whether `kind` is switched on.
    pub fn is_enabled(&self, kind: RegistryType) -> (r: bool)
        ensures
            r == enabled(*self, kind),
    {
        match kind {
            RegistryType::Npm => self.npm,
            RegistryType::Crates => self.crates,
            RegistryType::PyPi => self.pypi,
            RegistryType::Brew => self.brew,
            RegistryType::Flatpak => self.flatpak,
            RegistryType::Debian => self.debian,
            RegistryType::DevDomain => self.dev_domain,
            RegistryType::GitHub => self.github,
        }
    }

    /// Flips the switch of `kind` and leaves the others alone.
    pub fn toggle(&mut self, kind: RegistryType)
        ensures
            enabled(*final(self), kind) == !enabled(*old(self), kind),
            forall|k: RegistryType| k != kind ==> #[trigger] enabled(*final(self), k) == enabled(*old(self), k),
    {
        match kind {
            RegistryType::Npm => self.npm = !self.npm,
            RegistryType::Crates => self.crates = !self.crates,
            RegistryType::PyPi => self.pypi = !self.pypi,
            RegistryType::Brew => self.brew = !self.brew,
            RegistryType::Flatpak => self.flatpak = !self.flatpak,
            RegistryType::Debian => self.debian = !self.debian,
            RegistryType::DevDomain => self.dev_domain = !self.dev_domain,
            RegistryType::GitHub => self.github = !self.github,
        }
    }
}

/// Why a configuration change was refused.
#[derive(Clone, Copy, Debug, PartialEq, Eq, Structural)]
pub enum ConfigError {
    /// Credentials are read from the environment and never stored.
    TokenNotStored,
}

impl ConfigError {
    pub fn message(&self) -> (r: &'static str)
        ensures
            r@ == "GitHub tokens should only be set via GITHUB_TOKEN environment variable for security"@,
    {
        "GitHub tokens should only be set via GITHUB_TOKEN environment variable for security"
    }
}

/// The persisted configuration.
#[derive(Clone, Copy, Debug, PartialEq, Eq, Structural)]
pub struct Config {
    pub registries: RegistrySettings,
}

impl Default for Config {
    /// All registries switched on.
    fn default() -> (r: Config)
        ensures
            r.registries == all_enabled(),
    {
        Config { registries: RegistrySettings::default() }
    }
}

impl Config {
    /// Storing a credential is refused: it is taken from the environment at
    /// the moment it is needed. The configuration is left as it was.
    pub fn set_github_token(&mut self, token: String) -> (r: Result<(), ConfigError>)
        ensures
            r == Err::<(), ConfigError>(ConfigError::TokenNotStored),
            *final(self) == *old(self),
    {
        Err(ConfigError::TokenNotStored)
    }
}

} // verus!
