use crate::config::{Config, RegistrySettings};
use crate::registration::{verdict_status, RegistrationResult};
use crate::registry::{AvailabilityResult, RegistryType};
use crate::text::{pop_char, push_char};
use vstd::prelude::*;
use vstd::string::*;

verus! {

/// The screen the session shows.
#[derive(Clone, Copy, Debug, PartialEq, Eq, Structural)]
pub enum Screen {
    Search,
    Register,
    Settings,
}

/// Whether keys go to the search text or drive the session.
#[derive(Clone, Copy, Debug, PartialEq, Eq, Structural)]
pub enum InputMode {
    Normal,
    Editing,
}

/// A key press, as far as the session reads it.
#[derive(Clone, Copy, Debug, PartialEq, Eq, Structural)]
pub enum Key {
    Char(char),
    Enter,
    Esc,
    Backspace,
    Tab,
    Up,
    Down,
    Other,
}

/// Work the session hands to the outside after a key press.
pub enum Command {
    Nothing,
    /// Run a search for `query` under `settings`; its results are committed
    /// back with `generation`.
    StartSearch { generation: u64, query: String, settings: RegistrySettings },
    /// Run a registration of `name` on `kind`; its result is committed back.
    Register { kind: RegistryType, name: String },
    /// Persist `config` (a failure to do so is not reported back).
    SaveConfig { config: Config },
}

/// The session state: the one value that the event loop and the background
/// tasks share.
pub struct App {
    pub config: Config,
    pub screen: Screen,
    pub should_quit: bool,
    pub search_input: String,
    pub search_results: Vec<AvailabilityResult>,
    pub is_searching: bool,
    pub search_generation: u64,
    pub selected_registry: usize,
    pub register_status: Option<String>,
    pub is_registering: bool,
    pub selected_setting: usize,
    pub show_help: bool,
    pub input_mode: InputMode,
}

/// The outcomes that say the name is free, in order.
pub open spec fn available_of(rs: Seq<AvailabilityResult>) -> Seq<AvailabilityResult>
    decreases rs.len(),
{
    if rs.len() == 0 {
        Seq::empty()
    } else {
        let p = available_of(rs.drop_last());
        if rs.last().available == Some(true) {
            p.push(rs.last())
        } else {
            p
        }
    }
}

pub proof fn lemma_available_of_free(rs: Seq<AvailabilityResult>)
    ensures
        forall|i: int| 0 <= i < available_of(rs).len() ==> (#[trigger] available_of(rs)[i]).available == Some(true),
        available_of(rs).len() <= rs.len(),
    decreases rs.len(),
{
    if rs.len() > 0 {
        lemma_available_of_free(rs.drop_last());
    }
}

/// The register selection points into the free entries (or is 0 when
/// there are none).
pub open spec fn selection_ok(a: App) -> bool {
    a.selected_registry < available_of(a.search_results@).len() || a.selected_registry == 0
}

/// The next screen in the cycle Search, Register, Settings.
pub open spec fn next_screen(s: Screen) -> Screen {
    match s {
        Screen::Search => Screen::Register,
        Screen::Register => Screen::Settings,
        Screen::Settings => Screen::Search,
    }
}

/// The selection of the register list moved up by one, where possible.
pub open spec fn selection_up(a: App) -> App {
    if available_of(a.search_results@).len() > 0 && a.selected_registry > 0 {
        App { selected_registry: (a.selected_registry - 1) as usize, ..a }
    } else {
        a
    }
}

/// The selection of the register list moved down by one, where possible.
pub open spec fn selection_down(a: App) -> App {
    if available_of(a.search_results@).len() > 0 && a.selected_registry + 1 < available_of(a.search_results@).len() {
        App { selected_registry: (a.selected_registry + 1) as usize, ..a }
    } else {
        a
    }
}

/// The index a selection takes in a list of `n` entries.
pub open spec fn clamp_index(i: int, n: int) -> int {
    if n == 0 {
        0
    } else if i >= n {
        n - 1
    } else {
        i
    }
}

pub open spec fn next_generation(g: u64) -> u64 {
    if g == u64::MAX {
        0
    } else {
        (g + 1) as u64
    }
}

/// Number of switches on the settings screen.
pub const SETTING_COUNT: usize = 8;

/// The kind each row of the settings screen switches.
pub open spec fn setting_kind(i: int) -> Option<RegistryType> {
    if i == 0 {
        Some(RegistryType::Npm)
    } else if i == 1 {
        Some(RegistryType::Crates)
    } else if i == 2 {
        Some(RegistryType::PyPi)
    } else if i == 3 {
        Some(RegistryType::Brew)
    } else if i == 4 {
        Some(RegistryType::Flatpak)
    } else if i == 5 {
        Some(RegistryType::Debian)
    } else if i == 6 {
        Some(RegistryType::DevDomain)
    } else if i == 7 {
        Some(RegistryType::GitHub)
    } else {
        None
    }
}

fn setting_kind_at(i: usize) -> (r: Option<RegistryType>)
    ensures
        r == setting_kind(i as int),
{
    if i == 0 {
        Some(RegistryType::Npm)
    } else if i == 1 {
        Some(RegistryType::Crates)
    } else if i == 2 {
        Some(RegistryType::PyPi)
    } else if i == 3 {
        Some(RegistryType::Brew)
    } else if i == 4 {
        Some(RegistryType::Flatpak)
    } else if i == 5 {
        Some(RegistryType::Debian)
    } else if i == 6 {
        Some(RegistryType::DevDomain)
    } else if i == 7 {
        Some(RegistryType::GitHub)
    } else {
        None
    }
}

/// The settings after the switch of row `i` was flipped.
pub open spec fn toggled_row(c: Config, i: int, new_c: Config) -> bool {
    match setting_kind(i) {
        Some(k) => {
            &&& crate::config::enabled(new_c.registries, k) == !crate::config::enabled(c.registries, k)
            &&& forall|j: RegistryType|
                j != k ==> #[trigger] crate::config::enabled(new_c.registries, j) == crate::config::enabled(
                    c.registries,
                    j,
                )
        },
        None => new_c == c,
    }
}

/// A key handled the same way on every screen.
pub open spec fn is_global_key(a: App, key: Key) -> bool {
    ||| key == Key::Esc
    ||| a.input_mode == InputMode::Normal && (key == Key::Char('q') || key == Key::Char('?') || key == Key::Tab
        || key == Key::Char('1') || key == Key::Char('2') || key == Key::Char('3'))
}

/// What a global key does.
pub open spec fn global_effect(a: App, key: Key) -> App {
    if key == Key::Esc {
        if a.show_help {
            App { show_help: false, ..a }
        } else if a.input_mode == InputMode::Editing {
            App { input_mode: InputMode::Normal, ..a }
        } else {
            App { should_quit: true, ..a }
        }
    } else if key == Key::Char('q') {
        App { should_quit: true, ..a }
    } else if key == Key::Char('?') {
        App { show_help: !a.show_help, ..a }
    } else if key == Key::Tab {
        App { screen: next_screen(a.screen), ..a }
    } else if key == Key::Char('1') {
        App { screen: Screen::Search, ..a }
    } else if key == Key::Char('2') {
        App { screen: Screen::Register, ..a }
    } else {
        App { screen: Screen::Settings, ..a }
    }
}

pub open spec fn is_busy(a: App) -> bool {
    a.is_searching || a.is_registering
}

/// What a key does on the search screen.
pub open spec fn search_key_effect(a: App, b: App, key: Key, cmd: Command) -> bool {
    if a.input_mode == InputMode::Normal {
        &&& cmd is Nothing
        &&& b == if key == Key::Char('i') || key == Key::Char('e') || key == Key::Enter {
            App { input_mode: InputMode::Editing, ..a }
        } else if key == Key::Up {
            selection_up(a)
        } else if key == Key::Down {
            selection_down(a)
        } else {
            a
        }
    } else {
        match key {
            Key::Enter => if a.search_input@.len() > 0 && !a.is_searching {
                &&& b == App {
                    is_searching: true,
                    search_generation: next_generation(a.search_generation),
                    input_mode: InputMode::Normal,
                    ..a
                }
                &&& cmd is StartSearch
                &&& cmd->generation == b.search_generation
                &&& cmd->query@ == a.search_input@
                &&& cmd->settings == a.config.registries
            } else {
                &&& b == App { input_mode: InputMode::Normal, ..a }
                &&& cmd is Nothing
            },
            Key::Char(c) => {
                &&& b.search_input@ == a.search_input@.push(c)
                &&& b == App { search_input: b.search_input, ..a }
                &&& cmd is Nothing
            },
            Key::Backspace => {
                &&& b.search_input@ == if a.search_input@.len() > 0 {
                    a.search_input@.drop_last()
                } else {
                    a.search_input@
                }
                &&& b == App { search_input: b.search_input, ..a }
                &&& cmd is Nothing
            },
            _ => b == a && cmd is Nothing,
        }
    }
}

/// What the commit key does on the register screen: the selected free
/// entry is handed to a registration, or a status says why not.
pub open spec fn register_commit_effect(a: App, b: App, cmd: Command) -> bool {
    let av = available_of(a.search_results@);
    if a.selected_registry >= av.len() {
        &&& b.register_status is Some
        &&& b.register_status->0@ == "No registry selected"@
        &&& b == App { register_status: b.register_status, ..a }
        &&& cmd is Nothing
    } else {
        &&& b == App { is_registering: true, register_status: None, ..a }
        &&& cmd is Register
        &&& cmd->kind == av[a.selected_registry as int].registry
        &&& cmd->name@ == av[a.selected_registry as int].name@
    }
}

/// What a key does on the register screen.
pub open spec fn register_key_effect(a: App, b: App, key: Key, cmd: Command) -> bool {
    if key == Key::Enter {
        register_commit_effect(a, b, cmd)
    } else {
        &&& cmd is Nothing
        &&& b == if key == Key::Up {
            selection_up(a)
        } else if key == Key::Down {
            selection_down(a)
        } else {
            a
        }
    }
}

/// What a key does on the settings screen.
pub open spec fn settings_key_effect(a: App, b: App, key: Key, cmd: Command) -> bool {
    if key == Key::Up {
        &&& cmd is Nothing
        &&& b == if a.selected_setting > 0 {
            App { selected_setting: (a.selected_setting - 1) as usize, ..a }
        } else {
            a
        }
    } else if key == Key::Down {
        &&& cmd is Nothing
        &&& b == if a.selected_setting + 1 < SETTING_COUNT {
            App { selected_setting: (a.selected_setting + 1) as usize, ..a }
        } else {
            a
        }
    } else if key == Key::Enter || key == Key::Char(' ') {
        &&& toggled_row(a.config, a.selected_setting as int, b.config)
        &&& b == App { config: b.config, ..a }
        &&& cmd is SaveConfig
        &&& cmd->config == b.config
    } else {
        b == a && cmd is Nothing
    }
}

/// Symbol of an outcome: free, taken or unknown.
pub open spec fn status_symbol(available: Option<bool>) -> Seq<char> {
    match available {
        Some(true) => "\u{2713}"@,
        Some(false) => "\u{2717}"@,
        None => "?"@,
    }
}

impl App {
    /// A fresh session over `config`: search screen, editing, nothing found.
    pub fn new(config: Config) -> (r: App)
        ensures
            r.config == config,
            r.screen == Screen::Search,
            r.input_mode == InputMode::Editing,
            r.search_input@.len() == 0,
            r.search_results@.len() == 0,
            !r.should_quit && !r.is_searching && !r.is_registering && !r.show_help,
            r.selected_registry == 0 && r.selected_setting == 0,
            r.register_status is None,
            r.search_generation == 0,
            selection_ok(r),
    {
        App {
            config,
            screen: Screen::Search,
            should_quit: false,
            search_input: String::new(),
            search_results: Vec::new(),
            is_searching: false,
            search_generation: 0,
            selected_registry: 0,
            register_status: None,
            is_registering: false,
            selected_setting: 0,
            show_help: false,
            input_mode: InputMode::Editing,
        }
    }

    /// Copies of the outcomes that say the name is free, in order.
    pub fn get_available_registries(&self) -> (r: Vec<AvailabilityResult>)
        ensures
            r@.len() == available_of(self.search_results@).len(),
            forall|i: int| 0 <= i < r@.len() ==> #[trigger] r@[i]@ == available_of(self.search_results@)[i]@,
    {
        let rs = &self.search_results;
        let mut out: Vec<AvailabilityResult> = Vec::new();
        let mut i: usize = 0;
        while i < rs.len()
            invariant
                i <= rs@.len(),
                out@.len() == available_of(rs@.subrange(0, i as int)).len(),
                forall|k: int|
                    0 <= k < out@.len() ==> #[trigger] out@[k]@ == available_of(rs@.subrange(0, i as int))[k]@,
            decreases rs@.len() - i,
        {
            assert(rs@.subrange(0, i + 1).drop_last() =~= rs@.subrange(0, i as int));
            if rs[i].available == Some(true) {
                out.push(rs[i].duplicate());
            }
            i = i + 1;
        }
        assert(rs@.subrange(0, rs@.len() as int) =~= rs@);
        out
    }

    /// How many outcomes say the name is free.
    pub fn available_count(&self) -> (r: usize)
        ensures
            r == available_of(self.search_results@).len(),
    {
        let rs = &self.search_results;
        let mut n: usize = 0;
        let mut i: usize = 0;
        while i < rs.len()
            invariant
                i <= rs@.len(),
                n == available_of(rs@.subrange(0, i as int)).len(),
                n <= i,
            decreases rs@.len() - i,
        {
            assert(rs@.subrange(0, i + 1).drop_last() =~= rs@.subrange(0, i as int));
            if rs[i].available == Some(true) {
                n = n + 1;
            }
            i = i + 1;
        }
        assert(rs@.subrange(0, rs@.len() as int) =~= rs@);
        n
    }

    /// Moves to the next screen in the cycle.
    pub fn toggle_screen(&mut self)
        ensures
            *final(self) == (App { screen: next_screen(old(self).screen), ..*old(self) }),
    {
        self.screen = match self.screen {
            Screen::Search => Screen::Register,
            Screen::Register => Screen::Settings,
            Screen::Settings => Screen::Search,
        };
    }

    /// Number of rows of the settings screen.
    pub fn registry_count(&self) -> (r: usize)
        ensures
            r == SETTING_COUNT,
    {
        SETTING_COUNT
    }

    /// Flips the switch of the selected settings row.
    pub fn toggle_selected_registry(&mut self)
        ensures
            toggled_row(old(self).config, old(self).selected_setting as int, final(self).config),
            *final(self) == (App { config: final(self).config, ..*old(self) }),
    {
        match setting_kind_at(self.selected_setting) {
            Some(k) => self.config.registries.toggle(k),
            None => {},
        }
    }

    /// Moves the register selection up by one, where possible.
    pub fn select_previous(&mut self)
        ensures
            *final(self) == selection_up(*old(self)),
            selection_ok(*old(self)) ==> selection_ok(*final(self)),
    {
        let n = self.available_count();
        if n > 0 && self.selected_registry > 0 {
            self.selected_registry = self.selected_registry - 1;
        }
    }

    /// Moves the register selection down by one, where possible.
    pub fn select_next(&mut self)
        ensures
            *final(self) == selection_down(*old(self)),
            selection_ok(*old(self)) ==> selection_ok(*final(self)),
    {
        let n = self.available_count();
        if n > 0 && self.selected_registry < n - 1 {
            self.selected_registry = self.selected_registry + 1;
        }
    }

    /// The symbol an outcome is listed with.
    pub fn get_status_symbol(result: &AvailabilityResult) -> (r: &'static str)
        ensures
            r@ == status_symbol(result.available),
    {
        match result.available {
            Some(true) => "\u{2713}",
            Some(false) => "\u{2717}",
            None => "?",
        }
    }

    /// A key on the search screen.
    pub fn handle_search_input(&mut self, key: Key) -> (cmd: Command)
        ensures
            search_key_effect(*old(self), *final(self), key, cmd),
    {
        match self.input_mode {
            InputMode::Normal => {
                match key {
                    Key::Char('i') | Key::Char('e') | Key::Enter => self.input_mode = InputMode::Editing,
                    Key::Up => self.select_previous(),
                    Key::Down => self.select_next(),
                    _ => {},
                }
                Command::Nothing
            },
            InputMode::Editing => match key {
                Key::Enter => {
                    if !self.search_input.as_str().is_empty() && !self.is_searching {
                        self.is_searching = true;
                        self.search_generation = self.search_generation.wrapping_add(1);
                        self.input_mode = InputMode::Normal;
                        Command::StartSearch {
                            generation: self.search_generation,
                            query: self.search_input.clone(),
                            settings: self.config.registries,
                        }
                    } else {
                        self.input_mode = InputMode::Normal;
                        Command::Nothing
                    }
                },
                Key::Char(c) => {
                    push_char(&mut self.search_input, c);
                    Command::Nothing
                },
                Key::Backspace => {
                    pop_char(&mut self.search_input);
                    Command::Nothing
                },
                _ => Command::Nothing,
            },
        }
    }

    /// A key on the register screen.
    pub fn handle_register_input(&mut self, key: Key) -> (cmd: Command)
        ensures
            register_key_effect(*old(self), *final(self), key, cmd),
    {
        match key {
            Key::Up => {
                self.select_previous();
                Command::Nothing
            },
            Key::Down => {
                self.select_next();
                Command::Nothing
            },
            Key::Enter => self.begin_registration(),
            _ => Command::Nothing,
        }
    }

    fn begin_registration(&mut self) -> (cmd: Command)
        ensures
            register_commit_effect(*old(self), *final(self), cmd),
    {
        let available = self.get_available_registries();
        proof {
            lemma_available_of_free(self.search_results@);
        }
        if self.selected_registry >= available.len() {
            self.register_status = Some(String::from_str("No registry selected"));
            return Command::Nothing;
        }
        let chosen = &available[self.selected_registry];
        assert(available@[self.selected_registry as int]@ == available_of(
            self.search_results@,
        )[self.selected_registry as int]@);
        self.is_registering = true;
        self.register_status = None;
        Command::Register { kind: chosen.registry, name: chosen.name.clone() }
    }

    /// A key on the settings screen.
    pub fn handle_settings_input(&mut self, key: Key) -> (cmd: Command)
        ensures
            settings_key_effect(*old(self), *final(self), key, cmd),
    {
        match key {
            Key::Up => {
                if self.selected_setting > 0 {
                    self.selected_setting = self.selected_setting - 1;
                }
                Command::Nothing
            },
            Key::Down => {
                if self.selected_setting < SETTING_COUNT - 1 {
                    self.selected_setting = self.selected_setting + 1;
                }
                Command::Nothing
            },
            Key::Enter | Key::Char(' ') => {
                self.toggle_selected_registry();
                Command::SaveConfig { config: self.config }
            },
            _ => Command::Nothing,
        }
    }

    /// Applies one key press. Keys common to all screens are handled first;
    /// while a search or a registration runs, every other key is ignored, so
    /// no second search or registration starts.
    pub fn handle_key(&mut self, key: Key) -> (cmd: Command)
        ensures
            is_global_key(*old(self), key) ==> *final(self) == global_effect(*old(self), key) && cmd is Nothing,
            !is_global_key(*old(self), key) && is_busy(*old(self)) ==> *final(self) == *old(self) && cmd is Nothing,
            !is_global_key(*old(self), key) && !is_busy(*old(self)) ==> match old(self).screen {
                Screen::Search => search_key_effect(*old(self), *final(self), key, cmd),
                Screen::Register => register_key_effect(*old(self), *final(self), key, cmd),
                Screen::Settings => settings_key_effect(*old(self), *final(self), key, cmd),
            },
            old(self).is_searching ==> !(cmd is StartSearch) && final(self).is_searching
                && final(self).search_generation == old(self).search_generation,
            is_busy(*old(self)) ==> !(cmd is StartSearch) && !(cmd is Register),
            selection_ok(*old(self)) ==> selection_ok(*final(self)),
    {
        let is_editing = self.input_mode == InputMode::Editing;
        let is_busy = self.is_searching || self.is_registering;
        match key {
            Key::Esc => {
                if self.show_help {
                    self.show_help = false;
                } else if is_editing {
                    self.input_mode = InputMode::Normal;
                } else {
                    self.should_quit = true;
                }
                return Command::Nothing;
            },
            Key::Char('q') if !is_editing => {
                self.should_quit = true;
                return Command::Nothing;
            },
            Key::Char('?') if !is_editing => {
                self.show_help = !self.show_help;
                return Command::Nothing;
            },
            Key::Tab if !is_editing => {
                self.toggle_screen();
                return Command::Nothing;
            },
            Key::Char('1') if !is_editing => {
                self.screen = Screen::Search;
                return Command::Nothing;
            },
            Key::Char('2') if !is_editing => {
                self.screen = Screen::Register;
                return Command::Nothing;
            },
            Key::Char('3') if !is_editing => {
                self.screen = Screen::Settings;
                return Command::Nothing;
            },
            _ => {},
        }
        if is_busy {
            return Command::Nothing;
        }
        match self.screen {
            Screen::Search => self.handle_search_input(key),
            Screen::Register => self.handle_register_input(key),
            Screen::Settings => self.handle_settings_input(key),
        }
    }

    /// Takes the results of the search launched with `generation`. Results
    /// of an older search are dropped. Taken results replace the previous
    /// ones wholesale, end the search, and bring the register selection back
    /// within the free entries.
    pub fn commit_search(&mut self, generation: u64, results: Vec<AvailabilityResult>) -> (taken: bool)
        ensures
            taken == (generation == old(self).search_generation),
            !taken ==> *final(self) == *old(self),
            taken ==> final(self).search_results@ == results@ && *final(self) == (App {
                search_results: final(self).search_results,
                is_searching: false,
                selected_registry: final(self).selected_registry,
                ..*old(self)
            }) && final(self).selected_registry == clamp_index(
                old(self).selected_registry as int,
                available_of(results@).len() as int,
            ),
            taken ==> selection_ok(*final(self)),
    {
        if generation != self.search_generation {
            return false;
        }
        self.search_results = results;
        self.is_searching = false;
        let n = self.available_count();
        if n == 0 {
            self.selected_registry = 0;
        } else if self.selected_registry >= n {
            self.selected_registry = n - 1;
        }
        true
    }

    /// Takes the outcome of the registration that ran: it becomes the
    /// register status, and the registration is over.
    pub fn finish_registration(&mut self, result: &RegistrationResult)
        ensures
            final(self).register_status is Some,
            final(self).register_status->0@ == verdict_status(result@),
            *final(self) == (App { register_status: final(self).register_status, is_registering: false, ..*old(self) }),
    {
        self.register_status = Some(result.status_text());
        self.is_registering = false;
    }
}

} // verus!
