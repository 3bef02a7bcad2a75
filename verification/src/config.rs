//! The settings of the program, and how they are kept from one run to the next.
use vstd::prelude::*;
use vstd::string::StringExecFns;
use crate::decimal::{numeral_text, parse_port};

verus! {

/// Where the game looks for integration scripts, where the user has not said otherwise.
pub const DEFAULT_GAME_DIR: &'static str =
    "C:\\Program Files (x86)\\Steam\\steamapps\\common\\Counter-Strike Global Offensive\\game\\csgo\\cfg";

/// The address of the device server, where the user has not said otherwise.
pub const DEFAULT_SERVER_URL: &'static str = "ws://127.0.0.1:12345";

/// The port for messages from the game, where the user has not said otherwise.
pub const DEFAULT_INTEGRATION_PORT: u16 = 42069;

/// The settings of the program.
#[derive(Debug, PartialEq, Eq)]
pub struct Config {
    /// The address of the device server.
    pub buttplug_server_url: String,
    /// The port on which the game reports its state.
    pub cs_integration_port: u16,
    /// The directory for integration scripts, where the user has picked one.
    pub cs_script_dir: Option<String>,
}

/// The settings, with their texts as sequences of characters.
pub struct ConfigState {
    pub buttplug_server_url: Seq<char>,
    pub cs_integration_port: u16,
    pub cs_script_dir: Option<Seq<char>>,
}

/// The characters of a text that may be missing.
pub open spec fn text_of(text: Option<String>) -> Option<Seq<char>> {
    match text {
        Some(text) => Some(text@),
        None => None,
    }
}

impl View for Config {
    type V = ConfigState;

    open spec fn view(&self) -> ConfigState {
        ConfigState {
            buttplug_server_url: self.buttplug_server_url@,
            cs_integration_port: self.cs_integration_port,
            cs_script_dir: text_of(self.cs_script_dir),
        }
    }
}

/// The settings of a user who has not changed any.
pub open spec fn default_config() -> ConfigState {
    ConfigState {
        buttplug_server_url: DEFAULT_SERVER_URL@,
        cs_integration_port: DEFAULT_INTEGRATION_PORT,
        cs_script_dir: None,
    }
}

impl Default for Config {
    fn default() -> (config: Config)
        ensures
            config@ == default_config(),
    {
        Config {
            buttplug_server_url: DEFAULT_SERVER_URL.to_string(),
            cs_integration_port: DEFAULT_INTEGRATION_PORT,
            cs_script_dir: None,
        }
    }
}

impl Clone for Config {
    fn clone(&self) -> (config: Config)
        ensures
            config@ == self@,
    {
        Config {
            buttplug_server_url: self.buttplug_server_url.clone(),
            cs_integration_port: self.cs_integration_port,
            cs_script_dir: match &self.cs_script_dir {
                Some(dir) => Some(dir.clone()),
                None => None,
            },
        }
    }
}

/// A setting that is kept from one run to the next.
#[derive(Clone, Copy, Debug, PartialEq, Eq, Structural)]
pub enum Setting {
    ScriptDir,
    IntegrationPort,
    ServerUrl,
}

/// The name under which a setting is stored.
pub open spec fn name_of(setting: Setting) -> Seq<char> {
    match setting {
        Setting::ScriptDir => "CS2_BP_DIR_PATH"@,
        Setting::IntegrationPort => "CS2_BP_PORT"@,
        Setting::ServerUrl => "CS2_BP_INTIFACE_ADDR"@,
    }
}

impl Setting {
    /// The name under which the setting is stored.
    pub fn name(self) -> (name: &'static str)
        ensures
            name@ == name_of(self),
    {
        match self {
            Setting::ScriptDir => "CS2_BP_DIR_PATH",
            Setting::IntegrationPort => "CS2_BP_PORT",
            Setting::ServerUrl => "CS2_BP_INTIFACE_ADDR",
        }
    }
}

/// A text that is to be stored for a setting.
#[derive(Clone, Debug, PartialEq, Eq)]
pub struct Saved {
    pub setting: Setting,
    pub text: String,
}

/// What is to be stored, where anything is.
pub open spec fn saved(save: Option<Saved>) -> Option<(Setting, Seq<char>)> {
    match save {
        Some(save) => Some((save.setting, save.text@)),
        None => None,
    }
}

/// The settings that the texts in the store give: what is not stored, or is stored as something
/// that is no port number, stays as it is by default.
pub open spec fn restored(stored: Map<Setting, Seq<char>>) -> ConfigState {
    ConfigState {
        buttplug_server_url: if stored.dom().contains(Setting::ServerUrl) {
            stored[Setting::ServerUrl]
        } else {
            DEFAULT_SERVER_URL@
        },
        cs_integration_port: if stored.dom().contains(Setting::IntegrationPort)
            && crate::decimal::port_of(stored[Setting::IntegrationPort]) is Some {
            crate::decimal::port_of(stored[Setting::IntegrationPort])->0
        } else {
            DEFAULT_INTEGRATION_PORT
        },
        cs_script_dir: if stored.dom().contains(Setting::ScriptDir) {
            Some(stored[Setting::ScriptDir])
        } else {
            None
        },
    }
}

/// The store that holds a text for each of the settings for which there is one.
pub open spec fn store_of(
    dir: Option<String>,
    port: Option<String>,
    url: Option<String>,
) -> Map<Setting, Seq<char>> {
    Map::new(
        |setting: Setting| match setting {
            Setting::ScriptDir => dir is Some,
            Setting::IntegrationPort => port is Some,
            Setting::ServerUrl => url is Some,
        },
        |setting: Setting| match setting {
            Setting::ScriptDir => dir->0@,
            Setting::IntegrationPort => port->0@,
            Setting::ServerUrl => url->0@,
        },
    )
}

impl Config {
    /// The settings from the texts that were stored for them.
    pub fn restore(dir: Option<String>, port: Option<String>, url: Option<String>) -> (config:
        Config)
        ensures
            config@ == restored(store_of(dir, port, url)),
    {
        let mut config = Config::default();
        if let Some(dir) = dir {
            config.cs_script_dir = Some(dir);
        }
        if let Some(text) = port {
            if let Some(port) = parse_port(text.as_str()) {
                config.cs_integration_port = port;
            }
        }
        if let Some(url) = url {
            config.buttplug_server_url = url;
        }
        config
    }

    /// Takes the directory that the user picked, and says what to store.
    pub fn pick_script_dir(&mut self, path: String) -> (save: Saved)
        ensures
            final(self)@ == (ConfigState { cs_script_dir: Some(path@), ..old(self)@ }),
            (save.setting, save.text@) == (Setting::ScriptDir, path@),
    {
        let text = path.clone();
        self.cs_script_dir = Some(path);
        Saved { setting: Setting::ScriptDir, text }
    }

    /// Takes the address that the user typed, and says what to store. An empty address is not
    /// stored.
    pub fn edit_server_url(&mut self, url: String) -> (save: Option<Saved>)
        ensures
            final(self)@ == (ConfigState { buttplug_server_url: url@, ..old(self)@ }),
            saved(save) == (if url@.len() > 0 {
                Some((Setting::ServerUrl, url@))
            } else {
                None
            }),
    {
        let text = url.clone();
        self.buttplug_server_url = url;
        if text.as_str().is_empty() {
            None
        } else {
            Some(Saved { setting: Setting::ServerUrl, text })
        }
    }

    /// Takes the port that the user typed, and says what to store. What is no port number is
    /// passed over.
    pub fn edit_port(&mut self, typed: &str) -> (save: Option<Saved>)
        ensures
            match crate::decimal::port_of(typed@) {
                Some(port) => {
                    &&& final(self)@ == (ConfigState { cs_integration_port: port, ..old(self)@ })
                    &&& saved(save) == Some(
                        (Setting::IntegrationPort, crate::decimal::numeral(port as nat)),
                    )
                },
                None => {
                    &&& final(self)@ == old(self)@
                    &&& save is None
                },
            },
    {
        match parse_port(typed) {
            Some(port) => {
                self.cs_integration_port = port;
                Some(Saved { setting: Setting::IntegrationPort, text: numeral_text(port as u64) })
            },
            None => None,
        }
    }

    /// The directory for integration scripts: the one that the user picked, or else the usual one.
    pub fn script_dir(&self) -> (dir: String)
        ensures
            dir@ == (match self@.cs_script_dir {
                Some(dir) => dir,
                None => DEFAULT_GAME_DIR@,
            }),
    {
        match &self.cs_script_dir {
            Some(dir) => dir.clone(),
            None => DEFAULT_GAME_DIR.to_string(),
        }
    }

    /// How the directory for integration scripts is shown.
    pub fn script_dir_label(&self) -> (label: String)
        ensures
            label@ == (match self@.cs_script_dir {
                Some(dir) => dir,
                None => "[None]"@,
            }),
    {
        match &self.cs_script_dir {
            Some(dir) => dir.clone(),
            None => "[None]".to_string(),
        }
    }

    /// How the port is shown.
    pub fn port_label(&self) -> (label: String)
        ensures
            label@ == "Advanced: GSI integration port (default 42069): "@ + crate::decimal::numeral(
                self@.cs_integration_port as nat,
            ),
    {
        let mut label = "Advanced: GSI integration port (default 42069): ".to_string();
        label.append(numeral_text(self.cs_integration_port as u64).as_str());
        label
    }
}

/// What the store holds after something has been stored.
pub open spec fn stored_after(
    stored: Map<Setting, Seq<char>>,
    save: Option<(Setting, Seq<char>)>,
) -> Map<Setting, Seq<char>> {
    match save {
        Some((setting, text)) => stored.insert(setting, text),
        None => stored,
    }
}

/// The settings are stored under three different names.
pub proof fn law_setting_names_differ(one: Setting, other: Setting)
    requires
        one != other,
    ensures
        name_of(one) != name_of(other),
{
    reveal_strlit("CS2_BP_DIR_PATH");
    reveal_strlit("CS2_BP_PORT");
    reveal_strlit("CS2_BP_INTIFACE_ADDR");
    assert(name_of(Setting::ScriptDir).len() == 15);
    assert(name_of(Setting::IntegrationPort).len() == 11);
    assert(name_of(Setting::ServerUrl).len() == 20);
}

/// An empty store gives the default settings.
pub proof fn law_nothing_stored_is_default()
    ensures
        restored(Map::empty()) == default_config(),
{
}

/// A directory that the user picks survives a restart, and so does everything else.
pub proof fn law_picked_dir_survives(
    before: ConfigState,
    stored: Map<Setting, Seq<char>>,
    path: Seq<char>,
)
    requires
        restored(stored) == before,
    ensures
        restored(stored_after(stored, Some((Setting::ScriptDir, path)))) == (ConfigState {
            cs_script_dir: Some(path),
            ..before
        }),
{
}

/// An address that the user types survives a restart, unless it is empty.
pub proof fn law_typed_url_survives(
    before: ConfigState,
    stored: Map<Setting, Seq<char>>,
    url: Seq<char>,
)
    requires
        restored(stored) == before,
        url.len() > 0,
    ensures
        restored(stored_after(stored, Some((Setting::ServerUrl, url)))) == (ConfigState {
            buttplug_server_url: url,
            ..before
        }),
{
}

/// A port that the user types survives a restart; what is no port number changes nothing.
pub proof fn law_typed_port_survives(
    before: ConfigState,
    stored: Map<Setting, Seq<char>>,
    port: u16,
)
    requires
        restored(stored) == before,
    ensures
        restored(
            stored_after(
                stored,
                Some((Setting::IntegrationPort, crate::decimal::numeral(port as nat))),
            ),
        ) == (ConfigState { cs_integration_port: port, ..before }),
        restored(stored_after(stored, None)) == before,
{
    crate::decimal::law_port_reads_back(port);
}

} // verus!
