//! The client's configuration: saved servers, theme and settings, with
//! their defaults.

use vstd::prelude::*;
use crate::ftp::{opt_chars, ProtocolType};
use crate::text::{contains_char, decimal, push_decimal, push_str, str_eq, string_push};

verus! {

/// Main application configuration.
pub struct Config {
    /// Saved server configurations.
    pub servers: Vec<ServerConfig>,
    /// Default local directory for downloads.
    pub default_local_path: Option<String>,
    /// UI theme.
    pub theme: Option<ThemeConfig>,
    /// Application settings.
    pub settings: Option<AppSettings>,
}

/// One saved FTP/FTPS server.
pub struct ServerConfig {
    /// Display name.
    pub name: String,
    /// Host name or IP address, possibly with `:port`.
    pub host: String,
    /// User name for logging in.
    pub username: String,
    /// Password, given at run time and never saved.
    pub password: Option<String>,
    /// Port number.
    pub port: u16,
    /// Protocol.
    pub protocol: ProtocolType,
    /// Whether the connection uses TLS.
    pub use_tls: bool,
    /// Host name to check the TLS certificate against.
    pub tls_hostname: Option<String>,
    /// Passive mode.
    pub passive_mode: bool,
    /// Connection timeout in seconds.
    pub timeout: u64,
}

/// UI theme: a color name for each role.
pub struct ThemeConfig {
    pub primary_color: Option<String>,
    pub accent_color: Option<String>,
    pub background_color: Option<String>,
    pub text_color: Option<String>,
    pub success_color: Option<String>,
    pub error_color: Option<String>,
    pub warning_color: Option<String>,
    pub info_color: Option<String>,
}

/// Application settings.
pub struct AppSettings {
    pub auto_save_last_server: Option<bool>,
    pub default_transfer_mode: Option<String>,
    pub show_hidden_files: Option<bool>,
    pub confirm_overwrite: Option<bool>,
    pub max_concurrent_transfers: Option<usize>,
    pub transfer_buffer_size: Option<usize>,
    pub keep_alive_interval: Option<u64>,
    pub retry_attempts: Option<u32>,
    pub retry_delay: Option<u64>,
}

/// The terminal colors a theme can name.
#[derive(Clone, Copy, Debug, PartialEq, Eq, Structural)]
pub enum ThemeColor {
    Black,
    Red,
    Green,
    Yellow,
    Blue,
    Magenta,
    Cyan,
    Gray,
    DarkGray,
    LightRed,
    LightGreen,
    LightYellow,
    LightBlue,
    LightMagenta,
    LightCyan,
    White,
}

/// The default port: 21.
pub fn default_port() -> (r: u16)
    ensures
        r == 21,
{
    21
}

/// Passive mode is on by default.
pub fn default_passive_mode() -> (r: bool)
    ensures
        r,
{
    true
}

/// The default timeout: 30 seconds.
pub fn default_timeout() -> (r: u64)
    ensures
        r == 30,
{
    30
}

/// The color that a theme entry names; unknown names and missing entries
/// are white.
pub open spec fn color_named(name: Option<Seq<char>>) -> ThemeColor {
    match name {
        None => ThemeColor::White,
        Some(n) => if n == "black"@ {
            ThemeColor::Black
        } else if n == "red"@ {
            ThemeColor::Red
        } else if n == "green"@ {
            ThemeColor::Green
        } else if n == "yellow"@ {
            ThemeColor::Yellow
        } else if n == "blue"@ {
            ThemeColor::Blue
        } else if n == "magenta"@ {
            ThemeColor::Magenta
        } else if n == "cyan"@ {
            ThemeColor::Cyan
        } else if n == "gray"@ {
            ThemeColor::Gray
        } else if n == "dark_gray"@ {
            ThemeColor::DarkGray
        } else if n == "light_red"@ {
            ThemeColor::LightRed
        } else if n == "light_green"@ {
            ThemeColor::LightGreen
        } else if n == "light_yellow"@ {
            ThemeColor::LightYellow
        } else if n == "light_blue"@ {
            ThemeColor::LightBlue
        } else if n == "light_magenta"@ {
            ThemeColor::LightMagenta
        } else if n == "light_cyan"@ {
            ThemeColor::LightCyan
        } else {
            ThemeColor::White
        },
    }
}

/// The color that a theme entry names.
pub fn parse_color(color_str: &Option<String>) -> (r: ThemeColor)
    ensures
        r == color_named(opt_chars(*color_str)),
{
    match color_str {
        None => ThemeColor::White,
        Some(s) => {
            let n = s.as_str();
            if str_eq(n, "black") {
                ThemeColor::Black
            } else if str_eq(n, "red") {
                ThemeColor::Red
            } else if str_eq(n, "green") {
                ThemeColor::Green
            } else if str_eq(n, "yellow") {
                ThemeColor::Yellow
            } else if str_eq(n, "blue") {
                ThemeColor::Blue
            } else if str_eq(n, "magenta") {
                ThemeColor::Magenta
            } else if str_eq(n, "cyan") {
                ThemeColor::Cyan
            } else if str_eq(n, "gray") {
                ThemeColor::Gray
            } else if str_eq(n, "dark_gray") {
                ThemeColor::DarkGray
            } else if str_eq(n, "light_red") {
                ThemeColor::LightRed
            } else if str_eq(n, "light_green") {
                ThemeColor::LightGreen
            } else if str_eq(n, "light_yellow") {
                ThemeColor::LightYellow
            } else if str_eq(n, "light_blue") {
                ThemeColor::LightBlue
            } else if str_eq(n, "light_magenta") {
                ThemeColor::LightMagenta
            } else if str_eq(n, "light_cyan") {
                ThemeColor::LightCyan
            } else {
                ThemeColor::White
            }
        },
    }
}

/// The roles of a theme, in the order `apply_theme` lists them.
pub open spec fn theme_roles() -> Seq<Seq<char>> {
    seq![
        "primary"@,
        "accent"@,
        "background"@,
        "text"@,
        "success"@,
        "error"@,
        "warning"@,
        "info"@,
    ]
}

impl ThemeConfig {
    /// The color names of the theme, role by role, in the order of
    /// `theme_roles`.
    pub open spec fn entries(self) -> Seq<Option<String>> {
        seq![
            self.primary_color,
            self.accent_color,
            self.background_color,
            self.text_color,
            self.success_color,
            self.error_color,
            self.warning_color,
            self.info_color,
        ]
    }

    /// The color of each role: eight entries, one per role of
    /// `theme_roles`, each with the color its name denotes.
    pub fn apply_theme(&self) -> (r: Vec<(String, ThemeColor)>)
        ensures
            r@.len() == 8,
            forall|i: int|
                0 <= i < 8 ==> (#[trigger] r@[i]).0@ == theme_roles()[i] && r@[i].1 == color_named(
                    opt_chars(self.entries()[i]),
                ),
    {
        let mut r: Vec<(String, ThemeColor)> = Vec::new();
        r.push(("primary".to_owned(), parse_color(&self.primary_color)));
        r.push(("accent".to_owned(), parse_color(&self.accent_color)));
        r.push(("background".to_owned(), parse_color(&self.background_color)));
        r.push(("text".to_owned(), parse_color(&self.text_color)));
        r.push(("success".to_owned(), parse_color(&self.success_color)));
        r.push(("error".to_owned(), parse_color(&self.error_color)));
        r.push(("warning".to_owned(), parse_color(&self.warning_color)));
        r.push(("info".to_owned(), parse_color(&self.info_color)));
        r
    }
}


impl Default for ThemeConfig {
    fn default() -> (r: Self)
        ensures
            r.is_default(),
    {
        ThemeConfig {
            primary_color: Some("blue".to_owned()),
            accent_color: Some("yellow".to_owned()),
            background_color: Some("black".to_owned()),
            text_color: Some("white".to_owned()),
            success_color: Some("green".to_owned()),
            error_color: Some("red".to_owned()),
            warning_color: Some("yellow".to_owned()),
            info_color: Some("cyan".to_owned()),
        }
    }
}

impl ThemeConfig {
    /// The default theme: blue, yellow, black, white, green, red, yellow,
    /// cyan for its eight roles.
    pub open spec fn is_default(self) -> bool {
        &&& opt_chars(self.primary_color) == Some("blue"@)
        &&& opt_chars(self.accent_color) == Some("yellow"@)
        &&& opt_chars(self.background_color) == Some("black"@)
        &&& opt_chars(self.text_color) == Some("white"@)
        &&& opt_chars(self.success_color) == Some("green"@)
        &&& opt_chars(self.error_color) == Some("red"@)
        &&& opt_chars(self.warning_color) == Some("yellow"@)
        &&& opt_chars(self.info_color) == Some("cyan"@)
    }
}

impl AppSettings {
    /// The default settings.
    pub open spec fn is_default(self) -> bool {
        &&& self.auto_save_last_server == Some(true)
        &&& opt_chars(self.default_transfer_mode) == Some("binary"@)
        &&& self.show_hidden_files == Some(false)
        &&& self.confirm_overwrite == Some(true)
        &&& self.max_concurrent_transfers == Some(3usize)
        &&& self.transfer_buffer_size == Some(8192usize)
        &&& self.keep_alive_interval == Some(60u64)
        &&& self.retry_attempts == Some(3u32)
        &&& self.retry_delay == Some(2u64)
    }
}

impl Default for AppSettings {
    fn default() -> (r: Self)
        ensures
            r.is_default(),
    {
        AppSettings {
            auto_save_last_server: Some(true),
            default_transfer_mode: Some("binary".to_owned()),
            show_hidden_files: Some(false),
            confirm_overwrite: Some(true),
            max_concurrent_transfers: Some(3),
            transfer_buffer_size: Some(8192),
            keep_alive_interval: Some(60),
            retry_attempts: Some(3),
            retry_delay: Some(2),
        }
    }
}

/// `s` is the first saved server named `name`.
pub open spec fn first_named(servers: Seq<ServerConfig>, name: Seq<char>, i: int) -> bool {
    &&& 0 <= i < servers.len()
    &&& servers[i].name@ == name
    &&& forall|j: int| 0 <= j < i ==> (#[trigger] servers[j]).name@ != name
}

impl Config {
    /// A configuration with no servers, the default theme and settings,
    /// and `download_dir` (the user's download directory) as the default
    /// local path.
    pub fn new(download_dir: String) -> (r: Config)
        ensures
            r.servers@.len() == 0,
            r.default_local_path == Some(download_dir),
            r.theme matches Some(t) && t.is_default(),
            r.settings matches Some(s) && s.is_default(),
    {
        Config {
            servers: Vec::new(),
            default_local_path: Some(download_dir),
            theme: Some(ThemeConfig::default()),
            settings: Some(AppSettings::default()),
        }
    }

    /// Adds a server at the end of the list.
    pub fn add_server(&mut self, server: ServerConfig)
        ensures
            final(self).servers@ == old(self).servers@.push(server),
            final(self).default_local_path == old(self).default_local_path,
            final(self).theme == old(self).theme,
            final(self).settings == old(self).settings,
    {
        self.servers.push(server);
    }

    /// Removes the server at `index` and hands it back; an index past the
    /// end changes nothing.
    pub fn remove_server(&mut self, index: usize) -> (r: Option<ServerConfig>)
        ensures
            index < old(self).servers@.len() ==> r == Some(old(self).servers@[index as int])
                && final(self).servers@ == old(self).servers@.remove(index as int),
            index >= old(self).servers@.len() ==> r is None && final(self).servers@ == old(
                self,
            ).servers@,
            final(self).default_local_path == old(self).default_local_path,
            final(self).theme == old(self).theme,
            final(self).settings == old(self).settings,
    {
        if index < self.servers.len() {
            Some(self.servers.remove(index))
        } else {
            None
        }
    }

    /// The first server named `name`, if any.
    pub fn get_server_by_name(&self, name: &str) -> (r: Option<&ServerConfig>)
        ensures
            match r {
                Some(s) => exists|i: int| first_named(self.servers@, name@, i) && *s == self.servers@[i],
                None => forall|i: int|
                    0 <= i < self.servers@.len() ==> (#[trigger] self.servers@[i]).name@ != name@,
            },
    {
        for i in 0..self.servers.len()
            invariant
                forall|j: int| 0 <= j < i ==> (#[trigger] self.servers@[j]).name@ != name@,
        {
            if str_eq(self.servers[i].name.as_str(), name) {
                assert(first_named(self.servers@, name@, i as int));
                return Some(&self.servers[i]);
            }
        }
        None
    }

    /// The default local path, or `download_dir` (the user's download
    /// directory) when none is set.
    pub fn get_default_local_path(&self, download_dir: &str) -> (r: String)
        ensures
            r@ == match self.default_local_path {
                Some(p) => p@,
                None => download_dir@,
            },
    {
        match &self.default_local_path {
            Some(p) => p.clone(),
            None => download_dir.to_owned(),
        }
    }
}

/// The address to dial for a server: its host when the host already names
/// a port (holds a `:`), else `host:port`.
pub open spec fn server_address(host: Seq<char>, port: u16) -> Seq<char> {
    if host.contains(':') {
        host
    } else {
        host + seq![':'] + decimal(port as nat)
    }
}

impl ServerConfig {
    /// The settings every new server starts with, beside its name, host and
    /// user name.
    pub open spec fn has_new_defaults(self) -> bool {
        &&& self.password is None
        &&& self.port == 21
        &&& self.passive_mode
        &&& self.timeout == 30
    }

    /// A plain FTP server on port 21, passive, with a 30 s timeout and no
    /// password.
    pub fn new(name: String, host: String, username: String) -> (r: ServerConfig)
        ensures
            r.name == name,
            r.host == host,
            r.username == username,
            r.has_new_defaults(),
            r.protocol == ProtocolType::Ftp,
            !r.use_tls,
            r.tls_hostname is None,
    {
        ServerConfig {
            name,
            host,
            username,
            password: None,
            port: default_port(),
            protocol: ProtocolType::Ftp,
            use_tls: false,
            tls_hostname: None,
            passive_mode: default_passive_mode(),
            timeout: default_timeout(),
        }
    }

    /// An FTPS server on port 21, passive, with a 30 s timeout and no
    /// password.
    pub fn new_secure(name: String, host: String, username: String, tls_hostname: Option<String>) -> (r: ServerConfig)
        ensures
            r.name == name,
            r.host == host,
            r.username == username,
            r.has_new_defaults(),
            r.protocol == ProtocolType::Ftps,
            r.use_tls,
            r.tls_hostname == tls_hostname,
    {
        ServerConfig {
            name,
            host,
            username,
            password: None,
            port: default_port(),
            protocol: ProtocolType::Ftps,
            use_tls: true,
            tls_hostname,
            passive_mode: default_passive_mode(),
            timeout: default_timeout(),
        }
    }

    /// The address to dial: `host` if it already names a port, else
    /// `host:port`.
    pub fn address(&self) -> (r: String)
        ensures
            r@ == server_address(self.host@, self.port),
    {
        if contains_char(self.host.as_str(), ':') {
            self.host.clone()
        } else {
            let mut r = self.host.clone();
            string_push(&mut r, ':');
            push_decimal(&mut r, self.port as u64);
            r
        }
    }

    /// Whether a password is set.
    pub fn has_password(&self) -> (r: bool)
        ensures
            r == self.password is Some,
    {
        self.password.is_some()
    }

    /// The name to show: the server's name, with ` (Secure)` after it for
    /// FTPS.
    pub fn display_name(&self) -> (r: String)
        ensures
            r@ == match self.protocol {
                ProtocolType::Ftp => self.name@,
                ProtocolType::Ftps => self.name@ + " (Secure)"@,
            },
    {
        match self.protocol {
            ProtocolType::Ftp => self.name.clone(),
            ProtocolType::Ftps => {
                let mut r = self.name.clone();
                push_str(&mut r, " (Secure)");
                r
            },
        }
    }
}

impl Default for ServerConfig {
    fn default() -> (r: Self)
        ensures
            r.name@ == "New Server"@,
            r.host@ == "localhost"@,
            r.username@ == "anonymous"@,
            r.has_new_defaults(),
            r.protocol == ProtocolType::Ftp,
            !r.use_tls,
            r.tls_hostname is None,
    {
        ServerConfig::new("New Server".to_owned(), "localhost".to_owned(), "anonymous".to_owned())
    }
}


/// Removing the last server right after adding it hands back that server
/// and leaves the list as it was.
pub proof fn lemma_remove_undoes_add(servers: Seq<ServerConfig>, server: ServerConfig)
    ensures
        servers.push(server)[servers.len() as int] == server,
        servers.push(server).remove(servers.len() as int) == servers,
{
    assert(servers.push(server).remove(servers.len() as int) =~= servers);
}

/// Two texts that differ at some position differ.
proof fn lemma_differ_at(a: Seq<char>, b: Seq<char>, i: int)
    requires
        0 <= i < a.len(),
        i < b.len(),
        a[i] != b[i],
    ensures
        a != b,
{
}

/// The name a theme color is written with in the configuration.
pub open spec fn color_name(c: ThemeColor) -> Seq<char> {
    match c {
        ThemeColor::Black => "black"@,
        ThemeColor::Red => "red"@,
        ThemeColor::Green => "green"@,
        ThemeColor::Yellow => "yellow"@,
        ThemeColor::Blue => "blue"@,
        ThemeColor::Magenta => "magenta"@,
        ThemeColor::Cyan => "cyan"@,
        ThemeColor::Gray => "gray"@,
        ThemeColor::DarkGray => "dark_gray"@,
        ThemeColor::LightRed => "light_red"@,
        ThemeColor::LightGreen => "light_green"@,
        ThemeColor::LightYellow => "light_yellow"@,
        ThemeColor::LightBlue => "light_blue"@,
        ThemeColor::LightMagenta => "light_magenta"@,
        ThemeColor::LightCyan => "light_cyan"@,
        ThemeColor::White => "white"@,
    }
}

/// Every theme color written by its name is read back as that color: each
/// name stands for the color of the same name, and no two colors share one.
pub proof fn lemma_color_names_read_back(c: ThemeColor)
    ensures
        color_named(Some(color_name(c))) == c,
{
    reveal_strlit("black");
    reveal_strlit("red");
    reveal_strlit("green");
    reveal_strlit("yellow");
    reveal_strlit("blue");
    reveal_strlit("magenta");
    reveal_strlit("cyan");
    reveal_strlit("gray");
    reveal_strlit("dark_gray");
    reveal_strlit("light_red");
    reveal_strlit("light_green");
    reveal_strlit("light_yellow");
    reveal_strlit("light_blue");
    reveal_strlit("light_magenta");
    reveal_strlit("light_cyan");
    reveal_strlit("white");
    match c {
        ThemeColor::Black => {},
        ThemeColor::Red => {},
        ThemeColor::Green => {
            lemma_differ_at("green"@, "black"@, 0);
        },
        ThemeColor::Yellow => {},
        ThemeColor::Blue => {},
        ThemeColor::Magenta => {},
        ThemeColor::Cyan => {
            lemma_differ_at("cyan"@, "blue"@, 0);
        },
        ThemeColor::Gray => {
            lemma_differ_at("gray"@, "blue"@, 0);
            lemma_differ_at("gray"@, "cyan"@, 0);
        },
        ThemeColor::DarkGray => {},
        ThemeColor::LightRed => {
            lemma_differ_at("light_red"@, "dark_gray"@, 0);
        },
        ThemeColor::LightGreen => {},
        ThemeColor::LightYellow => {},
        ThemeColor::LightBlue => {},
        ThemeColor::LightMagenta => {},
        ThemeColor::LightCyan => {
            lemma_differ_at("light_cyan"@, "light_blue"@, 6);
        },
        ThemeColor::White => {
            lemma_differ_at("white"@, "black"@, 0);
            lemma_differ_at("white"@, "green"@, 0);
        },
    }
}

/// A missing color, or a name that is no color's name, reads as white.
pub proof fn lemma_unknown_colors_are_white(name: Option<Seq<char>>)
    requires
        name matches Some(n) ==> forall|c: ThemeColor| #[trigger] color_name(c) != n,
    ensures
        color_named(name) == ThemeColor::White,
{
    if let Some(n) = name {
        assert(color_name(ThemeColor::Black) != n);
        assert(color_name(ThemeColor::Red) != n);
        assert(color_name(ThemeColor::Green) != n);
        assert(color_name(ThemeColor::Yellow) != n);
        assert(color_name(ThemeColor::Blue) != n);
        assert(color_name(ThemeColor::Magenta) != n);
        assert(color_name(ThemeColor::Cyan) != n);
        assert(color_name(ThemeColor::Gray) != n);
        assert(color_name(ThemeColor::DarkGray) != n);
        assert(color_name(ThemeColor::LightRed) != n);
        assert(color_name(ThemeColor::LightGreen) != n);
        assert(color_name(ThemeColor::LightYellow) != n);
        assert(color_name(ThemeColor::LightBlue) != n);
        assert(color_name(ThemeColor::LightMagenta) != n);
        assert(color_name(ThemeColor::LightCyan) != n);
    }
}

} // verus!
