//! Game templates: the image, ports, variables and install script of each game.
use vstd::prelude::*;
use crate::text::{chars_of, decimal, decimal_string, replace_all, replaced, string_of};
use crate::vars::{inserted, lookup, VarMap};

verus! {

broadcast use vstd::string::group_string_axioms;

/// The key of a game template.
#[derive(Debug, Eq, Hash)]
pub struct GameType(pub String);

impl GameType {
    pub fn new(id: &str) -> (r: Self)
        ensures
            r.0@ == id@,
    {
        GameType(id.to_string())
    }

    /// The key as text.
    pub fn as_string(&self) -> (r: String)
        ensures
            r@ == self.0@,
    {
        self.0.clone()
    }
}

impl Clone for GameType {
    fn clone(&self) -> (r: Self)
        ensures
            r == *self,
    {
        GameType(self.0.clone())
    }
}

impl PartialEq for GameType {
    fn eq(&self, o: &GameType) -> (r: bool) {
        self.0 == o.0
    }
}

impl vstd::std_specs::cmp::PartialEqSpecImpl for GameType {
    open spec fn obeys_eq_spec() -> bool {
        true
    }

    open spec fn eq_spec(&self, o: &GameType) -> bool {
        self.0@ == o.0@
    }
}

/// Which server setting a template variable takes its value from.
#[derive(Debug, Clone, Copy, PartialEq, Eq, Structural)]
pub enum SystemMapping {
    /// The variable takes the user's value or its default.
    Unmapped,
    Ram,
    Port,
}

/// How a template variable is edited.
#[derive(Debug, Clone, Copy, PartialEq, Eq, Structural)]
pub enum FieldType {
    Text,
    Number,
    Password,
    Select,
}

/// One choice of a select variable.
#[derive(Debug)]
pub struct SelectOption {
    pub value: String,
    pub label: String,
}

impl Clone for SelectOption {
    fn clone(&self) -> (r: Self)
        ensures
            r == *self,
    {
        SelectOption { value: self.value.clone(), label: self.label.clone() }
    }
}

/// Clones an optional string exactly.
pub fn clone_opt(o: &Option<String>) -> (r: Option<String>)
    ensures
        r == *o,
{
    match o {
        Some(s) => Some(s.clone()),
        None => None,
    }
}

/// An environment variable of a game template.
#[derive(Debug)]
pub struct Variable {
    pub env: String,
    pub name: String,
    pub description: String,
    pub default: String,
    pub system_mapping: Option<SystemMapping>,
    pub user_editable: bool,
    pub options: Option<Vec<SelectOption>>,
    pub field_type: FieldType,
}

impl Variable {
    /// Field by field the same variable (the options compared by their contents).
    pub open spec fn same(&self, o: &Variable) -> bool {
        &&& self.env == o.env
        &&& self.name == o.name
        &&& self.description == o.description
        &&& self.default == o.default
        &&& self.system_mapping == o.system_mapping
        &&& self.user_editable == o.user_editable
        &&& self.options.is_some() == o.options.is_some()
        &&& self.options.is_some() ==> self.options.unwrap()@ == o.options.unwrap()@
        &&& self.field_type == o.field_type
    }
}

impl Clone for Variable {
    fn clone(&self) -> (r: Self)
        ensures
            r.same(self),
    {
        let options = match &self.options {
            Some(v) => {
                let c = v.clone();
                assert(c@ =~= v@);
                Some(c)
            },
            None => None,
        };
        Variable {
            env: self.env.clone(),
            name: self.name.clone(),
            description: self.description.clone(),
            default: self.default.clone(),
            system_mapping: self.system_mapping,
            user_editable: self.user_editable,
            options,
            field_type: self.field_type,
        }
    }
}

/// Transport protocol of a port.
#[derive(Debug, Clone, Copy, PartialEq, Eq, Structural)]
pub enum PortProtocol {
    Tcp,
    Udp,
    Both,
}

/// A port that a game listens on.
#[derive(Debug)]
pub struct PortConfig {
    pub container_port: u16,
    pub protocol: PortProtocol,
    pub description: Option<String>,
    pub env_var: Option<String>,
}

impl Clone for PortConfig {
    fn clone(&self) -> (r: Self)
        ensures
            r == *self,
    {
        PortConfig {
            container_port: self.container_port,
            protocol: self.protocol,
            description: clone_opt(&self.description),
            env_var: clone_opt(&self.env_var),
        }
    }
}

/// The syntax of a configuration file.
#[derive(Debug, Clone, Copy, PartialEq, Eq, Structural)]
pub enum ConfigFileFormat {
    Json,
    Yaml,
    Properties,
    Ini,
}

/// A configuration file whose keys take values from template variables.
#[derive(Debug)]
pub struct ConfigFile {
    /// Path relative to the data volume.
    pub path: String,
    pub format: ConfigFileFormat,
    /// Configuration key to `{{VARIABLE}}` placeholder.
    pub variables: VarMap,
}

impl ConfigFile {
    pub open spec fn same(&self, o: &ConfigFile) -> bool {
        &&& self.path == o.path
        &&& self.format == o.format
        &&& self.variables.entries@ == o.variables.entries@
    }
}

impl Clone for ConfigFile {
    fn clone(&self) -> (r: Self)
        ensures
            r.same(self),
    {
        ConfigFile { path: self.path.clone(), format: self.format, variables: self.variables.clone() }
    }
}

/// A game template.
#[derive(Debug)]
pub struct GameConfig {
    pub game_type: GameType,
    pub name: String,
    pub description: String,
    pub docker_image: String,
    pub startup: String,
    pub stop_command: String,
    pub variables: Vec<Variable>,
    pub ports: Vec<PortConfig>,
    pub volume_path: String,
    pub min_ram_mb: u32,
    pub recommended_ram_mb: u32,
    pub icon: String,
    pub logo_url: Option<String>,
    pub install_script: Option<String>,
    pub install_image: Option<String>,
    pub config_files: Vec<ConfigFile>,
    pub is_custom: bool,
    pub console: bool,
}

impl GameConfig {
    /// Field by field the same template, apart from the custom flag.
    pub open spec fn same_but_custom(&self, o: &GameConfig) -> bool {
        &&& self.game_type == o.game_type
        &&& self.name == o.name
        &&& self.description == o.description
        &&& self.docker_image == o.docker_image
        &&& self.startup == o.startup
        &&& self.stop_command == o.stop_command
        &&& self.variables@.len() == o.variables@.len()
        &&& forall|i: int| 0 <= i < self.variables@.len() ==> #[trigger] self.variables@[i].same(&o.variables@[i])
        &&& self.ports@ == o.ports@
        &&& self.volume_path == o.volume_path
        &&& self.min_ram_mb == o.min_ram_mb
        &&& self.recommended_ram_mb == o.recommended_ram_mb
        &&& self.icon == o.icon
        &&& self.logo_url == o.logo_url
        &&& self.install_script == o.install_script
        &&& self.install_image == o.install_image
        &&& self.config_files@.len() == o.config_files@.len()
        &&& forall|i: int| 0 <= i < self.config_files@.len() ==> #[trigger] self.config_files@[i].same(&o.config_files@[i])
        &&& self.console == o.console
    }

    /// Field by field the same template.
    pub open spec fn same(&self, o: &GameConfig) -> bool {
        self.same_but_custom(o) && self.is_custom == o.is_custom
    }
}

fn clone_variables(v: &Vec<Variable>) -> (r: Vec<Variable>)
    ensures
        r@.len() == v@.len(),
        forall|i: int| 0 <= i < v@.len() ==> #[trigger] r@[i].same(&v@[i]),
{
    let mut r: Vec<Variable> = Vec::new();
    let mut i: usize = 0;
    while i < v.len()
        invariant
            i <= v.len(),
            r@.len() == i,
            forall|k: int| 0 <= k < i ==> #[trigger] r@[k].same(&v@[k]),
        decreases v.len() - i,
    {
        r.push(v[i].clone());
        i = i + 1;
    }
    r
}

fn clone_config_files(v: &Vec<ConfigFile>) -> (r: Vec<ConfigFile>)
    ensures
        r@.len() == v@.len(),
        forall|i: int| 0 <= i < v@.len() ==> #[trigger] r@[i].same(&v@[i]),
{
    let mut r: Vec<ConfigFile> = Vec::new();
    let mut i: usize = 0;
    while i < v.len()
        invariant
            i <= v.len(),
            r@.len() == i,
            forall|k: int| 0 <= k < i ==> #[trigger] r@[k].same(&v@[k]),
        decreases v.len() - i,
    {
        r.push(v[i].clone());
        i = i + 1;
    }
    r
}

impl Clone for GameConfig {
    fn clone(&self) -> (r: Self)
        ensures
            r.same(self),
    {
        let ports = self.ports.clone();
        assert(ports@ =~= self.ports@);
        GameConfig {
            game_type: self.game_type.clone(),
            name: self.name.clone(),
            description: self.description.clone(),
            docker_image: self.docker_image.clone(),
            startup: self.startup.clone(),
            stop_command: self.stop_command.clone(),
            variables: clone_variables(&self.variables),
            ports,
            volume_path: self.volume_path.clone(),
            min_ram_mb: self.min_ram_mb,
            recommended_ram_mb: self.recommended_ram_mb,
            icon: self.icon.clone(),
            logo_url: clone_opt(&self.logo_url),
            install_script: clone_opt(&self.install_script),
            install_image: clone_opt(&self.install_image),
            config_files: clone_config_files(&self.config_files),
            is_custom: self.is_custom,
            console: self.console,
        }
    }
}

/// Whether a template leaves out the console flag: a console is then assumed.
pub fn default_console() -> (r: bool)
    ensures
        r,
{
    true
}

impl Default for GameConfig {
    fn default() -> (r: Self)
        ensures
            r.game_type.0@ == "custom"@,
            r.name@ == "Custom Game"@,
            r.description@ == "A custom game server"@,
            r.docker_image@.len() == 0,
            r.startup@.len() == 0,
            r.stop_command@.len() == 0,
            r.variables@.len() == 0,
            r.ports@.len() == 0,
            r.volume_path@ == "/data"@,
            r.logo_url.is_none(),
            r.min_ram_mb == 512,
            r.recommended_ram_mb == 2048,
            r.install_script.is_none(),
            r.install_image.is_none(),
            r.config_files@.len() == 0,
            r.is_custom,
            r.console,
    {
        let r = GameConfig {
            game_type: GameType::new("custom"),
            name: "Custom Game".to_string(),
            description: "A custom game server".to_string(),
            docker_image: "".to_string(),
            startup: "".to_string(),
            stop_command: "".to_string(),
            variables: Vec::new(),
            ports: Vec::new(),
            volume_path: "/data".to_string(),
            min_ram_mb: 512,
            recommended_ram_mb: 2048,
            icon: "\u{1F3AE}".to_string(),
            logo_url: None,
            install_script: None,
            install_image: None,
            config_files: Vec::new(),
            is_custom: true,
            console: true,
        };
        proof {
            reveal_strlit("");
        }
        r
    }
}

/// `{{key}}`, the placeholder of a variable.
pub open spec fn placeholder(k: Seq<char>) -> Seq<char> {
    seq!['{', '{'] + k + seq!['}', '}']
}

/// A startup command with the placeholders of the first `n` bindings replaced, in order.
pub open spec fn resolved_upto(startup: Seq<char>, ps: Seq<(Seq<char>, Seq<char>)>, n: int) -> Seq<char>
    decreases n,
{
    if n <= 0 {
        startup
    } else {
        replaced(resolved_upto(startup, ps, n - 1), placeholder(ps[n - 1].0), ps[n - 1].1)
    }
}

fn placeholder_of(k: &String) -> (r: Vec<char>)
    ensures
        r@ == placeholder(k@),
{
    let mut r: Vec<char> = Vec::new();
    r.push('{');
    r.push('{');
    let kc = chars_of(k.as_str());
    crate::text::append_chars(&mut r, &kc);
    r.push('}');
    r.push('}');
    assert(r@ =~= placeholder(k@));
    r
}

/// Replaces the `{{NAME}}` placeholders of a startup command by the bound values, binding
/// by binding in order.
pub fn resolve_startup(startup: &str, variables: &VarMap) -> (r: String)
    ensures
        r@ == resolved_upto(startup@, variables.pairs(), variables.pairs().len() as int),
{
    let mut cur = chars_of(startup);
    let mut i: usize = 0;
    while i < variables.entries.len()
        invariant
            i <= variables.entries.len(),
            cur@ == resolved_upto(startup@, variables.pairs(), i as int),
        decreases variables.entries.len() - i,
    {
        let pat = placeholder_of(&variables.entries[i].0);
        let rep = chars_of(variables.entries[i].1.as_str());
        cur = replace_all(&cur, &pat, &rep);
        i = i + 1;
    }
    string_of(&cur)
}

/// The memory text in the unit that a variable's default shows: gigabytes after a `G`,
/// megabytes after an `M`, and a bare number of megabytes otherwise.
pub open spec fn ram_text(ram_mb: u32, default_format: Seq<char>) -> Seq<char> {
    if default_format.len() > 0 && (default_format.last() == 'G' || default_format.last() == 'g') {
        decimal((ram_mb / 1024) as nat) + seq!['G']
    } else if default_format.len() > 0 && (default_format.last() == 'M' || default_format.last() == 'm') {
        decimal(ram_mb as nat) + seq!['M']
    } else {
        decimal(ram_mb as nat)
    }
}

/// Writes a memory size in the unit of a variable's default.
pub fn format_ram(ram_mb: u32, default_format: &str) -> (r: String)
    ensures
        r@ == ram_text(ram_mb, default_format@),
{
    let d = chars_of(default_format);
    let n = d.len();
    if n > 0 && (d[n - 1] == 'G' || d[n - 1] == 'g') {
        let mut v: Vec<char> = Vec::new();
        crate::text::push_decimal(&mut v, (ram_mb / 1024) as u64);
        v.push('G');
        string_of(&v)
    } else if n > 0 && (d[n - 1] == 'M' || d[n - 1] == 'm') {
        let mut v: Vec<char> = Vec::new();
        crate::text::push_decimal(&mut v, ram_mb as u64);
        v.push('M');
        string_of(&v)
    } else {
        decimal_string(ram_mb as u64)
    }
}

/// The value a template variable takes for a server.
pub open spec fn env_value(v: Variable, ram_mb: u32, port: u16, overrides: Seq<(Seq<char>, Seq<char>)>) -> Seq<char> {
    match v.system_mapping {
        Some(SystemMapping::Ram) => ram_text(ram_mb, v.default@),
        Some(SystemMapping::Port) => decimal(port as nat),
        _ => match lookup(overrides, v.env@) {
            Some(x) => x,
            None => v.default@,
        },
    }
}

/// The environment after binding the first `n` variables of a template.
pub open spec fn env_upto(vs: Seq<Variable>, ram_mb: u32, port: u16, overrides: Seq<(Seq<char>, Seq<char>)>, n: int) -> Seq<(Seq<char>, Seq<char>)>
    decreases n,
{
    if n <= 0 {
        Seq::empty()
    } else {
        inserted(
            env_upto(vs, ram_mb, port, overrides, n - 1),
            vs[n - 1].env@,
            env_value(vs[n - 1], ram_mb, port, overrides),
        )
    }
}

/// The environment of a server: each template variable bound to the server's memory, to
/// its port, or to the user's override, falling back to the variable's default.
pub fn build_env_vars(game: &GameConfig, ram_mb: u32, port: u16, user_overrides: &VarMap) -> (r: VarMap)
    ensures
        r.pairs() == env_upto(game.variables@, ram_mb, port, user_overrides.pairs(), game.variables@.len() as int),
{
    let mut env = VarMap::new();
    let mut i: usize = 0;
    while i < game.variables.len()
        invariant
            i <= game.variables.len(),
            env.pairs() == env_upto(game.variables@, ram_mb, port, user_overrides.pairs(), i as int),
        decreases game.variables.len() - i,
    {
        let var = &game.variables[i];
        let value = match var.system_mapping {
            Some(SystemMapping::Ram) => format_ram(ram_mb, var.default.as_str()),
            Some(SystemMapping::Port) => decimal_string(port as u64),
            _ => match user_overrides.get(&var.env) {
                Some(x) => x,
                None => var.default.clone(),
            },
        };
        env.insert(var.env.clone(), value);
        i = i + 1;
    }
    env
}

} // verus!
