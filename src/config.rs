use vstd::prelude::*;
use vstd::string::*;
use crate::env_file::{
    env_text, lemma_env_round_trip, lemma_index_of, parse_env, valid_key, valid_value,
    well_formed_settings, EnvVars,
};
use crate::error::MddeError;
use crate::text::{
    all_digits, contains, contains_str, decimal, digit_char, digit_value, digits_value,
    is_ascii_digit, parse_u16, push_char, push_decimal,
};
use crate::validation::{after_first, before_first};
use crate::validation::{parse_port_mapping, port_mapping_of};

verus! {

/// The catalog server used until `init` names another.
pub const DEFAULT_HOST: &'static str = "https://raw.githubusercontent.com/luqizheng/mdde-dockerifle/refs/heads/main";

pub open spec fn default_host() -> Seq<char> {
    "https://raw.githubusercontent.com/luqizheng/mdde-dockerifle/refs/heads/main"@
}

/// The settings of the environment in the working directory.
#[derive(Debug, Clone)]
pub struct Config {
    /// Base URL of the catalog server.
    pub host: String,
    pub container_name: Option<String>,
    /// `(host port, container port)`.
    pub app_port: Option<(u16, u16)>,
    pub workspace: Option<String>,
}

/// What a `Config` holds, as mathematical values.
pub struct ConfigModel {
    pub host: Seq<char>,
    pub container_name: Option<Seq<char>>,
    pub app_port: Option<(u16, u16)>,
    pub workspace: Option<Seq<char>>,
}

pub open spec fn opt_text(o: Option<String>) -> Option<Seq<char>> {
    match o {
        Some(s) => Some(s@),
        None => None,
    }
}

impl View for Config {
    type V = ConfigModel;

    open spec fn view(&self) -> ConfigModel {
        ConfigModel {
            host: self.host@,
            container_name: opt_text(self.container_name),
            app_port: self.app_port,
            workspace: opt_text(self.workspace),
        }
    }
}

/// The built-in settings: the default catalog server, nothing else set.
pub open spec fn default_config() -> ConfigModel {
    ConfigModel { host: default_host(), container_name: None, app_port: None, workspace: None }
}

impl Default for Config {
    fn default() -> (r: Config)
        ensures
            r@ == default_config(),
    {
        Config {
            host: String::from_str(
                "https://raw.githubusercontent.com/luqizheng/mdde-dockerifle/refs/heads/main",
            ),
            container_name: None,
            app_port: None,
            workspace: None,
        }
    }
}

/// The settings that the stored key-value pairs give: each known key
/// overrides its built-in value; an `app_port` that is not a valid port
/// mapping is ignored.
pub open spec fn config_from_settings(m: Map<Seq<char>, Seq<char>>) -> ConfigModel {
    ConfigModel {
        host: if m.contains_key("host"@) {
            m["host"@]
        } else {
            default_host()
        },
        container_name: if m.contains_key("container_name"@) {
            Some(m["container_name"@])
        } else {
            None
        },
        app_port: if m.contains_key("app_port"@) {
            port_mapping_of(m["app_port"@])
        } else {
            None
        },
        workspace: if m.contains_key("workspace"@) {
            Some(m["workspace"@])
        } else {
            None
        },
    }
}

/// The text under which a port mapping is stored: `host:container`.
pub open spec fn port_text(p: (u16, u16)) -> Seq<char> {
    decimal(p.0 as nat) + seq![':'] + decimal(p.1 as nat)
}

/// The key-value pairs under which settings are stored: `host` always, each
/// other key where it is set.
pub open spec fn settings_of(c: ConfigModel) -> Map<Seq<char>, Seq<char>> {
    let m0 = Map::<Seq<char>, Seq<char>>::empty().insert("host"@, c.host);
    let m1 = match c.container_name {
        Some(n) => m0.insert("container_name"@, n),
        None => m0,
    };
    let m2 = match c.app_port {
        Some(p) => m1.insert("app_port"@, port_text(p)),
        None => m1,
    };
    match c.workspace {
        Some(w) => m2.insert("workspace"@, w),
        None => m2,
    }
}

/// One change by key name; the message of the error where it is refused.
pub open spec fn apply_update(c: ConfigModel, k: Seq<char>, v: Seq<char>) -> Result<
    ConfigModel,
    Seq<char>,
> {
    if k == "host"@ {
        Ok(ConfigModel { host: v, ..c })
    } else if k == "container_name"@ {
        Ok(ConfigModel { container_name: Some(v), ..c })
    } else if k == "app_port"@ {
        match port_mapping_of(v) {
            Some(p) => Ok(ConfigModel { app_port: Some(p), ..c }),
            None => Err("无效的端口号"@),
        }
    } else if k == "workspace"@ {
        Ok(ConfigModel { workspace: Some(v), ..c })
    } else {
        Err("未知配置项: "@ + k)
    }
}

/// The changes applied in order; the first refusal stops them.
pub open spec fn apply_updates(c: ConfigModel, u: Seq<(Seq<char>, Seq<char>)>) -> Result<
    ConfigModel,
    Seq<char>,
>
    decreases u.len(),
{
    if u.len() == 0 {
        Ok(c)
    } else {
        match apply_update(c, u[0].0, u[0].1) {
            Ok(c2) => apply_updates(c2, u.drop_first()),
            Err(m) => Err(m),
        }
    }
}

pub open spec fn pair_texts(v: Seq<(String, String)>) -> Seq<(Seq<char>, Seq<char>)> {
    v.map_values(|e: (String, String)| (e.0@, e.1@))
}

fn text_eq(a: &String, b: &str) -> (r: bool)
    ensures
        r == (a@ == b@),
{
    crate::text::str_eq(a.as_str(), b)
}

fn clone_text(o: &Option<String>) -> (r: Option<String>)
    ensures
        r == *o,
{
    match o {
        Some(s) => Some(s.clone()),
        None => None,
    }
}

fn port_string(p: (u16, u16)) -> (r: String)
    ensures
        r@ == port_text(p),
{
    let mut s = String::new();
    push_decimal(&mut s, p.0 as u64);
    push_char(&mut s, ':');
    push_decimal(&mut s, p.1 as u64);
    assert(s@ =~= port_text(p));
    s
}

impl Config {
    /// The settings that stored key-value pairs give, over the built-in ones.
    pub fn from_env_vars(vars: &EnvVars) -> (r: Config)
        requires
            vars.wf(),
        ensures
            r@ == config_from_settings(vars.view()),
    {
        let mut config = Config::default();
        if let Some(host) = vars.get("host") {
            config.host = host;
        }
        if let Some(name) = vars.get("container_name") {
            config.container_name = Some(name);
        }
        if let Some(port) = vars.get("app_port") {
            config.app_port = parse_port_mapping(port.as_str());
        }
        if let Some(workspace) = vars.get("workspace") {
            config.workspace = Some(workspace);
        }
        config
    }

    /// The key-value pairs under which these settings are stored.
    pub fn to_env_vars(&self) -> (r: EnvVars)
        ensures
            r.wf(),
            r.view() == settings_of(self@),
    {
        let mut vars = EnvVars::new();
        vars.insert(String::from_str("host"), self.host.clone());
        if let Some(name) = &self.container_name {
            vars.insert(String::from_str("container_name"), name.clone());
        }
        if let Some(p) = self.app_port {
            vars.insert(String::from_str("app_port"), port_string(p));
        }
        if let Some(workspace) = &self.workspace {
            vars.insert(String::from_str("workspace"), workspace.clone());
        }
        vars
    }

    /// Applies changes by key name, in order. An unknown key, or an
    /// `app_port` that is not a valid port mapping, is refused with
    /// `InvalidArgument`, and then nothing is changed.
    pub fn update(&mut self, updates: &Vec<(String, String)>) -> (r: Result<(), MddeError>)
        ensures
            match apply_updates(old(self)@, pair_texts(updates@)) {
                Ok(c) => r is Ok && final(self)@ == c,
                Err(m) => r matches Err(MddeError::InvalidArgument(msg)) && msg@ == m
                    && final(self)@ == old(self)@,
            },
    {
        let ghost u = pair_texts(updates@);
        let mut next = Config {
            host: self.host.clone(),
            container_name: clone_text(&self.container_name),
            app_port: self.app_port,
            workspace: clone_text(&self.workspace),
        };
        let mut i: usize = 0;
        assert(u.subrange(0, u.len() as int) =~= u);
        while i < updates.len()
            invariant
                i <= updates@.len(),
                u == pair_texts(updates@),
                apply_updates(old(self)@, u) == apply_updates(next@, u.subrange(
                    i as int,
                    u.len() as int,
                )),
                *self == *old(self),
            decreases updates@.len() - i,
        {
            let ghost rest = u.subrange(i as int, u.len() as int);
            assert(rest[0] == (updates@[i as int].0@, updates@[i as int].1@));
            assert(rest.drop_first() =~= u.subrange(i + 1, u.len() as int));
            let key = &updates[i].0;
            let value = &updates[i].1;
            if text_eq(key, "host") {
                next.host = value.clone();
            } else if text_eq(key, "container_name") {
                next.container_name = Some(value.clone());
            } else if text_eq(key, "app_port") {
                match parse_port_mapping(value.as_str()) {
                    Some(p) => {
                        next.app_port = Some(p);
                    },
                    None => {
                        return Err(MddeError::InvalidArgument(String::from_str("无效的端口号")));
                    },
                }
            } else if text_eq(key, "workspace") {
                next.workspace = Some(value.clone());
            } else {
                return Err(
                    MddeError::InvalidArgument(String::from_str("未知配置项: ").concat(key.as_str())),
                );
            }
            i = i + 1;
        }
        assert(u.subrange(u.len() as int, u.len() as int) =~= Seq::<(Seq<char>, Seq<char>)>::empty());
        *self = next;
        Ok(())
    }
}

/// The `.gitignore` text once the `.mdde/` directory is listed in it; `None`
/// where the text mentions `.mdde` already.
pub open spec fn gitignore_with_mdde(content: Seq<char>) -> Option<Seq<char>> {
    if contains(content, ".mdde"@) {
        None
    } else {
        let base = if content.len() > 0 && content.last() == '\n' {
            content
        } else {
            content.push('\n')
        };
        Some(base + "\n# MDDE 配置目录\n.mdde/\n"@)
    }
}

/// Adds the `.mdde/` directory to the text of a `.gitignore` file, unless it
/// mentions `.mdde` already.
pub fn gitignore_update(content: &str) -> (r: Option<String>)
    ensures
        opt_text(r) == gitignore_with_mdde(content@),
{
    if contains_str(content, ".mdde") {
        return None;
    }
    let mut out = String::from_str(content);
    let n = content.unicode_len();
    if n == 0 || content.get_char(n - 1) != '\n' {
        push_char(&mut out, '\n');
    }
    out.append("\n# MDDE 配置目录\n.mdde/\n");
    Some(out)
}

proof fn lemma_digit_char(d: nat)
    requires
        d < 10,
    ensures
        is_ascii_digit(digit_char(d)),
        digit_value(digit_char(d)) == d,
{
}

proof fn lemma_decimal(n: nat)
    ensures
        decimal(n).len() > 0,
        all_digits(decimal(n)),
        digits_value(decimal(n)) == n,
    decreases n,
{
    lemma_digit_char(n % 10);
    if n >= 10 {
        lemma_decimal(n / 10);
        let s = decimal(n / 10);
        let t = s.push(digit_char(n % 10));
        assert(t.drop_last() =~= s);
        assert(t.last() == digit_char(n % 10));
        vstd::arithmetic::div_mod::lemma_fundamental_div_mod(n as int, 10);
        assert(digits_value(t) == digits_value(s) * 10 + n % 10);
        assert(all_digits(t)) by {
            assert forall|i: int| 0 <= i < t.len() implies is_ascii_digit(#[trigger] t[i]) by {
                if i < s.len() {
                    assert(t[i] == s[i]);
                }
            }
        }
    } else {
        let t = decimal(n);
        assert(t.drop_last() =~= Seq::<char>::empty());
        assert(t.last() == digit_char(n));
        assert(digits_value(t) == digits_value(t.drop_last()) * 10 + digit_value(t.last()));
    }
}

proof fn lemma_parse_decimal(n: nat)
    requires
        n < 65536,
    ensures
        parse_u16(decimal(n)) == Some(n as u16),
{
    lemma_decimal(n);
    assert(is_ascii_digit(decimal(n)[0]));
}

proof fn lemma_port_text(p: (u16, u16))
    requires
        p.0 != 0,
        p.1 != 0,
    ensures
        port_mapping_of(port_text(p)) == Some(p),
        valid_value(port_text(p)),
{
    let h = decimal(p.0 as nat);
    let c = decimal(p.1 as nat);
    let s = port_text(p);
    lemma_decimal(p.0 as nat);
    lemma_decimal(p.1 as nat);
    lemma_parse_decimal(p.0 as nat);
    lemma_parse_decimal(p.1 as nat);
    assert(s =~= h + seq![':'] + c);
    assert forall|j: int| 0 <= j < h.len() implies s[j] != ':' by {
        assert(s[j] == h[j]);
        assert(is_ascii_digit(h[j]));
    }
    lemma_index_of(s, ':', h.len() as int);
    assert(before_first(s, ':') =~= h);
    assert(after_first(s, ':') =~= c);
    assert forall|j: int| 0 <= j < c.len() implies c[j] != ':' by {
        assert(is_ascii_digit(c[j]));
    }
    lemma_index_of(c, ':', c.len() as int);
    assert forall|j: int| 0 <= j < s.len() implies #[trigger] s[j] != '\n' by {
        if j < h.len() {
            assert(s[j] == h[j]);
            assert(is_ascii_digit(h[j]));
        } else if j > h.len() {
            assert(s[j] == c[j - h.len() - 1]);
            assert(is_ascii_digit(c[j - h.len() - 1]));
        }
    }
    assert(is_ascii_digit(s[0]));
    assert(s.last() == c.last());
    assert(is_ascii_digit(c[c.len() - 1]));
}

proof fn lemma_setting_keys()
    ensures
        valid_key("host"@),
        valid_key("container_name"@),
        valid_key("app_port"@),
        valid_key("workspace"@),
        "host"@ != "container_name"@,
        "host"@ != "app_port"@,
        "host"@ != "workspace"@,
        "container_name"@ != "app_port"@,
        "container_name"@ != "workspace"@,
        "app_port"@ != "workspace"@,
{
    reveal_strlit("host");
    reveal_strlit("container_name");
    reveal_strlit("app_port");
    reveal_strlit("workspace");
}

/// Settings whose texts can each stand on a line of the env file (no line
/// break, no white space at either end) and whose port mapping has no zero.
pub open spec fn storable(c: ConfigModel) -> bool {
    &&& valid_value(c.host)
    &&& (c.container_name is Some ==> valid_value(c.container_name->0))
    &&& (c.workspace is Some ==> valid_value(c.workspace->0))
    &&& (c.app_port is Some ==> (c.app_port->0).0 != 0 && (c.app_port->0).1 != 0)
}

/// Saving a configuration to the env file and loading it back gives the same
/// configuration, whenever its settings can be stored.
pub proof fn lemma_config_save_load(c: ConfigModel, vars: EnvVars)
    requires
        storable(c),
        vars.wf(),
        vars.view() == settings_of(c),
    ensures
        config_from_settings(parse_env(env_text(vars.pairs()))) == c,
{
    lemma_setting_keys();
    if c.app_port is Some {
        lemma_port_text(c.app_port->0);
    }
    let m = settings_of(c);
    assert(well_formed_settings(m)) by {
        assert forall|k: Seq<char>| #[trigger] m.contains_key(k) implies valid_key(k)
            && valid_value(m[k]) by {
        }
    }
    lemma_env_round_trip(vars);
    let back = config_from_settings(m);
    assert(back.host == c.host);
    assert(back.container_name == c.container_name);
    assert(back.app_port == c.app_port);
    assert(back.workspace == c.workspace);
}

} // verus!
