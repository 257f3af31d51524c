//! Run-time configuration: the mode, the address to listen on, and the
//! messages for missing settings.

use vstd::prelude::*;

verus! {

/// The message for a setting that is not provided.
pub open spec fn spec_not_provided(var: Seq<char>) -> Seq<char> {
    "variable "@ + var + " not provided"@
}

/// The message for a setting that is not provided.
pub fn not_provided(var: &str) -> (msg: String)
    ensures
        msg@ == spec_not_provided(var@),
{
    let mut msg = "variable ".to_owned();
    msg.append(var);
    msg.append(" not provided");
    msg
}

/// A snapshot of the process environment: name and value of each variable
/// whose name and value are both valid Unicode.
#[derive(Debug, Clone)]
pub struct EnvVars {
    pub vars: Vec<(String, String)>,
}

/// The value of the first variable named `key`, if any.
pub open spec fn spec_env_var(vars: Seq<(String, String)>, key: Seq<char>) -> Option<Seq<char>>
    decreases vars.len(),
{
    if vars.len() == 0 {
        None
    } else if vars[0].0@ == key {
        Some(vars[0].1@)
    } else {
        spec_env_var(vars.drop_first(), key)
    }
}

/// The text an optional string holds, if any.
pub open spec fn opt_text(o: Option<String>) -> Option<Seq<char>> {
    match o {
        Some(s) => Some(s@),
        None => None,
    }
}

impl EnvVars {
    /// The value of variable `key`.
    pub fn var(&self, key: &str) -> (value: Option<String>)
        ensures
            opt_text(value) == spec_env_var(self.vars@, key@),
    {
        let k = key.to_owned();
        let mut i: usize = 0;
        assert(self.vars@.skip(0) =~= self.vars@);
        while i < self.vars.len()
            invariant
                i <= self.vars@.len(),
                k@ == key@,
                spec_env_var(self.vars@, key@) == spec_env_var(self.vars@.skip(i as int), key@),
            decreases self.vars@.len() - i,
        {
            proof {
                assert(self.vars@.skip(i as int)[0] == self.vars@[i as int]);
            }
            if self.vars[i].0 == k {
                return Some(self.vars[i].1.clone());
            }
            proof {
                assert(self.vars@.skip(i as int).drop_first() =~= self.vars@.skip(i + 1));
            }
            i = i + 1;
        }
        proof {
            assert(self.vars@.skip(i as int) =~= Seq::<(String, String)>::empty());
        }
        None
    }
}

/// The server's mode of operation.
#[derive(Debug, Clone, Copy, PartialEq, Eq, Structural)]
pub enum Mode {
    Development,
    Production,
}

/// What a mode prints as: its name and a line break.
pub open spec fn spec_mode_text(m: Mode) -> Seq<char> {
    match m {
        Mode::Production => "Production\n"@,
        Mode::Development => "Development\n"@,
    }
}

/// The settings that hold the host and the port in each mode.
pub open spec fn spec_host_key(m: Mode) -> Seq<char> {
    match m {
        Mode::Development => "DEV_HOST"@,
        Mode::Production => "PROD_HOST"@,
    }
}

/// See [`spec_host_key`].
pub open spec fn spec_port_key(m: Mode) -> Seq<char> {
    match m {
        Mode::Development => "DEV_PORT"@,
        Mode::Production => "PROD_PORT"@,
    }
}

/// The mode that the `MODE` setting selects, or the message of the failure.
pub open spec fn spec_get_mode(value: Option<Seq<char>>) -> Result<Mode, Seq<char>> {
    match value {
        None => Err(spec_not_provided("MODE"@)),
        Some(v) => if v == "production"@ {
            Ok(Mode::Production)
        } else if v == "development"@ {
            Ok(Mode::Development)
        } else {
            Err("Unexpected value: "@ + v)
        },
    }
}

/// The host and port of a mode, or the message for the first one missing.
pub open spec fn spec_get_host_port(m: Mode, vars: Seq<(String, String)>) -> Result<(Seq<char>, Seq<char>), Seq<char>> {
    match spec_env_var(vars, spec_host_key(m)) {
        None => Err(spec_not_provided(spec_host_key(m))),
        Some(host) => match spec_env_var(vars, spec_port_key(m)) {
            None => Err(spec_not_provided(spec_port_key(m))),
            Some(port) => Ok((host, port)),
        },
    }
}

impl Mode {
    /// The mode's name followed by a line break.
    pub fn to_string(&self) -> (text: String)
        ensures
            text@ == spec_mode_text(*self),
    {
        match self {
            Mode::Production => "Production\n".to_owned(),
            Mode::Development => "Development\n".to_owned(),
        }
    }

    /// Reads the host and port settings of this mode from `env`.
    pub fn get_host_port(&self, env: &EnvVars) -> (r: Result<(String, String), String>)
        ensures
            match r {
                Ok((host, port)) => spec_get_host_port(*self, env.vars@) == Ok::<(Seq<char>, Seq<char>), Seq<char>>((host@, port@)),
                Err(msg) => spec_get_host_port(*self, env.vars@) == Err::<(Seq<char>, Seq<char>), Seq<char>>(msg@),
            },
    {
        let (host_key, port_key) = match self {
            Mode::Development => ("DEV_HOST", "DEV_PORT"),
            Mode::Production => ("PROD_HOST", "PROD_PORT"),
        };
        assert(host_key@ == spec_host_key(*self) && port_key@ == spec_port_key(*self));
        match env.var(host_key) {
            None => Err(not_provided(host_key)),
            Some(host) => match env.var(port_key) {
                None => Err(not_provided(port_key)),
                Some(port) => Ok((host, port)),
            },
        }
    }

    /// Reads the mode from the `MODE` setting in `env`: `production` or
    /// `development`; anything else, or no setting, is refused with a message.
    pub fn get_mode(env: &EnvVars) -> (r: Result<Mode, String>)
        ensures
            match r {
                Ok(m) => spec_get_mode(spec_env_var(env.vars@, "MODE"@)) == Ok::<Mode, Seq<char>>(m),
                Err(msg) => spec_get_mode(spec_env_var(env.vars@, "MODE"@)) == Err::<Mode, Seq<char>>(msg@),
            },
    {
        match env.var("MODE") {
            None => Err(not_provided("MODE")),
            Some(value) => {
                if value == "production".to_owned() {
                    Ok(Mode::Production)
                } else if value == "development".to_owned() {
                    Ok(Mode::Development)
                } else {
                    let mut msg = "Unexpected value: ".to_owned();
                    msg.append(value.as_str());
                    Err(msg)
                }
            },
        }
    }
}

/// A lookup finds the first variable of the name: when some variable is
/// named `key`, the value is that of the first such one; when none is,
/// there is no value.
pub proof fn lemma_env_var_first(vars: Seq<(String, String)>, key: Seq<char>)
    ensures
        (forall|i: int| 0 <= i < vars.len() ==> (#[trigger] vars[i]).0@ != key) ==> spec_env_var(vars, key) is None,
        forall|i: int|
            0 <= i < vars.len() && (#[trigger] vars[i]).0@ == key && (forall|j: int| 0 <= j < i ==> vars[j].0@ != key)
                ==> spec_env_var(vars, key) == Some(vars[i].1@),
    decreases vars.len(),
{
    if vars.len() > 0 {
        let rest = vars.drop_first();
        lemma_env_var_first(rest, key);
        if (forall|i: int| 0 <= i < vars.len() ==> (#[trigger] vars[i]).0@ != key) {
            assert(vars[0].0@ != key);
            assert forall|i: int| 0 <= i < rest.len() implies (#[trigger] rest[i]).0@ != key by {
                assert(rest[i] == vars[i + 1]);
            }
        }
        assert forall|i: int|
            0 <= i < vars.len() && (#[trigger] vars[i]).0@ == key && (forall|j: int| 0 <= j < i ==> vars[j].0@ != key)
            implies spec_env_var(vars, key) == Some(vars[i].1@) by {
            if i > 0 {
                assert(vars[0].0@ != key);
                assert(rest[i - 1] == vars[i]);
                assert forall|j: int| 0 <= j < i - 1 implies rest[j].0@ != key by {
                    assert(rest[j] == vars[j + 1]);
                }
            }
        }
    }
}

/// Each mode reads its own settings, the host from the host variable and
/// the port from the port variable: in production `PROD_HOST` and
/// `PROD_PORT`, in development `DEV_HOST` and `DEV_PORT`. Both present gives
/// exactly those two values in that order; either missing gives a failure.
pub proof fn lemma_host_port_from_own_keys(m: Mode, vars: Seq<(String, String)>)
    ensures
        ({
            let host_key = if m == Mode::Production { "PROD_HOST"@ } else { "DEV_HOST"@ };
            let port_key = if m == Mode::Production { "PROD_PORT"@ } else { "DEV_PORT"@ };
            &&& spec_get_host_port(m, vars) matches Ok((h, p)) ==> spec_env_var(vars, host_key) == Some(h)
                && spec_env_var(vars, port_key) == Some(p)
            &&& spec_get_host_port(m, vars) is Err <==> (spec_env_var(vars, host_key) is None
                || spec_env_var(vars, port_key) is None)
        }),
{
}

/// The mode is production exactly for the value `production`, development
/// exactly for `development`, and every other value, or none, is refused.
pub proof fn lemma_get_mode_values(value: Option<Seq<char>>)
    ensures
        spec_get_mode(value) == Ok::<Mode, Seq<char>>(Mode::Production) <==> value == Some("production"@),
        spec_get_mode(value) == Ok::<Mode, Seq<char>>(Mode::Development) <==> value == Some("development"@),
        spec_get_mode(value) is Err <==> (value != Some("production"@) && value != Some("development"@)),
{
    reveal_strlit("production");
    reveal_strlit("development");
    assert("production"@ != "development"@) by {
        assert("production"@[0] != "development"@[0]);
    }
}

/// What the server needs to know to start: its mode, host and port, the
/// address it announces and the address it binds.
#[derive(Debug, Clone)]
pub struct ServerConfig {
    pub host: String,
    pub port: String,
    pub format_addr: String,
    pub bind_addr: String,
    pub mode: Mode,
}

/// The announced address `http://{host}:{port}`.
pub open spec fn spec_format_addr(host: Seq<char>, port: Seq<char>) -> Seq<char> {
    "http://"@ + host + ":"@ + port
}

/// The bound address `{host}:{port}`.
pub open spec fn spec_bind_addr(host: Seq<char>, port: Seq<char>) -> Seq<char> {
    host + ":"@ + port
}

/// The start-up banner.
pub open spec fn spec_config_text(c: ServerConfig) -> Seq<char> {
    "Server started on address: "@ + c.format_addr@ + "\ndevelopment mode: "@ + spec_mode_text(c.mode) + "\n"@
}

impl ServerConfig {
    /// Reads the configuration from `env`: the mode, then that mode's host
    /// and port. The first missing or wrong setting gives its message.
    pub fn init(env: &EnvVars) -> (r: Result<ServerConfig, String>)
        ensures
            match r {
                Ok(c) => {
                    &&& spec_get_mode(spec_env_var(env.vars@, "MODE"@)) == Ok::<Mode, Seq<char>>(c.mode)
                    &&& spec_get_host_port(c.mode, env.vars@) == Ok::<(Seq<char>, Seq<char>), Seq<char>>((c.host@, c.port@))
                    &&& c.format_addr@ == spec_format_addr(c.host@, c.port@)
                    &&& c.bind_addr@ == spec_bind_addr(c.host@, c.port@)
                },
                Err(msg) => match spec_get_mode(spec_env_var(env.vars@, "MODE"@)) {
                    Err(m) => msg@ == m,
                    Ok(mode) => spec_get_host_port(mode, env.vars@) == Err::<(Seq<char>, Seq<char>), Seq<char>>(msg@),
                },
            },
    {
        let mode = match Mode::get_mode(env) {
            Ok(m) => m,
            Err(msg) => return Err(msg),
        };
        let (host, port) = match mode.get_host_port(env) {
            Ok(hp) => hp,
            Err(msg) => return Err(msg),
        };
        let mut format_addr = "http://".to_owned();
        format_addr.append(host.as_str());
        format_addr.append(":");
        format_addr.append(port.as_str());
        let mut bind_addr = host.clone();
        bind_addr.append(":");
        bind_addr.append(port.as_str());
        Ok(ServerConfig { host, port, format_addr, bind_addr, mode })
    }

    /// The banner printed when the server starts.
    pub fn to_string(&self) -> (text: String)
        ensures
            text@ == spec_config_text(*self),
    {
        let mut text = "Server started on address: ".to_owned();
        text.append(self.format_addr.as_str());
        text.append("\ndevelopment mode: ");
        let mode = self.mode.to_string();
        text.append(mode.as_str());
        text.append("\n");
        text
    }
}

} // verus!
