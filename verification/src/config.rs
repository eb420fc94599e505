//! The agent's configuration: what a file says, overridden flag by flag by
//! the command line, with fixed values where neither says anything.

use std::collections::HashMap;
use vstd::prelude::*;
use vstd::string::*;
use crate::text::opt_text;

verus! {

/// The port listened on where nothing else is asked for.
pub const DEFAULT_PORT: i32 = 80;

/// A named command of the configuration file.
#[derive(Clone, Debug)]
pub struct Command {
    pub label: String,
    pub command: String,
}

/// The configuration that the agent runs with.
#[derive(Clone, Debug)]
pub struct Config {
    pub static_dir: Option<String>,
    pub addr: String,
    pub port: i32,
    pub commands: HashMap<String, Command>,
}

/// A configuration as contracts speak of it.
pub struct ConfigView {
    pub static_dir: Option<Seq<char>>,
    pub addr: Seq<char>,
    pub port: i32,
    pub commands: Map<String, Command>,
}

impl View for Config {
    type V = ConfigView;

    open spec fn view(&self) -> ConfigView {
        ConfigView {
            static_dir: opt_text(self.static_dir),
            addr: self.addr@,
            port: self.port,
            commands: self.commands@,
        }
    }
}

/// What the command line says; each flag may be missing.
#[derive(Clone, Debug)]
pub struct Flags {
    pub addr: Option<String>,
    pub port: Option<String>,
    pub static_dir: Option<String>,
}

/// Whether `c` is a decimal digit.
pub open spec fn is_digit(c: char) -> bool {
    '0' <= c <= '9'
}

/// The number that a sequence of decimal digits writes.
pub open spec fn decimal_value(digits: Seq<char>) -> nat
    decreases digits.len(),
{
    if digits.len() == 0 {
        0
    } else {
        (decimal_value(digits.drop_last()) * 10 + (digits.last() as u32 - '0' as u32)) as nat
    }
}

/// The 32-bit integer that `text` writes in decimal: an optional `+` or `-`,
/// then at least one digit and nothing else, the value within the range of
/// 32 bits. Nothing where `text` is not of that form.
pub open spec fn parsed_port(text: Seq<char>) -> Option<i32> {
    let negative = text.len() > 0 && text[0] == '-';
    let signed = text.len() > 0 && (text[0] == '-' || text[0] == '+');
    let digits = if signed {
        text.skip(1)
    } else {
        text
    };
    let value = if negative {
        -(decimal_value(digits) as int)
    } else {
        decimal_value(digits) as int
    };
    if digits.len() > 0 && (forall|i: int| 0 <= i < digits.len() ==> is_digit(#[trigger] digits[i]))
        && i32::MIN <= value <= i32::MAX {
        Some(value as i32)
    } else {
        None
    }
}

/// `str::parse::<i32>`: the integer that the text writes in decimal, with an
/// optional sign before the digits; nothing where the text is empty, holds
/// anything but digits after the sign, or writes a number out of range.
#[verifier::external_body]
fn parse_port(text: &str) -> (r: Option<i32>)
    ensures
        r == parsed_port(text@),
{
    match text.parse::<i32>() {
        Ok(port) => Some(port),
        Err(_) => None,
    }
}

/// The configuration with nothing asked for: every interface, port 80, no
/// static directory, no commands.
pub open spec fn default_view() -> ConfigView {
    ConfigView {
        static_dir: None,
        addr: "0.0.0.0"@,
        port: DEFAULT_PORT,
        commands: Map::empty(),
    }
}

/// The configuration that flags leave of `base`: a flag that is present
/// replaces the value of `base`, a port flag only where it is a number.
pub open spec fn overridden(
    base: ConfigView,
    addr: Option<Seq<char>>,
    port: Option<i32>,
    static_dir: Option<Seq<char>>,
) -> ConfigView {
    ConfigView {
        static_dir: if static_dir is Some {
            static_dir
        } else {
            base.static_dir
        },
        addr: if addr is Some {
            addr->Some_0
        } else {
            base.addr
        },
        port: if port is Some {
            port->Some_0
        } else {
            base.port
        },
        commands: base.commands,
    }
}

/// The port that a port flag asks for, if it asks for one.
pub open spec fn port_of_flag(flag: Option<String>) -> Option<i32> {
    match flag {
        Some(text) => parsed_port(text@),
        None => None,
    }
}

/// The configuration that the configuration file gives, or the default one
/// where no file was named.
pub open spec fn base_view(file: Option<Config>) -> ConfigView {
    match file {
        Some(config) => config@,
        None => default_view(),
    }
}

impl Config {
    /// The configuration with nothing asked for.
    pub fn fallback() -> (r: Config)
        ensures
            r@ == default_view(),
    {
        Config {
            static_dir: None,
            addr: String::from_str("0.0.0.0"),
            port: DEFAULT_PORT,
            commands: HashMap::new(),
        }
    }

    /// `base` with each value replaced that the command line gives.
    pub fn with_overrides(
        base: Config,
        addr: Option<String>,
        port: Option<i32>,
        static_dir: Option<String>,
    ) -> (r: Config)
        ensures
            r@ == overridden(base@, opt_text(addr), port, opt_text(static_dir)),
    {
        let Config { static_dir: base_dir, addr: base_addr, port: base_port, commands } = base;
        Config {
            static_dir: match static_dir {
                Some(dir) => Some(dir),
                None => base_dir,
            },
            addr: match addr {
                Some(a) => a,
                None => base_addr,
            },
            port: match port {
                Some(p) => p,
                None => base_port,
            },
            commands,
        }
    }

    /// The configuration to run with. The configuration file, where one was
    /// named and read, is the base, and the default configuration where none
    /// was; each flag that is present replaces the base's value. A port flag
    /// that is no 32-bit decimal number is passed over.
    pub fn generate(flags: Flags, file: Option<Config>) -> (r: Config)
        ensures
            r@ == overridden(
                base_view(file),
                opt_text(flags.addr),
                port_of_flag(flags.port),
                opt_text(flags.static_dir),
            ),
    {
        let base = match file {
            Some(config) => config,
            None => Config::fallback(),
        };
        let port = match &flags.port {
            Some(text) => parse_port(text.as_str()),
            None => None,
        };
        Config::with_overrides(base, flags.addr, port, flags.static_dir)
    }
}

} // verus!
