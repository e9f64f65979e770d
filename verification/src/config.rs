//! The server's settings: each taken from its environment variable when set, else from a
//! default. Reading the environment is left to the caller, who hands over what it found.
use vstd::prelude::*;
use vstd::string::*;
use crate::text::{
    decimal, decimal_string, digit_char, split_on, split_on_chars, trim, trim_chars, chars_of, string_from_chars,
    vecs_view, views, owned, concat3,
};

verus! {

broadcast use vstd::string::group_string_axioms;

/// The server's settings.
pub struct Settings {
    pub host: String,
    pub port: u16,
    pub database_url: String,
    pub cors_origins: Vec<String>,
    pub llm_log_dir: String,
}

/// Why a port number does not parse, as `u16::from_str` reports it.
pub enum PortError {
    /// The text is empty.
    Empty,
    /// A character is not a decimal digit (or the text is a lone sign).
    InvalidDigit,
    /// The number does not fit in 16 bits.
    TooLarge,
}

impl PortError {
    /// The error's text, as `ParseIntError` displays it.
    pub fn message(&self) -> (r: String)
        ensures
            r@ == match self {
                PortError::Empty => "cannot parse integer from empty string"@,
                PortError::InvalidDigit => "invalid digit found in string"@,
                PortError::TooLarge => "number too large to fit in target type"@,
            },
    {
        match self {
            PortError::Empty => owned("cannot parse integer from empty string"),
            PortError::InvalidDigit => owned("invalid digit found in string"),
            PortError::TooLarge => owned("number too large to fit in target type"),
        }
    }
}

/// The value of a decimal digit.
pub open spec fn digit_value(c: char) -> Option<nat> {
    if '0' <= c && c <= '9' {
        Some((c as nat - '0' as nat) as nat)
    } else {
        None
    }
}

/// Reads digits from left to right; the first character that is no digit, or the first
/// digit that takes the number past 65535, decides the error.
pub open spec fn scan_digits(s: Seq<char>) -> Result<nat, PortError>
    decreases s.len(),
{
    if s.len() == 0 {
        Ok(0)
    } else {
        match scan_digits(s.drop_last()) {
            Err(e) => Err(e),
            Ok(v) => match digit_value(s.last()) {
                None => Err(PortError::InvalidDigit),
                Some(d) => if v * 10 + d > 65535 {
                    Err(PortError::TooLarge)
                } else {
                    Ok(v * 10 + d)
                },
            },
        }
    }
}

/// How `u16::from_str` reads `s`: an empty text is an error; one leading `+` is allowed,
/// but not alone; then decimal digits.
pub open spec fn port_parse(s: Seq<char>) -> Result<nat, PortError> {
    if s.len() == 0 {
        Err(PortError::Empty)
    } else {
        let body = if s[0] == '+' {
            s.drop_first()
        } else {
            s
        };
        if body.len() == 0 {
            Err(PortError::InvalidDigit)
        } else {
            scan_digits(body)
        }
    }
}

/// Reads a port number (`u16::from_str`).
pub fn parse_port(s: &str) -> (r: Result<u16, PortError>)
    ensures
        match port_parse(s@) {
            Ok(v) => r matches Ok(p) && p == v,
            Err(e) => r matches Err(x) && x == e,
        },
{
    let v = chars_of(s);
    if v.len() == 0 {
        return Err(PortError::Empty);
    }
    let start: usize = if v[0] == '+' {
        1
    } else {
        0
    };
    let ghost body = if v@[0] == '+' {
        v@.drop_first()
    } else {
        v@
    };
    assert(body == v@.subrange(start as int, v@.len() as int));
    if start == v.len() {
        return Err(PortError::InvalidDigit);
    }
    let mut value: u32 = 0;
    let mut i: usize = start;
    assert(body.take(0) =~= Seq::<char>::empty());
    assert(port_parse(s@) == scan_digits(body));
    while i < v.len()
        invariant
            v@ == s@,
            port_parse(s@) == scan_digits(body),
            start <= i <= v@.len(),
            body == v@.subrange(start as int, v@.len() as int),
            scan_digits(body.take(i - start)) == Ok::<nat, PortError>(value as nat),
            value <= 65535,
        decreases v.len() - i,
    {
        let ghost k = i - start;
        assert(body.take(k + 1).drop_last() == body.take(k));
        assert(body.take(k + 1).last() == v@[i as int]);
        let c = v[i];
        if c < '0' || c > '9' {
            proof {
                lemma_scan_prefix_err(body, k + 1);
            }
            return Err(PortError::InvalidDigit);
        }
        let d: u32 = (c as u32) - ('0' as u32);
        let next = value * 10 + d;
        if next > 65535 {
            proof {
                lemma_scan_prefix_err(body, k + 1);
            }
            return Err(PortError::TooLarge);
        }
        value = next;
        i = i + 1;
    }
    assert(body.take(body.len() as int) == body);
    Ok(value as u16)
}

/// Once a prefix fails, every longer text fails the same way.
proof fn lemma_scan_prefix_err(s: Seq<char>, n: int)
    requires
        0 <= n <= s.len(),
        scan_digits(s.take(n)) is Err,
    ensures
        scan_digits(s) == scan_digits(s.take(n)),
    decreases s.len() - n,
{
    if n < s.len() {
        assert(s.take(n + 1).drop_last() == s.take(n));
        lemma_scan_prefix_err(s, n + 1);
    } else {
        assert(s.take(n) == s);
    }
}

/// The CORS origins of a comma-separated list, each trimmed.
pub open spec fn origins_of(list: Seq<char>) -> Seq<Seq<char>> {
    split_on(list, ',').map_values(|p: Seq<char>| trim(p))
}

/// The CORS origins of a comma-separated list, each trimmed.
pub fn parse_origins(list: &str) -> (r: Vec<String>)
    ensures
        views(r@) == origins_of(list@),
{
    let parts = split_on_chars(chars_of(list).as_slice(), ',');
    let mut r: Vec<String> = Vec::new();
    let mut i: usize = 0;
    while i < parts.len()
        invariant
            i <= parts@.len(),
            vecs_view(parts@) == split_on(list@, ','),
            views(r@) == origins_of(list@).take(i as int),
        decreases parts.len() - i,
    {
        let o = string_from_chars(trim_chars(parts[i].as_slice()).as_slice());
        let ghost b = r@;
        r.push(o);
        assert(vecs_view(parts@)[i as int] == parts@[i as int]@);
        assert(views(r@) =~= views(b).push(o@));
        assert(views(r@) =~= origins_of(list@).take(i + 1));
        i = i + 1;
    }
    assert(origins_of(list@).take(parts@.len() as int) =~= origins_of(list@));
    r
}

/// An optional text, or a default.
pub open spec fn value_or(o: Option<String>, d: Seq<char>) -> Seq<char> {
    match o {
        Some(s) => s@,
        None => d,
    }
}

/// An optional text, or a default.
fn string_or(o: Option<String>, d: &str) -> (r: String)
    ensures
        r@ == value_or(o, d@),
{
    match o {
        Some(s) => s,
        None => owned(d),
    }
}

/// The text the port is read from: `PORT` when set, else `DAEMON_PORT` (the variable of
/// the daemon this service stands in for), else `3001`.
pub open spec fn port_source(port: Option<String>, daemon_port: Option<String>) -> Seq<char> {
    match port {
        Some(p) => p@,
        None => value_or(daemon_port, "3001"@),
    }
}

impl Settings {
    /// The settings from the values of `HOST`, `PORT`, `DAEMON_PORT`, `DATABASE_URL`,
    /// `CORS_ORIGINS` and `LLM_LOG_DIR` (`None` where unset): the host defaults to
    /// `0.0.0.0`, the port is read from `PORT`, else `DAEMON_PORT`, else `3001`, the
    /// database defaults to `sqlite::memory:`, the origins to the two local front ends, and
    /// the log directory to `./logs/llm`. A port that does not parse is the error.
    pub fn from_values(
        host: Option<String>,
        port: Option<String>,
        daemon_port: Option<String>,
        database_url: Option<String>,
        cors_origins: Option<String>,
        llm_log_dir: Option<String>,
    ) -> (r: Result<Settings, PortError>)
        ensures
            match port_parse(port_source(port, daemon_port)) {
                Err(e) => r matches Err(x) && x == e,
                Ok(p) => r matches Ok(s) && s.port == p && s.host@ == value_or(host, "0.0.0.0"@)
                    && s.database_url@ == value_or(database_url, "sqlite::memory:"@) && views(
                    s.cors_origins@,
                ) == origins_of(
                    value_or(cors_origins, "http://localhost:5173,http://localhost:3000"@),
                ) && s.llm_log_dir@ == value_or(llm_log_dir, "./logs/llm"@),
            },
    {
        let port_text = match port {
            Some(p) => p,
            None => string_or(daemon_port, "3001"),
        };
        let port = match parse_port(port_text.as_str()) {
            Ok(p) => p,
            Err(e) => {
                return Err(e);
            },
        };
        let origins = string_or(cors_origins, "http://localhost:5173,http://localhost:3000");
        Ok(Settings {
            host: string_or(host, "0.0.0.0"),
            port,
            database_url: string_or(database_url, "sqlite::memory:"),
            cors_origins: parse_origins(origins.as_str()),
            llm_log_dir: string_or(llm_log_dir, "./logs/llm"),
        })
    }

    /// The address to listen on: `{host}:{port}`.
    pub fn server_addr(&self) -> (r: String)
        ensures
            r@ == self.host@ + ":"@ + decimal(self.port as nat),
    {
        let port = decimal_string(self.port as usize);
        concat3(self.host.as_str(), ":", port.as_str())
    }
}

/// The decimal digit characters read back as their values.
proof fn lemma_digit_value(d: nat)
    requires
        d < 10,
    ensures
        digit_value(digit_char(d)) == Some(d),
{
}

/// Digits written by `decimal` read back as the number.
proof fn lemma_scan_decimal(n: nat)
    requires
        n <= 65535,
    ensures
        scan_digits(decimal(n)) == Ok::<nat, PortError>(n),
    decreases n,
{
    if n < 10 {
        lemma_digit_value(n);
        assert(decimal(n).drop_last() =~= Seq::<char>::empty());
        assert(scan_digits(decimal(n).drop_last()) == Ok::<nat, PortError>(0));
        assert(decimal(n).last() == digit_char(n));
        assert(digit_value(decimal(n).last()) == Some(n));
    } else {
        lemma_scan_decimal(n / 10);
        lemma_digit_value(n % 10);
        let s = decimal(n);
        assert(s.drop_last() == decimal(n / 10));
        assert(s.last() == digit_char(n % 10));
        assert((n / 10) * 10 + n % 10 == n) by (nonlinear_arith);
        assert(scan_digits(s.drop_last()) == Ok::<nat, PortError>(n / 10));
        assert(digit_value(s.last()) == Some(n % 10));
    }
}

/// `decimal` starts with a digit.
proof fn lemma_decimal_first(n: nat)
    ensures
        decimal(n).len() > 0,
        digit_value(decimal(n)[0]) is Some,
    decreases n,
{
    if n >= 10 {
        lemma_decimal_first(n / 10);
        assert(decimal(n)[0] == decimal(n / 10)[0]);
    } else {
        lemma_digit_value(n);
    }
}

/// The port the server listens on, as the address writes it, parses back to that port.
pub proof fn lemma_port_round_trip(port: u16)
    ensures
        port_parse(decimal(port as nat)) == Ok::<nat, PortError>(port as nat),
{
    lemma_decimal_first(port as nat);
    lemma_scan_decimal(port as nat);
}

} // verus!
