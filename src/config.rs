use vstd::prelude::*;
use crate::text::{decimal_text, comma_pieces, parse_i64, parse_u16, split_commas};

verus! {

/// The service's settings: network address, storage location, allowed
/// origins, the two token secrets with their lifetimes (access tokens in
/// hours, refresh tokens in days) and the OAuth client credentials.
/// Built once at startup and passed by reference to each protocol.
#[derive(Debug)]
pub struct Config {
    host: String,
    port: u16,
    db_url: String,
    cors_origins: Vec<String>,
    access_secret: String,
    access_hours: i64,
    refresh_secret: String,
    refresh_days: i64,
    cookie_name: String,
    github_client_id: String,
    github_client_secret: String,
}

impl Config {
    pub closed spec fn spec_host(&self) -> Seq<char> {
        self.host@
    }

    pub closed spec fn spec_port(&self) -> u16 {
        self.port
    }

    pub closed spec fn spec_db_url(&self) -> Seq<char> {
        self.db_url@
    }

    pub closed spec fn spec_cors_origins(&self) -> Seq<Seq<char>> {
        self.cors_origins@.map_values(|o: String| o@)
    }

    pub closed spec fn spec_access_secret(&self) -> Seq<char> {
        self.access_secret@
    }

    pub closed spec fn spec_access_hours(&self) -> i64 {
        self.access_hours
    }

    pub closed spec fn spec_refresh_secret(&self) -> Seq<char> {
        self.refresh_secret@
    }

    pub closed spec fn spec_refresh_days(&self) -> i64 {
        self.refresh_days
    }

    pub closed spec fn spec_cookie_name(&self) -> Seq<char> {
        self.cookie_name@
    }

    pub closed spec fn spec_github_client_id(&self) -> Seq<char> {
        self.github_client_id@
    }

    pub closed spec fn spec_github_client_secret(&self) -> Seq<char> {
        self.github_client_secret@
    }

    /// A configuration from values that are already validated.
    pub fn new(
        host: String,
        port: u16,
        db_url: String,
        cors_origins: Vec<String>,
        access_secret: String,
        access_hours: i64,
        refresh_secret: String,
        refresh_days: i64,
        cookie_name: String,
        github_client_id: String,
        github_client_secret: String,
    ) -> (r: Config)
        ensures
            r.spec_host() == host@,
            r.spec_port() == port,
            r.spec_db_url() == db_url@,
            r.spec_cors_origins() == cors_origins@.map_values(|o: String| o@),
            r.spec_access_secret() == access_secret@,
            r.spec_access_hours() == access_hours,
            r.spec_refresh_secret() == refresh_secret@,
            r.spec_refresh_days() == refresh_days,
            r.spec_cookie_name() == cookie_name@,
            r.spec_github_client_id() == github_client_id@,
            r.spec_github_client_secret() == github_client_secret@,
    {
        Config {
            host,
            port,
            db_url,
            cors_origins,
            access_secret,
            access_hours,
            refresh_secret,
            refresh_days,
            cookie_name,
            github_client_id,
            github_client_secret,
        }
    }

    pub fn db_url(&self) -> (r: &str)
        ensures
            r@ == self.spec_db_url(),
    {
        self.db_url.as_str()
    }

    pub fn server_host(&self) -> (r: &str)
        ensures
            r@ == self.spec_host(),
    {
        self.host.as_str()
    }

    pub fn server_port(&self) -> (r: u16)
        ensures
            r == self.spec_port(),
    {
        self.port
    }

    /// The allowed origins, in their configured order.
    pub fn cors_origin(&self) -> (r: Vec<&str>)
        ensures
            r@.len() == self.spec_cors_origins().len(),
            forall|i: int| 0 <= i < r@.len() ==> r@[i]@ == self.spec_cors_origins()[i],
    {
        let mut out: Vec<&str> = Vec::new();
        let mut i: usize = 0;
        while i < self.cors_origins.len()
            invariant
                i <= self.cors_origins@.len(),
                out@.len() == i,
                forall|j: int| 0 <= j < i ==> out@[j]@ == self.cors_origins@[j]@,
            decreases self.cors_origins@.len() - i,
        {
            out.push(self.cors_origins[i].as_str());
            i += 1;
        }
        out
    }

    pub fn access_token_secret(&self) -> (r: &str)
        ensures
            r@ == self.spec_access_secret(),
    {
        self.access_secret.as_str()
    }

    /// The access-token lifetime, in hours.
    pub fn access_token_expires_at(&self) -> (r: i64)
        ensures
            r == self.spec_access_hours(),
    {
        self.access_hours
    }

    pub fn refresh_token_secret(&self) -> (r: &str)
        ensures
            r@ == self.spec_refresh_secret(),
    {
        self.refresh_secret.as_str()
    }

    /// The refresh-token lifetime, in days: of the signed claims, of the
    /// stored record and of the client-side credential alike.
    pub fn refresh_token_expires_at(&self) -> (r: i64)
        ensures
            r == self.spec_refresh_days(),
    {
        self.refresh_days
    }

    pub fn refresh_token_cookie_name(&self) -> (r: &str)
        ensures
            r@ == self.spec_cookie_name(),
    {
        self.cookie_name.as_str()
    }

    pub fn github_auth_client_id(&self) -> (r: &str)
        ensures
            r@ == self.spec_github_client_id(),
    {
        self.github_client_id.as_str()
    }

    pub fn github_auth_client_secret(&self) -> (r: &str)
        ensures
            r@ == self.spec_github_client_secret(),
    {
        self.github_client_secret.as_str()
    }
}

/// Why a configuration could not be built from the environment.
#[derive(Debug, Clone, PartialEq, Eq)]
pub enum ConfigError {
    /// A required variable is not set.
    Missing { name: String },
    /// A variable that must be a number is not one.
    Invalid { name: String },
}

impl ConfigError {
    pub fn describe(&self) -> (r: String)
        ensures
            self matches ConfigError::Missing { name } ==> r@ == name@ + " must be set"@,
            self matches ConfigError::Invalid { name } ==> r@ == name@ + " must be a number"@,
    {
        match self {
            ConfigError::Missing { name } => name.clone().concat(" must be set"),
            ConfigError::Invalid { name } => name.clone().concat(" must be a number"),
        }
    }
}

/// The value of variable `k` among `vars`; where it is listed twice, the
/// later entry wins.
pub open spec fn env_value(vars: Seq<(String, String)>, k: Seq<char>) -> Option<Seq<char>>
    decreases vars.len(),
{
    if vars.len() == 0 {
        None
    } else if vars.last().0@ == k {
        Some(vars.last().1@)
    } else {
        env_value(vars.drop_last(), k)
    }
}

/// The value of `k`, or `default` where it is not set.
pub open spec fn env_value_or(vars: Seq<(String, String)>, k: Seq<char>, default: Seq<char>) -> Seq<char> {
    match env_value(vars, k) {
        Some(v) => v,
        None => default,
    }
}

pub open spec fn is_set(vars: Seq<(String, String)>, k: Seq<char>) -> bool {
    env_value(vars, k) is Some
}

/// The text is a decimal integer of the given range.
pub open spec fn reads_as_i64(s: Seq<char>) -> bool {
    decimal_text(s, true) matches Some(v) && i64::MIN <= v <= i64::MAX
}

pub open spec fn reads_as_u16(s: Seq<char>) -> bool {
    decimal_text(s, false) matches Some(v) && 0 <= v <= u16::MAX
}

/// Every required variable is set and each number reads as one.
pub open spec fn env_complete(vars: Seq<(String, String)>) -> bool {
    &&& reads_as_u16(env_value_or(vars, "PORT"@, "8000"@))
    &&& is_set(vars, "DATABASE_URL"@)
    &&& is_set(vars, "CORS_ORIGIN"@)
    &&& is_set(vars, "ACCESS_SECRET"@)
    &&& is_set(vars, "ACCESS_EXPIRES"@) && reads_as_i64(env_value(vars, "ACCESS_EXPIRES"@)->0)
    &&& is_set(vars, "REFRESH_TOKEN"@)
    &&& is_set(vars, "REFRESH_EXPIRES"@) && reads_as_i64(env_value(vars, "REFRESH_EXPIRES"@)->0)
    &&& is_set(vars, "COOKIE_NAME"@)
    &&& is_set(vars, "GITHUB_OAUTH_CLIENT_ID"@)
    &&& is_set(vars, "GITHUB_OAUTH_CLIENT_SECRET"@)
}

/// `e` names a variable that is really missing, or really not a number.
pub open spec fn names_a_problem(vars: Seq<(String, String)>, e: ConfigError) -> bool {
    match e {
        ConfigError::Missing { name } => !is_set(vars, name@),
        ConfigError::Invalid { name } => (name@ == "PORT"@ && !reads_as_u16(
            env_value_or(vars, "PORT"@, "8000"@),
        )) || (is_set(vars, name@) && !reads_as_i64(env_value(vars, name@)->0)),
    }
}

fn env_lookup(vars: &Vec<(String, String)>, key: &str) -> (r: Option<String>)
    ensures
        match r {
            Some(v) => env_value(vars@, key@) == Some(v@),
            None => env_value(vars@, key@) is None,
        },
{
    let k = String::from_str(key);
    let mut found: Option<String> = None;
    let mut i: usize = 0;
    while i < vars.len()
        invariant
            i <= vars@.len(),
            k@ == key@,
            match found {
                Some(v) => env_value(vars@.subrange(0, i as int), key@) == Some(v@),
                None => env_value(vars@.subrange(0, i as int), key@) is None,
            },
        decreases vars@.len() - i,
    {
        proof {
            assert(vars@.subrange(0, i + 1).drop_last() =~= vars@.subrange(0, i as int));
            assert(vars@.subrange(0, i + 1).last() == vars@[i as int]);
        }
        if vars[i].0 == k {
            found = Some(vars[i].1.clone());
        }
        i += 1;
    }
    assert(vars@.subrange(0, vars@.len() as int) =~= vars@);
    found
}

fn required(vars: &Vec<(String, String)>, key: &str) -> (r: Result<String, ConfigError>)
    ensures
        match r {
            Ok(v) => env_value(vars@, key@) == Some(v@),
            Err(e) => env_value(vars@, key@) is None && e == ConfigError::Missing {
                name: e->Missing_name,
            } && e->Missing_name@ == key@,
        },
{
    match env_lookup(vars, key) {
        Some(v) => Ok(v),
        None => Err(ConfigError::Missing { name: String::from_str(key) }),
    }
}

fn required_i64(vars: &Vec<(String, String)>, key: &str) -> (r: Result<i64, ConfigError>)
    ensures
        r is Ok <==> is_set(vars@, key@) && reads_as_i64(env_value(vars@, key@)->0),
        r matches Ok(v) ==> decimal_text(env_value(vars@, key@)->0, true) == Some(v as int),
        r matches Err(e) ==> names_a_problem(vars@, e),
        r matches Err(ConfigError::Invalid { name }) ==> name@ == key@,
{
    let text = match required(vars, key) {
        Ok(t) => t,
        Err(e) => {
            return Err(e);
        },
    };
    match parse_i64(text.as_str()) {
        Some(v) => Ok(v),
        None => Err(ConfigError::Invalid { name: String::from_str(key) }),
    }
}

impl Config {
    /// Builds the configuration from the process environment's variables:
    /// `HOST` (default `127.0.0.1`), `PORT` (default `8000`), `DATABASE_URL`,
    /// `CORS_ORIGIN` (a comma-separated list), `ACCESS_SECRET`,
    /// `ACCESS_EXPIRES` (hours), `REFRESH_TOKEN` (the refresh secret),
    /// `REFRESH_EXPIRES` (days), `COOKIE_NAME`, `GITHUB_OAUTH_CLIENT_ID` and
    /// `GITHUB_OAUTH_CLIENT_SECRET`. A missing variable or a number that does
    /// not read is reported, never a panic.
    pub fn from_vars(vars: &Vec<(String, String)>) -> (r: Result<Config, ConfigError>)
        ensures
            r is Ok <==> env_complete(vars@),
            r matches Err(e) ==> names_a_problem(vars@, e),
            r matches Ok(c) ==> {
                &&& c.spec_host() == env_value_or(vars@, "HOST"@, "127.0.0.1"@)
                &&& decimal_text(env_value_or(vars@, "PORT"@, "8000"@), false) == Some(
                    c.spec_port() as int,
                )
                &&& Some(c.spec_db_url()) == env_value(vars@, "DATABASE_URL"@)
                &&& c.spec_cors_origins() == comma_pieces(env_value(vars@, "CORS_ORIGIN"@)->0)
                &&& Some(c.spec_access_secret()) == env_value(vars@, "ACCESS_SECRET"@)
                &&& decimal_text(env_value(vars@, "ACCESS_EXPIRES"@)->0, true) == Some(
                    c.spec_access_hours() as int,
                )
                &&& Some(c.spec_refresh_secret()) == env_value(vars@, "REFRESH_TOKEN"@)
                &&& decimal_text(env_value(vars@, "REFRESH_EXPIRES"@)->0, true) == Some(
                    c.spec_refresh_days() as int,
                )
                &&& Some(c.spec_cookie_name()) == env_value(vars@, "COOKIE_NAME"@)
                &&& Some(c.spec_github_client_id()) == env_value(vars@, "GITHUB_OAUTH_CLIENT_ID"@)
                &&& Some(c.spec_github_client_secret()) == env_value(
                    vars@,
                    "GITHUB_OAUTH_CLIENT_SECRET"@,
                )
            },
    {
        let host = match env_lookup(vars, "HOST") {
            Some(h) => h,
            None => String::from_str("127.0.0.1"),
        };
        let port_text = match env_lookup(vars, "PORT") {
            Some(p) => p,
            None => String::from_str("8000"),
        };
        let port = match parse_u16(port_text.as_str()) {
            Some(p) => p,
            None => {
                return Err(ConfigError::Invalid { name: String::from_str("PORT") });
            },
        };
        let db_url = required(vars, "DATABASE_URL")?;
        let cors_text = required(vars, "CORS_ORIGIN")?;
        let access_secret = required(vars, "ACCESS_SECRET")?;
        let access_hours = required_i64(vars, "ACCESS_EXPIRES")?;
        let refresh_secret = required(vars, "REFRESH_TOKEN")?;
        let refresh_days = required_i64(vars, "REFRESH_EXPIRES")?;
        let cookie_name = required(vars, "COOKIE_NAME")?;
        let github_client_id = required(vars, "GITHUB_OAUTH_CLIENT_ID")?;
        let github_client_secret = required(vars, "GITHUB_OAUTH_CLIENT_SECRET")?;
        let cors_origins = split_commas(cors_text.as_str());
        Ok(
            Config::new(
                host,
                port,
                db_url,
                cors_origins,
                access_secret,
                access_hours,
                refresh_secret,
                refresh_days,
                cookie_name,
                github_client_id,
                github_client_secret,
            ),
        )
    }
}

} // verus!
