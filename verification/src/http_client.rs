//! The configuration of the outbound HTTP client, and how a service's name
//! and an endpoint become a URL.

use vstd::hash_map::StringHashMap;
use vstd::prelude::*;
use vstd::string::StringExecFns;
use crate::text::{
    decimal, decimal_text, ends_with, has_prefix, has_suffix, lowercase, lowercased, parse_u64,
    parsed_u64, starts_with, trim_end_matches, trim_start_matches, trimmed_end, trimmed_start,
};

verus! {

/// Why a call to another service failed.
#[derive(Debug)]
pub enum HttpClientError {
    RequestFailed(String),
    DeserializeFailed(String),
    UnexpectedStatus(u16),
}

/// The words in which a failure is reported.
pub open spec fn http_error_text(e: HttpClientError) -> Seq<char> {
    match e {
        HttpClientError::RequestFailed(cause) => "HTTP request failed: "@ + cause@,
        HttpClientError::DeserializeFailed(cause) => "Deserialization failed: "@ + cause@,
        HttpClientError::UnexpectedStatus(status) => "Unexpected status code: "@ + decimal_text(
            status as i64,
        ),
    }
}

impl HttpClientError {
    /// The failure in words.
    pub fn message(&self) -> (text: String)
        ensures
            text@ == http_error_text(*self),
    {
        match self {
            HttpClientError::RequestFailed(cause) => {
                let mut text = String::from_str("HTTP request failed: ");
                text.append(cause.as_str());
                text
            },
            HttpClientError::DeserializeFailed(cause) => {
                let mut text = String::from_str("Deserialization failed: ");
                text.append(cause.as_str());
                text
            },
            HttpClientError::UnexpectedStatus(status) => {
                let mut text = String::from_str("Unexpected status code: ");
                text.append(decimal(*status as i64).as_str());
                text
            },
        }
    }
}

/// A status from 200 to 299 reports success.
pub open spec fn is_success(status: u16) -> bool {
    200 <= status < 300
}

/// What a response with `status` and the body `text` comes to: the body,
/// for the caller to read, where the status reports success, and the status
/// as an error where it does not.
pub fn handle_response(status: u16, text: String) -> (result: Result<String, HttpClientError>)
    ensures
        result == if is_success(status) {
            Ok::<String, HttpClientError>(text)
        } else {
            Err::<String, HttpClientError>(HttpClientError::UnexpectedStatus(status))
        },
{
    if 200 <= status && status < 300 {
        Ok(text)
    } else {
        Err(HttpClientError::UnexpectedStatus(status))
    }
}

/// What the response to a delete request comes to: nothing where `status`
/// reports success, and the failure in words where it does not.
pub fn delete_result(status: u16) -> (result: Result<(), String>)
    ensures
        match result {
            Ok(_) => is_success(status),
            Err(text) => !is_success(status) && text@ == "Delete failed with status "@
                + decimal_text(status as i64),
        },
{
    if 200 <= status && status < 300 {
        Ok(())
    } else {
        let mut text = String::from_str("Delete failed with status ");
        text.append(decimal(status as i64).as_str());
        Err(text)
    }
}

pub struct HttpClientConfig {
    /// The base URL of each service, under the lower-case name of the
    /// variable that gave it.
    pub base_url: StringHashMap<String>,
    pub timeout_seconds: u64,
    pub max_idle_connections: usize,
    pub pool_idle_timeout_seconds: u64,
    pub default_header_auth: Option<String>,
}

/// The value of the first variable called `name`.
pub open spec fn var_value(vars: Seq<(String, String)>, name: Seq<char>) -> Option<Seq<char>>
    decreases vars.len(),
{
    if vars.len() == 0 {
        None
    } else if vars[0].0@ == name {
        Some(vars[0].1@)
    } else {
        var_value(vars.drop_first(), name)
    }
}

/// The number that `text` spells, or `default` where it is absent or
/// spells none.
pub open spec fn number_or(text: Option<Seq<char>>, default: u64) -> u64 {
    match text {
        Some(t) => match parsed_u64(t) {
            Some(n) => n,
            None => default,
        },
        None => default,
    }
}

/// As `number_or`, for a count: a number too large to count with on this
/// machine counts as none.
pub open spec fn count_or(text: Option<Seq<char>>, default: usize) -> usize {
    match text {
        Some(t) => match parsed_u64(t) {
            Some(n) => if n <= usize::MAX {
                n as usize
            } else {
                default
            },
            None => default,
        },
        None => default,
    }
}

/// The values of the variables whose names end in `_SERVICE_URL`, each under
/// its name in lower case; of two that share a name the later one counts.
pub open spec fn service_urls(vars: Seq<(String, String)>) -> Map<Seq<char>, String>
    decreases vars.len(),
{
    if vars.len() == 0 {
        Map::empty()
    } else {
        let rest = service_urls(vars.drop_last());
        if has_suffix(vars.last().0@, "_SERVICE_URL"@) {
            rest.insert(lowercased(vars.last().0@), vars.last().1)
        } else {
            rest
        }
    }
}

/// The URL on record under `key`.
pub open spec fn url_under(urls: Map<Seq<char>, String>, key: Seq<char>) -> Option<Seq<char>> {
    if urls.contains_key(key) {
        Some(urls[key]@)
    } else {
        None
    }
}

/// The URL of `endpoint` at a service whose base URL is `base`: an endpoint
/// that starts with `http` stands for itself, and so does any endpoint where
/// the service has no base URL; otherwise the two are joined by one slash.
pub open spec fn resolved_url(base: Option<Seq<char>>, endpoint: Seq<char>) -> Seq<char> {
    if has_prefix(endpoint, "http"@) {
        endpoint
    } else {
        match base {
            Some(b) => trimmed_end(b, '/') + "/"@ + trimmed_start(endpoint, '/'),
            None => endpoint,
        }
    }
}

/// The value of the first variable called `name`.
pub fn find_var<'a>(vars: &'a Vec<(String, String)>, name: &str) -> (value: Option<&'a str>)
    ensures
        match value {
            Some(v) => var_value(vars@, name@) == Some(v@),
            None => var_value(vars@, name@) is None,
        },
{
    let wanted = String::from_str(name);
    let mut i: usize = 0;
    assert(vars@.subrange(0, vars@.len() as int) =~= vars@);
    while i < vars.len()
        invariant
            i <= vars@.len(),
            wanted@ == name@,
            var_value(vars@, name@) == var_value(vars@.subrange(i as int, vars@.len() as int), name@),
        decreases vars@.len() - i,
    {
        assert(vars@.subrange(i as int, vars@.len() as int).drop_first() =~= vars@.subrange(
            i + 1,
            vars@.len() as int,
        ));
        if vars[i].0 == wanted {
            return Some(vars[i].1.as_str());
        }
        i += 1;
    }
    None
}

impl HttpClientConfig {
    /// The configuration that the variables `vars` of the environment call
    /// for: each limit from its variable, or its default where the variable
    /// is absent or spells no number, and a base URL for each variable whose
    /// name ends in `_SERVICE_URL`.
    pub fn from_vars(vars: &Vec<(String, String)>) -> (config: Self)
        ensures
            config.timeout_seconds == number_or(var_value(vars@, "TIMEOUT_SECONDS"@), 10),
            config.max_idle_connections == count_or(
                var_value(vars@, "MAX_IDLE_CONNECTIONS"@),
                10,
            ),
            config.pool_idle_timeout_seconds == number_or(
                var_value(vars@, "POOL_IDLE_TIMEOUT_SECONDS"@),
                30,
            ),
            config.default_header_auth is None,
            config.base_url@ == service_urls(vars@),
    {
        let timeout_seconds: u64 = match find_var(vars, "TIMEOUT_SECONDS") {
            Some(text) => match parse_u64(text) {
                Some(n) => n,
                None => 10,
            },
            None => 10,
        };
        let max_idle_connections: usize = match find_var(vars, "MAX_IDLE_CONNECTIONS") {
            Some(text) => match parse_u64(text) {
                Some(n) => if n <= usize::MAX as u64 {
                    n as usize
                } else {
                    10
                },
                None => 10,
            },
            None => 10,
        };
        let pool_idle_timeout_seconds: u64 = match find_var(vars, "POOL_IDLE_TIMEOUT_SECONDS") {
            Some(text) => match parse_u64(text) {
                Some(n) => n,
                None => 30,
            },
            None => 30,
        };
        let mut base_urls: StringHashMap<String> = StringHashMap::new();
        let mut i: usize = 0;
        assert(vars@.subrange(0, 0) =~= Seq::<(String, String)>::empty());
        while i < vars.len()
            invariant
                i <= vars@.len(),
                base_urls@ == service_urls(vars@.subrange(0, i as int)),
            decreases vars@.len() - i,
        {
            assert(vars@.subrange(0, i + 1).drop_last() =~= vars@.subrange(0, i as int));
            assert(vars@.subrange(0, i + 1).last() == vars@[i as int]);
            if ends_with(vars[i].0.as_str(), "_SERVICE_URL") {
                base_urls.insert(lowercase(vars[i].0.as_str()), vars[i].1.clone());
            }
            i += 1;
        }
        assert(vars@.subrange(0, vars@.len() as int) =~= vars@);
        Self {
            base_url: base_urls,
            timeout_seconds,
            max_idle_connections,
            pool_idle_timeout_seconds,
            default_header_auth: None,
        }
    }

    /// The base URL on record for the service whose name, already in lower
    /// case, is `service`: the one under `service` followed by
    /// `_service_url`.
    pub fn base_url_of(&self, service: String) -> (url: Option<String>)
        ensures
            url_under(self.base_url@, service@ + "_service_url"@) == match url {
                Some(u) => Some(u@),
                None => None,
            },
    {
        let mut key = service;
        key.append("_service_url");
        match self.base_url.get(key.as_str()) {
            Some(url) => Some(url.clone()),
            None => None,
        }
    }

    /// The base URL on record for the service `key`, whatever the case in
    /// which `key` is written.
    pub fn resolve_base_url(&self, key: &str) -> (url: Option<String>)
        ensures
            url_under(self.base_url@, lowercased(key@) + "_service_url"@) == match url {
                Some(u) => Some(u@),
                None => None,
            },
    {
        self.base_url_of(lowercase(key))
    }
}

/// The URL of `endpoint` at a service with the base URL `base`.
pub fn join_url(base: Option<String>, endpoint: &str) -> (url: String)
    ensures
        url@ == resolved_url(
            match base {
                Some(b) => Some(b@),
                None => None,
            },
            endpoint@,
        ),
{
    if starts_with(endpoint, "http") {
        return String::from_str(endpoint);
    }
    match base {
        Some(b) => {
            let mut url = String::from_str(trim_end_matches(b.as_str(), '/'));
            url.append("/");
            url.append(trim_start_matches(endpoint, '/'));
            url
        },
        None => String::from_str(endpoint),
    }
}

/// The URL of `endpoint` at the service called `service`, by the base URLs
/// of `config`.
pub fn resolve_url(config: &HttpClientConfig, service: &str, endpoint: &str) -> (url: String)
    ensures
        url@ == resolved_url(
            url_under(config.base_url@, lowercased(service@) + "_service_url"@),
            endpoint@,
        ),
{
    join_url(config.resolve_base_url(service), endpoint)
}

} // verus!
