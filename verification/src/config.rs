use vstd::prelude::*;
use vstd::string::StrSliceExecFns;

use crate::provider::Provider;
use crate::provider::ProviderError;
use crate::provider::lemma_name_then_parse;
use crate::provider::spec_parse_provider;
use crate::provider::spec_provider_name;
use crate::utils::str_eq;

verus! {

/// Errors related to configure operations.
#[derive(Clone, Copy, Debug, PartialEq, Eq, Structural)]
pub enum ConfigError {
    /// No per-user config directory is available on this system.
    NoConfigDir,
    ProviderError(ProviderError),
    /// Reading or writing the config file failed.
    IoError,
}

/// Compute the provider choice from the config file's content.
/// `None` stands for an absent config file: the default provider is
/// chosen, and the caller is expected to persist
/// `default_config_content()` for later runs.
pub fn resolve_provider_choice(content: Option<&str>) -> (r: Result<Provider, ConfigError>)
    ensures
        (match content {
            Some(s) => match spec_parse_provider(s@) {
                Ok(p) => r == Ok::<Provider, ConfigError>(p),
                Err(e) => r == Err::<Provider, ConfigError>(ConfigError::ProviderError(e)),
            },
            None => r == Ok::<Provider, ConfigError>(Provider::OpenWeather),
        }),
{
    match content {
        Some(s) => match Provider::try_from(s) {
            Ok(p) => Ok(p),
            Err(e) => Err(ConfigError::ProviderError(e)),
        },
        None => Ok(Provider::OpenWeather),
    }
}

/// The content written for an absent config file: the default
/// provider's name.
pub fn default_config_content() -> (r: String)
    ensures
        r@ == spec_provider_name(Provider::OpenWeather),
{
    let p = Provider::OpenWeather;
    p.name()
}

/// Validate a provider name and compute the config file content that
/// persists it: the provider's canonical lowercase name.
pub fn save_content(provider: &str) -> (r: Result<String, ConfigError>)
    ensures
        (match spec_parse_provider(provider@) {
            Ok(p) => r is Ok && r->Ok_0@ == spec_provider_name(p),
            Err(e) => r == Err::<String, ConfigError>(ConfigError::ProviderError(e)),
        }),
{
    match Provider::try_from(provider) {
        Ok(p) => Ok(p.name()),
        Err(e) => Err(ConfigError::ProviderError(e)),
    }
}

/// Configuring a provider and then retrieving it, with no intervening
/// write, returns the same provider: the content that `save_content`
/// persists for `p` resolves back to `p`.
pub proof fn lemma_configure_then_retrieve(p: Provider)
    ensures
        spec_parse_provider(spec_provider_name(p)) == Ok::<Provider, ProviderError>(p),
{
    lemma_name_then_parse(p);
}

/// The position of the first newline in `s`, or `s.len()` if there is
/// none.
pub open spec fn first_newline(s: Seq<char>) -> int
    decreases s.len(),
{
    if s.len() == 0 {
        0
    } else if s[0] == '\n' {
        0
    } else {
        1 + first_newline(s.drop_first())
    }
}

proof fn lemma_first_newline_bounds(s: Seq<char>)
    ensures
        0 <= first_newline(s) <= s.len(),
    decreases s.len(),
{
    if s.len() == 0 {
    } else if s[0] == '\n' {
    } else {
        lemma_first_newline_bounds(s.drop_first());
    }
}

/// `first_newline` is the unique position `i` with no newline before it
/// that is either the end or a newline itself.
proof fn lemma_first_newline_at(s: Seq<char>, i: int)
    requires
        0 <= i <= s.len(),
        forall|k: int| 0 <= k < i ==> s[k] != '\n',
        i < s.len() ==> s[i] == '\n',
    ensures
        first_newline(s) == i,
    decreases s.len(),
{
    if s.len() == 0 {
    } else if s[0] == '\n' {
        assert(i == 0);
    } else {
        assert(i >= 1);
        lemma_first_newline_at(s.drop_first(), i - 1);
    }
}

/// Whether a config line is the mapping for `name`: it starts with
/// `name` followed by `=`.
pub open spec fn line_has_key(line: Seq<char>, name: Seq<char>) -> bool {
    &&& line.len() > name.len()
    &&& line.subrange(0, name.len() as int) == name
    &&& line[name.len() as int] == '='
}

/// The value part of a line that `line_has_key` accepts: everything
/// after the `=`.
pub open spec fn line_value(line: Seq<char>, name: Seq<char>) -> Seq<char> {
    line.subrange(name.len() as int + 1, line.len() as int)
}

/// The API key that a `name=key`-per-line text maps `name` to: the
/// value of the first line whose key is `name`, or `None` if no line
/// matches.
pub open spec fn spec_apikey(conf: Seq<char>, name: Seq<char>) -> Option<Seq<char>>
    decreases conf.len(),
    via spec_apikey_decreases
{
    let i = first_newline(conf);
    let line = conf.subrange(0, i);
    if line_has_key(line, name) {
        Some(line_value(line, name))
    } else if i == conf.len() {
        None
    } else {
        spec_apikey(conf.subrange(i + 1, conf.len() as int), name)
    }
}

#[via_fn]
proof fn spec_apikey_decreases(conf: Seq<char>, name: Seq<char>) {
    lemma_first_newline_bounds(conf);
}

/// Look up the API key for `provider` in a key-value text with one
/// `provider=key` mapping per line.
pub fn parse_apikey(conf: &str, provider: &str) -> (r: Option<String>)
    ensures
        (match r {
            Some(k) => spec_apikey(conf@, provider@) == Some(k@),
            None => spec_apikey(conf@, provider@) is None,
        }),
{
    let conf_len = conf.unicode_len();
    let name_len = provider.unicode_len();
    let mut start: usize = 0;
    proof {
        assert(conf@.subrange(0, conf_len as int) =~= conf@);
    }
    loop
        invariant
            0 <= start <= conf_len,
            conf_len as nat == conf@.len(),
            name_len as nat == provider@.len(),
            spec_apikey(conf@, provider@) == spec_apikey(
                conf@.subrange(start as int, conf_len as int),
                provider@,
            ),
        decreases conf_len - start,
    {
        let ghost rest = conf@.subrange(start as int, conf_len as int);
        let mut end: usize = start;
        loop
            invariant
                start <= end <= conf_len,
                conf_len as nat == conf@.len(),
                forall|k: int| start <= k < end ==> conf@[k] != '\n',
            ensures
                start <= end <= conf_len,
                forall|k: int| start <= k < end ==> conf@[k] != '\n',
                end < conf_len ==> conf@[end as int] == '\n',
            decreases conf_len - end,
        {
            if end == conf_len {
                break;
            }
            if conf.get_char(end) == '\n' {
                break;
            }
            end = end + 1;
        }
        proof {
            assert(forall|k: int| 0 <= k < end - start ==> rest[k] == conf@[k + start]);
            assert(end < conf_len ==> rest[end - start] == conf@[end as int]);
            lemma_first_newline_at(rest, end - start);
            assert(rest.subrange(0, end - start) =~= conf@.subrange(start as int, end as int));
        }
        let ghost line = conf@.subrange(start as int, end as int);
        let line_len = end - start;
        let mut matched = false;
        if line_len > name_len {
            let key_part = conf.substring_char(start, start + name_len);
            proof {
                assert(key_part@ =~= line.subrange(0, name_len as int));
            }
            if str_eq(key_part, provider) {
                proof {
                    assert(line[name_len as int] == conf@[start as int + name_len as int]);
                }
                if conf.get_char(start + name_len) == '=' {
                    matched = true;
                }
            }
        }
        proof {
            assert(line.len() == end - start);
            assert(matched == line_has_key(line, provider@));
        }
        if matched {
            proof {
                assert(line_value(line, provider@) =~= conf@.subrange(
                    start as int + name_len as int + 1,
                    end as int,
                ));
            }
            let value = conf.substring_char(start + name_len + 1, end);
            return Some(value.to_owned());
        }
        if end == conf_len {
            return None;
        }
        proof {
            assert(rest.subrange(end - start + 1, rest.len() as int) =~= conf@.subrange(
                end as int + 1,
                conf_len as int,
            ));
        }
        start = end + 1;
    }
}

} // verus!
