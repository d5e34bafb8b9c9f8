use vstd::prelude::*;
use vstd::string::*;
use crate::env_file::{find_char, index_of, valid_key};
use crate::error::MddeError;
use crate::i18n::{fill, t, tf, translate, LanguageSetting};
use crate::text::{
    char_is_ascii_alnum, chars_of, has_prefix, has_prefix_str, is_ascii_alnum, parse_u16,
    parse_u16_range, string_of_range, trim, trim_range,
};

verus! {

/// The part of `s` before its first `c`, or all of `s`.
pub open spec fn before_first(s: Seq<char>, c: char) -> Seq<char> {
    s.subrange(0, index_of(s, c) as int)
}

/// The part of `s` after its first `c`; empty where there is none.
pub open spec fn after_first(s: Seq<char>, c: char) -> Seq<char> {
    if index_of(s, c) < s.len() {
        s.subrange((index_of(s, c) + 1) as int, s.len() as int)
    } else {
        Seq::empty()
    }
}

pub open spec fn has_char(s: Seq<char>, c: char) -> bool {
    index_of(s, c) < s.len()
}

/// A port mapping `host:container`: exactly one `:`, two numbers that
/// `u16` reads, neither of them zero.
pub open spec fn port_mapping_of(s: Seq<char>) -> Option<(u16, u16)> {
    let h = before_first(s, ':');
    let c = after_first(s, ':');
    if has_char(s, ':') && !has_char(c, ':') && parse_u16(h) is Some && parse_u16(c) is Some
        && parse_u16(h)->0 != 0 && parse_u16(c)->0 != 0 {
        Some((parse_u16(h)->0, parse_u16(c)->0))
    } else {
        None
    }
}

proof fn lemma_index_of_bound(s: Seq<char>, c: char)
    ensures
        index_of(s, c) <= s.len(),
        index_of(s, c) < s.len() ==> s[index_of(s, c) as int] == c,
    decreases s.len(),
{
    if s.len() > 0 && s[0] != c {
        lemma_index_of_bound(s.drop_first(), c);
    }
}

/// Reads a port mapping `host:container`.
pub fn validate_port(setting: &LanguageSetting, port_mapping: &str) -> (r: Result<
    (u16, u16),
    MddeError,
>)
    ensures
        match r {
            Ok(p) => port_mapping_of(port_mapping@) == Some(p),
            Err(e) => port_mapping_of(port_mapping@) is None && e is InvalidPortFormat,
        },
        ({
            let s = port_mapping@;
            let h = before_first(s, ':');
            let c = after_first(s, ':');
            let lang = setting.current();
            r is Err ==> match r->Err_0 {
                MddeError::InvalidPortFormat(m) => if !has_char(s, ':') || has_char(c, ':') {
                    m@ == fill(translate(lang, "port_format_error"@), seq![port_mapping], 1)
                } else if parse_u16(h) is None {
                    exists|a: &str|
                        a@ == h && m@ == #[trigger] fill(
                            translate(lang, "invalid_host_port"@),
                            seq![a],
                            1,
                        )
                } else if parse_u16(c) is None {
                    exists|a: &str|
                        a@ == c && m@ == #[trigger] fill(
                            translate(lang, "invalid_container_port"@),
                            seq![a],
                            1,
                        )
                } else {
                    m@ == translate(lang, "port_cannot_be_zero"@)
                },
                _ => false,
            }
        }),
{
    let cs = chars_of(port_mapping);
    let n = cs.len();
    let ghost s = port_mapping@;
    assert(cs@.subrange(0, n as int) =~= s);
    let q = find_char(&cs, 0, n, ':');
    if q == n {
        let args = [port_mapping];
        assert(args@ =~= seq![port_mapping]);
        return Err(MddeError::InvalidPortFormat(tf(setting, "port_format_error", &args)));
    }
    proof {
        lemma_index_of_bound(s, ':');
    }
    let q2 = find_char(&cs, q + 1, n, ':');
    assert(cs@.subrange(q + 1, n as int) =~= after_first(s, ':'));
    assert(cs@.subrange(0, q as int) =~= before_first(s, ':'));
    if q2 != n {
        let args = [port_mapping];
        assert(args@ =~= seq![port_mapping]);
        return Err(MddeError::InvalidPortFormat(tf(setting, "port_format_error", &args)));
    }
    let host = parse_u16_range(&cs, 0, q);
    let container = parse_u16_range(&cs, q + 1, n);
    match host {
        None => {
            let part = string_of_range(&cs, 0, q);
            let ps = part.as_str();
            let args = [ps];
            assert(args@ =~= seq![ps]);
            Err(MddeError::InvalidPortFormat(tf(setting, "invalid_host_port", &args)))
        },
        Some(h) => match container {
            None => {
                let part = string_of_range(&cs, q + 1, n);
                let ps = part.as_str();
                let args = [ps];
                assert(args@ =~= seq![ps]);
                Err(MddeError::InvalidPortFormat(tf(setting, "invalid_container_port", &args)))
            },
            Some(c) => {
                if h == 0 || c == 0 {
                    Err(
                        MddeError::InvalidPortFormat(
                            String::from_str(t(setting, "port_cannot_be_zero")),
                        ),
                    )
                } else {
                    Ok((h, c))
                }
            },
        },
    }
}

/// The key and value of a `key=value` argument: split at the first `=`, both
/// sides trimmed.
pub open spec fn key_value_parts(s: Seq<char>) -> (Seq<char>, Seq<char>) {
    (trim(before_first(s, '=')), trim(after_first(s, '=')))
}

/// Reads a `key=value` argument. The key must be one or more of
/// `[A-Za-z0-9_]`; the value may hold further `=`.
pub fn parse_key_value(setting: &LanguageSetting, input: &str) -> (r: Result<
    (String, String),
    MddeError,
>)
    ensures
        ({
            let s = input@;
            let (k, v) = key_value_parts(s);
            let lang = setting.current();
            match r {
                Ok((rk, rv)) => has_char(s, '=') && valid_key(k) && rk@ == k && rv@ == v,
                Err(MddeError::InvalidArgument(m)) => if !has_char(s, '=') {
                    m@ == fill(translate(lang, "invalid_format"@), seq![input], 1)
                } else if k.len() == 0 {
                    m@ == translate(lang, "env_var_name_empty"@)
                } else {
                    !valid_key(k) && m@ == translate(lang, "env_var_name_chars"@)
                },
                Err(_) => false,
            }
        }),
{
    let cs = chars_of(input);
    let n = cs.len();
    let ghost s = input@;
    assert(cs@.subrange(0, n as int) =~= s);
    let q = find_char(&cs, 0, n, '=');
    if q == n {
        let args = [input];
        assert(args@ =~= seq![input]);
        return Err(MddeError::InvalidArgument(tf(setting, "invalid_format", &args)));
    }
    proof {
        lemma_index_of_bound(s, '=');
    }
    assert(cs@.subrange(q + 1, n as int) =~= after_first(s, '='));
    assert(cs@.subrange(0, q as int) =~= before_first(s, '='));
    let (ka, kb) = trim_range(&cs, 0, q);
    let (va, vb) = trim_range(&cs, q + 1, n);
    if ka == kb {
        return Err(MddeError::InvalidArgument(String::from_str(t(setting, "env_var_name_empty"))));
    }
    let mut i: usize = ka;
    while i < kb
        invariant
            ka <= i <= kb <= cs@.len(),
            cs@.subrange(ka as int, kb as int) == key_value_parts(input@).0,
            has_char(input@, '='),
            forall|j: int| ka <= j < i ==> is_ascii_alnum(#[trigger] cs@[j]) || cs@[j] == '_',
        decreases kb - i,
    {
        if !(char_is_ascii_alnum(cs[i]) || cs[i] == '_') {
            let ghost k = cs@.subrange(ka as int, kb as int);
            assert(k[i - ka] == cs@[i as int]);
            return Err(
                MddeError::InvalidArgument(String::from_str(t(setting, "env_var_name_chars"))),
            );
        }
        i = i + 1;
    }
    let ghost k = cs@.subrange(ka as int, kb as int);
    assert forall|j: int| 0 <= j < k.len() implies is_ascii_alnum(#[trigger] k[j]) || k[j]
        == '_' by {
        assert(k[j] == cs@[ka + j]);
    }
    Ok((string_of_range(&cs, ka, kb), string_of_range(&cs, va, vb)))
}

/// A name for an environment: one or more of `[A-Za-z0-9_-]`.
pub open spec fn valid_env_name(s: Seq<char>) -> bool {
    s.len() > 0 && forall|i: int|
        0 <= i < s.len() ==> is_ascii_alnum(#[trigger] s[i]) || s[i] == '-' || s[i] == '_'
}

/// Checks the name given for a new environment, after trimming it.
pub fn validate_env_name(setting: &LanguageSetting, input: &str) -> (r: Result<String, MddeError>)
    ensures
        ({
            let s = trim(input@);
            let lang = setting.current();
            match r {
                Ok(name) => valid_env_name(s) && name@ == s,
                Err(MddeError::InvalidInput(m)) => if s.len() == 0 {
                    m@ == translate(lang, "env_name_empty"@)
                } else {
                    !valid_env_name(s) && m@ == translate(lang, "env_name_invalid_chars"@)
                },
                Err(_) => false,
            }
        }),
{
    let cs = chars_of(input);
    let n = cs.len();
    assert(cs@.subrange(0, n as int) =~= input@);
    let (a, b) = trim_range(&cs, 0, n);
    if a == b {
        return Err(MddeError::InvalidInput(String::from_str(t(setting, "env_name_empty"))));
    }
    let mut i: usize = a;
    while i < b
        invariant
            a <= i <= b <= cs@.len(),
            cs@.subrange(a as int, b as int) == trim(input@),
            forall|j: int|
                a <= j < i ==> is_ascii_alnum(#[trigger] cs@[j]) || cs@[j] == '-' || cs@[j] == '_',
        decreases b - i,
    {
        if !(char_is_ascii_alnum(cs[i]) || cs[i] == '-' || cs[i] == '_') {
            let ghost s = cs@.subrange(a as int, b as int);
            assert(s[i - a] == cs@[i as int]);
            return Err(
                MddeError::InvalidInput(String::from_str(t(setting, "env_name_invalid_chars"))),
            );
        }
        i = i + 1;
    }
    let ghost s = cs@.subrange(a as int, b as int);
    assert forall|j: int| 0 <= j < s.len() implies is_ascii_alnum(#[trigger] s[j]) || s[j] == '-'
        || s[j] == '_' by {
        assert(s[j] == cs@[a + j]);
    }
    Ok(string_of_range(&cs, a, b))
}

/// Whether a text begins with `http://` or `https://`.
pub open spec fn has_http_scheme(s: Seq<char>) -> bool {
    has_prefix(s, "http://"@) || has_prefix(s, "https://"@)
}

/// Whether `url::Url::parse` accepts the text as a URL.
pub uninterp spec fn url_parses(s: Seq<char>) -> bool;

/// Relies on url::Url::parse: whether it reads the text as an absolute URL.
#[verifier::external_body]
fn parse_url(s: &str) -> (r: bool)
    ensures
        r == url_parses(s@),
{
    url::Url::parse(s).is_ok()
}

/// The verdict on a server address, given whether the URL parser accepted
/// it: it must begin with `http://` or `https://` and parse.
pub fn url_verdict(setting: &LanguageSetting, url: &str, parsed: bool) -> (r: Result<(), MddeError>)
    ensures
        ({
            let lang = setting.current();
            match r {
                Ok(()) => has_http_scheme(url@) && parsed,
                Err(MddeError::InvalidArgument(m)) => if !has_http_scheme(url@) {
                    m@ == translate(lang, "url_must_start_with"@)
                } else {
                    !parsed && m@ == translate(lang, "invalid_url_format"@)
                },
                Err(_) => false,
            }
        }),
{
    if !(has_prefix_str(url, "http://") || has_prefix_str(url, "https://")) {
        return Err(
            MddeError::InvalidArgument(String::from_str(t(setting, "url_must_start_with"))),
        );
    }
    if parsed {
        Ok(())
    } else {
        Err(MddeError::InvalidArgument(String::from_str(t(setting, "invalid_url_format"))))
    }
}

/// Checks a server address: it must begin with `http://` or `https://`, and
/// the URL parser must accept it (it is consulted only then).
pub fn validate_url(setting: &LanguageSetting, url: &str) -> (r: Result<(), MddeError>)
    ensures
        ({
            let lang = setting.current();
            match r {
                Ok(()) => has_http_scheme(url@) && url_parses(url@),
                Err(MddeError::InvalidArgument(m)) => if !has_http_scheme(url@) {
                    m@ == translate(lang, "url_must_start_with"@)
                } else {
                    !url_parses(url@) && m@ == translate(lang, "invalid_url_format"@)
                },
                Err(_) => false,
            }
        }),
{
    if !(has_prefix_str(url, "http://") || has_prefix_str(url, "https://")) {
        return url_verdict(setting, url, false);
    }
    let parsed = parse_url(url);
    url_verdict(setting, url, parsed)
}

/// Reads a port mapping `host:container`, without a message for what is
/// wrong with it.
pub fn parse_port_mapping(s: &str) -> (r: Option<(u16, u16)>)
    ensures
        r == port_mapping_of(s@),
{
    let cs = chars_of(s);
    let n = cs.len();
    assert(cs@.subrange(0, n as int) =~= s@);
    let q = find_char(&cs, 0, n, ':');
    if q == n {
        return None;
    }
    proof {
        lemma_index_of_bound(s@, ':');
    }
    let q2 = find_char(&cs, q + 1, n, ':');
    assert(cs@.subrange(q + 1, n as int) =~= after_first(s@, ':'));
    assert(cs@.subrange(0, q as int) =~= before_first(s@, ':'));
    if q2 != n {
        return None;
    }
    match (parse_u16_range(&cs, 0, q), parse_u16_range(&cs, q + 1, n)) {
        (Some(h), Some(c)) => if h != 0 && c != 0 {
            Some((h, c))
        } else {
            None
        },
        _ => None,
    }
}

} // verus!
