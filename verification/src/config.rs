//! The launcher's configuration: what it holds, where it lives, and when it is valid.
use crate::error::{unit_result, text_result, Error, ErrorView};
use crate::path::{alias_target_spec, validate_alias_target};
use crate::text::{
    ascii_lower_seq, chars_of, concat2, decimal, extend_from, i64_to_string, is_blank, is_blank_exec,
    signed_decimal, str_eq, string_of, to_ascii_lowercase, u64_to_string,
};
use crate::web::{parse_url, parts_result, url_parse_spec, UrlParts, UrlPartsView};
use crate::winpath::{file_name_exec, file_name_spec, last_dot, lemma_last_dot_before, file_stem_spec, join_exec, join_spec, last_dot_exec, parent_exec, parent_spec, stem_of};
use vstd::prelude::*;

verus! {

pub const CONFIG_VERSION: i64 = 1;

/// The configuration file `<exe stem>.toml` beside the launcher.
#[derive(Debug, Clone)]
pub struct Config {
    pub config_version: i64,
    pub title: String,
    pub launcher_url: String,
    pub manifest_url: String,
    pub data_url: String,
    /// Alias to relative executable path (the `[calls]` table); an alias is
    /// looked up from the first pair on.
    pub calls: Vec<(String, String)>,
    pub patch: PatchConfig,
    pub security: SecurityConfig,
}

/// `[patch]`.
#[derive(Debug, Clone)]
pub struct PatchConfig {
    pub max_concurrent_downloads: usize,
    pub verify_after_download: bool,
    pub resume_downloads: bool,
    pub hash_algorithm: String,
}

/// `[security]`.
#[derive(Debug, Clone, Copy, PartialEq, Eq)]
pub struct SecurityConfig {
    /// Lets the three URLs use plain HTTP; for local testing only.
    pub allow_http: bool,
}

pub fn default_max_concurrent_downloads() -> (n: usize)
    ensures
        n == 3,
{
    3
}

pub fn default_verify_after_download() -> (b: bool)
    ensures
        b,
{
    true
}

pub fn default_resume_downloads() -> (b: bool)
    ensures
        !b,
{
    false
}

pub fn default_hash_algorithm() -> (s: String)
    ensures
        s@ == seq!['m', 'd', '5'],
{
    string_of(&vec!['m', 'd', '5'])
}

impl Default for PatchConfig {
    fn default() -> (c: Self)
        ensures
            c.max_concurrent_downloads == 3,
            c.verify_after_download,
            !c.resume_downloads,
            c.hash_algorithm@ == seq!['m', 'd', '5'],
    {
        PatchConfig {
            max_concurrent_downloads: default_max_concurrent_downloads(),
            verify_after_download: default_verify_after_download(),
            resume_downloads: default_resume_downloads(),
            hash_algorithm: default_hash_algorithm(),
        }
    }
}

impl Default for SecurityConfig {
    fn default() -> (c: Self)
        ensures
            !c.allow_http,
    {
        SecurityConfig { allow_http: false }
    }
}

/// `derive_config_path`: the directory of the executable, joined with the
/// executable's stem and `.toml`.
pub open spec fn config_path_spec(exe: Seq<char>) -> Result<Seq<char>, ErrorView> {
    match parent_spec(exe) {
        None => Err(ErrorView::ConfigInvalidField {
            field: "exe_path"@,
            reason: "executable path has no parent directory"@,
        }),
        Some(dir) => match file_stem_spec(exe) {
            None => Err(ErrorView::ConfigInvalidField {
                field: "exe_path"@,
                reason: "executable filename is not valid UTF-8"@,
            }),
            Some(stem) => Ok(join_spec(dir, stem + seq!['.', 't', 'o', 'm', 'l'])),
        },
    }
}

/// The configuration sits beside the executable and is named after it: the
/// executable's name up to its last dot (a leading dot does not count, and a
/// name without another dot is kept whole), followed by `.toml`.
pub proof fn law_config_beside_executable(exe: Seq<char>, dir: Seq<char>, name: Seq<char>, k: int)
    requires
        parent_spec(exe) == Some(dir),
        file_name_spec(exe) == Some(name),
    ensures
        0 < k < name.len() && name[k] == '.' && (forall|j: int| k < j < name.len() ==> name[j] != '.') ==> config_path_spec(exe)
            == Ok::<Seq<char>, ErrorView>(join_spec(dir, name.take(k) + seq!['.', 't', 'o', 'm', 'l'])),
        (forall|j: int| 0 < j < name.len() ==> name[j] != '.') ==> config_path_spec(exe) == Ok::<Seq<char>, ErrorView>(
            join_spec(dir, name + seq!['.', 't', 'o', 'm', 'l']),
        ),
{
    lemma_last_dot_before(name, name.len() as int);
    let d = last_dot(name);
    if 0 < k < name.len() && name[k] == '.' && (forall|j: int| k < j < name.len() ==> name[j] != '.') {
        if d < k {
            assert(name[k] != '.');
        }
        if d > k {
            assert(name[d] != '.');
        }
    }
    if forall|j: int| 0 < j < name.len() ==> name[j] != '.' {
        if d > 0 {
            assert(name[d] == '.');
        }
    }
}

/// Resolve the config path from the running executable path.
/// `exe_path` should be the absolute path to the launcher executable.
pub fn derive_config_path(exe_path: &str) -> (r: Result<String, Error>)
    ensures
        text_result(r) == config_path_spec(exe_path@),
{
    let exe = chars_of(exe_path);
    let dir = match parent_exec(&exe) {
        Some(d) => d,
        None => {
            return Err(Error::ConfigInvalidField {
                field: "exe_path".to_owned(),
                reason: "executable path has no parent directory".to_owned(),
            })
        },
    };
    let name = match file_name_exec(&exe) {
        Some(n) => n,
        None => {
            return Err(Error::ConfigInvalidField {
                field: "exe_path".to_owned(),
                reason: "executable filename is not valid UTF-8".to_owned(),
            })
        },
    };
    let mut file: Vec<char> = Vec::new();
    match last_dot_exec(&name) {
        Some(k) if k > 0 => {
            crate::text::extend_from_range(&mut file, &name, 0, k);
        },
        _ => {
            extend_from(&mut file, &name);
        },
    }
    assert(file@ == stem_of(name@));
    file.push('.');
    file.push('t');
    file.push('o');
    file.push('m');
    file.push('l');
    assert(file@ == stem_of(name@) + seq!['.', 't', 'o', 'm', 'l']);
    let joined = join_exec(&dir, &file);
    Ok(string_of(&joined))
}

/// `validate_url` once the text has been parsed: a parse error is reported
/// under the field it came from; a URL whose scheme is not `https` is refused
/// when HTTPS is required.
pub open spec fn url_check_spec(parsed: Result<UrlPartsView, Seq<char>>, value: Seq<char>, field: Seq<char>, require_https: bool) -> Result<(), ErrorView> {
    match parsed {
        Err(m) => Err(
            if field == "launcher_url"@ {
                ErrorView::LauncherUrlInvalid(m)
            } else if field == "manifest_url"@ {
                ErrorView::ManifestUrlInvalid(m)
            } else if field == "data_url"@ {
                ErrorView::DataUrlInvalid(m)
            } else {
                ErrorView::ConfigInvalidField { field, reason: m }
            },
        ),
        Ok(u) => if require_https && u.scheme != "https"@ {
            Err(ErrorView::LauncherUrlNotHttps(value))
        } else {
            Ok(())
        },
    }
}

/// The checks of `validate_url` on the parser's answer.
pub fn check_parsed_url(parsed: Result<UrlParts, String>, value: &str, field: &str, require_https: bool) -> (r: Result<(), Error>)
    ensures
        unit_result(r) == url_check_spec(parts_result(parsed), value@, field@, require_https),
{
    match parsed {
        Err(m) => {
            if str_eq(field, "launcher_url") {
                Err(Error::LauncherUrlInvalid(m))
            } else if str_eq(field, "manifest_url") {
                Err(Error::ManifestUrlInvalid(m))
            } else if str_eq(field, "data_url") {
                Err(Error::DataUrlInvalid(m))
            } else {
                Err(Error::ConfigInvalidField { field: field.to_owned(), reason: m })
            }
        },
        Ok(u) => {
            if require_https && !str_eq(u.scheme.as_str(), "https") {
                Err(Error::LauncherUrlNotHttps(value.to_owned()))
            } else {
                Ok(())
            }
        },
    }
}

pub fn validate_url(value: &str, field: &str, require_https: bool) -> (r: Result<(), Error>)
    ensures
        unit_result(r) == url_check_spec(url_parse_spec(value@), value@, field@, require_https),
{
    let parsed = parse_url(value);
    check_parsed_url(parsed, value, field, require_https)
}

pub struct ConfigView {
    pub config_version: i64,
    pub title: Seq<char>,
    pub launcher_url: Seq<char>,
    pub manifest_url: Seq<char>,
    pub data_url: Seq<char>,
    pub calls: Seq<(Seq<char>, Seq<char>)>,
    pub hash_algorithm: Seq<char>,
    pub allow_http: bool,
}

pub open spec fn calls_view(calls: Seq<(String, String)>) -> Seq<(Seq<char>, Seq<char>)> {
    calls.map_values(|c: (String, String)| (c.0@, c.1@))
}

impl View for Config {
    type V = ConfigView;

    open spec fn view(&self) -> ConfigView {
        ConfigView {
            config_version: self.config_version,
            title: self.title@,
            launcher_url: self.launcher_url@,
            manifest_url: self.manifest_url@,
            data_url: self.data_url@,
            calls: calls_view(self.calls@),
            hash_algorithm: self.patch.hash_algorithm@,
            allow_http: self.security.allow_http,
        }
    }
}

/// The aliases `0..n` checked in order; the first failure is reported.
pub open spec fn calls_spec(calls: Seq<(Seq<char>, Seq<char>)>, n: int) -> Result<(), ErrorView>
    decreases n,
{
    if n <= 0 {
        Ok(())
    } else {
        match calls_spec(calls, n - 1) {
            Err(e) => Err(e),
            Ok(_) => alias_target_spec(calls[n - 1].0, calls[n - 1].1),
        }
    }
}

pub proof fn lemma_calls_err_persists(calls: Seq<(Seq<char>, Seq<char>)>, k: int, n: int)
    requires
        0 <= k <= n,
        calls_spec(calls, k) is Err,
    ensures
        calls_spec(calls, n) == calls_spec(calls, k),
    decreases n - k,
{
    if n > k {
        lemma_calls_err_persists(calls, k, n - 1);
    }
}

/// `validate_config`: the version, a title, the three URLs (HTTPS unless
/// `allow_http`), at least one alias, every alias target, and `md5`.
pub open spec fn config_spec(c: ConfigView) -> Result<(), ErrorView> {
    let https = !c.allow_http;
    if c.config_version != CONFIG_VERSION {
        Err(ErrorView::ConfigInvalidField {
            field: "config_version"@,
            reason: "expected 1, got "@ + signed_decimal(c.config_version as int),
        })
    } else if is_blank(c.title) {
        Err(ErrorView::ConfigMissingField { field: "title"@ })
    } else if url_check_spec(url_parse_spec(c.launcher_url), c.launcher_url, "launcher_url"@, https) is Err {
        url_check_spec(url_parse_spec(c.launcher_url), c.launcher_url, "launcher_url"@, https)
    } else if url_check_spec(url_parse_spec(c.manifest_url), c.manifest_url, "manifest_url"@, https) is Err {
        url_check_spec(url_parse_spec(c.manifest_url), c.manifest_url, "manifest_url"@, https)
    } else if url_check_spec(url_parse_spec(c.data_url), c.data_url, "data_url"@, https) is Err {
        url_check_spec(url_parse_spec(c.data_url), c.data_url, "data_url"@, https)
    } else if c.calls.len() == 0 {
        Err(ErrorView::CallsMissing)
    } else if calls_spec(c.calls, c.calls.len() as int) is Err {
        calls_spec(c.calls, c.calls.len() as int)
    } else if ascii_lower_seq(c.hash_algorithm) != seq!['m', 'd', '5'] {
        Err(ErrorView::ConfigInvalidField {
            field: "patch.hash_algorithm"@,
            reason: "unsupported hash algorithm: "@ + ascii_lower_seq(c.hash_algorithm),
        })
    } else {
        Ok(())
    }
}

/// Aliases that pass the checks `0..n` each passed their own check.
pub proof fn lemma_calls_ok(calls: Seq<(Seq<char>, Seq<char>)>, n: int)
    requires
        calls_spec(calls, n) is Ok,
    ensures
        forall|k: int| 0 <= k < n ==> alias_target_spec(calls[k].0, #[trigger] calls[k].1) is Ok,
    decreases n,
{
    if n > 0 {
        lemma_calls_ok(calls, n - 1);
    }
}

/// A configuration that passes validation has version 1, a title, at least
/// one alias, relative alias targets without `..`, the hash `md5`, and three
/// URLs that parse; unless `allow_http` is set, all three use `https`.
pub proof fn law_valid_config(c: ConfigView)
    requires
        config_spec(c) is Ok,
    ensures
        c.config_version == CONFIG_VERSION,
        !is_blank(c.title),
        c.calls.len() > 0,
        forall|k: int| 0 <= k < c.calls.len() ==> alias_target_spec(c.calls[k].0, #[trigger] c.calls[k].1) is Ok,
        ascii_lower_seq(c.hash_algorithm) == seq!['m', 'd', '5'],
        url_parse_spec(c.launcher_url) is Ok,
        url_parse_spec(c.manifest_url) is Ok,
        url_parse_spec(c.data_url) is Ok,
        !c.allow_http ==> url_parse_spec(c.launcher_url)->Ok_0.scheme == "https"@,
        !c.allow_http ==> url_parse_spec(c.manifest_url)->Ok_0.scheme == "https"@,
        !c.allow_http ==> url_parse_spec(c.data_url)->Ok_0.scheme == "https"@,
{
    lemma_calls_ok(c.calls, c.calls.len() as int);
}

pub fn validate_config(config: &Config) -> (r: Result<(), Error>)
    ensures
        unit_result(r) == config_spec(config@),
{
    if config.config_version != CONFIG_VERSION {
        let v = i64_to_string(config.config_version);
        return Err(Error::ConfigInvalidField {
            field: "config_version".to_owned(),
            reason: concat2("expected 1, got ", v.as_str()),
        });
    }
    if is_blank_exec(config.title.as_str()) {
        return Err(Error::ConfigMissingField { field: "title".to_owned() });
    }
    let https = !config.security.allow_http;
    match validate_url(config.launcher_url.as_str(), "launcher_url", https) {
        Ok(()) => {},
        Err(e) => return Err(e),
    }
    match validate_url(config.manifest_url.as_str(), "manifest_url", https) {
        Ok(()) => {},
        Err(e) => return Err(e),
    }
    match validate_url(config.data_url.as_str(), "data_url", https) {
        Ok(()) => {},
        Err(e) => return Err(e),
    }
    if config.calls.len() == 0 {
        return Err(Error::CallsMissing);
    }
    let ghost cv = calls_view(config.calls@);
    let mut i: usize = 0;
    #[verifier::loop_isolation(false)]
    while i < config.calls.len()
        invariant
            cv == calls_view(config.calls@),
            i <= config.calls.len(),
            calls_spec(cv, i as int) == Ok::<(), ErrorView>(()),
        decreases config.calls.len() - i,
    {
        let (alias, target) = &config.calls[i];
        assert(cv[i as int] == (alias@, target@));
        match validate_alias_target(alias.as_str(), target.as_str()) {
            Ok(()) => {},
            Err(e) => {
                proof { lemma_calls_err_persists(cv, i + 1, cv.len() as int); }
                return Err(e);
            },
        }
        i = i + 1;
    }
    let algo = to_ascii_lowercase(config.patch.hash_algorithm.as_str());
    if !(algo.len() == 3 && algo[0] == 'm' && algo[1] == 'd' && algo[2] == '5') {
        proof {
            if algo@ == seq!['m', 'd', '5'] {
                assert(algo.len() == 3);
            }
        }
        let a = string_of(&algo);
        return Err(Error::ConfigInvalidField {
            field: "patch.hash_algorithm".to_owned(),
            reason: concat2("unsupported hash algorithm: ", a.as_str()),
        });
    }
    assert(algo@ =~= seq!['m', 'd', '5']);
    Ok(())
}

/// Why the configuration file could not be read: it is missing, or reading it failed.
pub fn config_read_error(path: &str, not_found: bool, reason: &str) -> (e: Error)
    ensures
        e@ == (if not_found {
            ErrorView::ConfigNotFound { path: path@ }
        } else {
            ErrorView::LocalFileReadFailed { path: path@, reason: reason@ }
        }),
{
    if not_found {
        Error::ConfigNotFound { path: path.to_owned() }
    } else {
        Error::LocalFileReadFailed { path: path.to_owned(), reason: reason.to_owned() }
    }
}

/// The configuration that the TOML parser made of the file at `path`,
/// validated: a parse failure is reported with the path and the parser's message.
pub fn config_from_parsed(path: &str, parsed: Result<Config, String>) -> (r: Result<Config, Error>)
    ensures
        match parsed {
            Err(m) => r matches Err(e) && e@ == ErrorView::ConfigParseFailed(path@ + ": "@ + m@),
            Ok(c) => match config_spec(c@) {
                Err(ev) => r matches Err(e) && e@ == ev,
                Ok(_) => r matches Ok(out) && out == c,
            },
        },
{
    match parsed {
        Err(m) => {
            let head = concat2(path, ": ");
            Err(Error::ConfigParseFailed(concat2(head.as_str(), m.as_str())))
        },
        Ok(c) => match validate_config(&c) {
            Err(e) => Err(e),
            Ok(()) => Ok(c),
        },
    }
}

/// The scheme, host and port of a URL.
#[derive(Debug, Clone)]
pub struct Origin {
    pub scheme: String,
    pub host: String,
    pub port: Option<u16>,
}

pub struct OriginView {
    pub scheme: Seq<char>,
    pub host: Seq<char>,
    pub port: Option<u16>,
}

impl View for Origin {
    type V = OriginView;

    open spec fn view(&self) -> OriginView {
        OriginView { scheme: self.scheme@, host: self.host@, port: self.port }
    }
}

pub open spec fn origin_result(r: Result<Origin, Error>) -> Result<OriginView, ErrorView> {
    match r {
        Ok(o) => Ok(o@),
        Err(e) => Err(e@),
    }
}

/// `Origin::from_url_str` once the text has been parsed.
pub open spec fn origin_spec(parsed: Result<UrlPartsView, Seq<char>>) -> Result<OriginView, ErrorView> {
    match parsed {
        Err(m) => Err(ErrorView::Url(m)),
        Ok(u) => match u.host {
            None => Err(ErrorView::LauncherUrlInvalid("missing host"@)),
            Some(h) => Ok(OriginView { scheme: u.scheme, host: h, port: u.port }),
        },
    }
}

/// The text `scheme://host[:port]` of an origin.
pub open spec fn origin_text(o: OriginView) -> Seq<char> {
    o.scheme + seq![':', '/', '/'] + o.host + match o.port {
        Some(p) => seq![':'] + decimal(p as nat),
        None => Seq::<char>::empty(),
    }
}

impl Origin {
    /// The origin of a parsed URL.
    pub fn from_parts(parsed: Result<UrlParts, String>) -> (r: Result<Origin, Error>)
        ensures
            origin_result(r) == origin_spec(parts_result(parsed)),
    {
        match parsed {
            Err(m) => Err(Error::Url(m)),
            Ok(u) => match u.host {
                None => Err(Error::LauncherUrlInvalid("missing host".to_owned())),
                Some(h) => Ok(Origin { scheme: u.scheme, host: h, port: u.port }),
            },
        }
    }

    pub fn from_url_str(value: &str) -> (r: Result<Origin, Error>)
        ensures
            origin_result(r) == origin_spec(url_parse_spec(value@)),
    {
        Origin::from_parts(parse_url(value))
    }

    pub fn matches(&self, other: &Origin) -> (b: bool)
        ensures
            b == (self@ == other@),
    {
        let same_port = match (self.port, other.port) {
            (Some(a), Some(b)) => a == b,
            (None, None) => true,
            _ => false,
        };
        str_eq(self.scheme.as_str(), other.scheme.as_str()) && str_eq(self.host.as_str(), other.host.as_str()) && same_port
    }

    /// The text `scheme://host[:port]`.
    pub fn to_text(&self) -> (s: String)
        ensures
            s@ == origin_text(self@),
    {
        let mut v: Vec<char> = chars_of(self.scheme.as_str());
        v.push(':');
        v.push('/');
        v.push('/');
        let h = chars_of(self.host.as_str());
        extend_from(&mut v, &h);
        match self.port {
            Some(p) => {
                v.push(':');
                let d = u64_to_string(p as u64);
                let dv = chars_of(d.as_str());
                extend_from(&mut v, &dv);
            },
            None => {},
        }
        string_of(&v)
    }

    /// The origin as a URL: `scheme://host[:port]` parsed, or, when that text
    /// does not parse, `https://localhost` parsed.
    pub fn as_core_origin(&self) -> (r: Option<UrlParts>)
        ensures
            match url_parse_spec(origin_text(self@)) {
                Ok(u) => r matches Some(x) && x@ == u,
                Err(_) => match url_parse_spec("https://localhost"@) {
                    Ok(l) => r matches Some(x) && x@ == l,
                    Err(_) => r is None,
                },
            },
    {
        let s = self.to_text();
        match parse_url(s.as_str()) {
            Ok(u) => Some(u),
            Err(_) => match parse_url("https://localhost") {
                Ok(l) => Some(l),
                Err(_) => None,
            },
        }
    }
}

} // verus!
