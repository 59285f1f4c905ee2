//! The sync tool's configuration of remotes: where a remote's share link is
//! read from, and where its cookie is written to.
//!
//! The configuration is text in INI syntax, one section for each remote. It
//! is parsed and changed by `configparser`; what is stated here of its
//! content rests on the contracts of the trusted items below.

use crate::sync::{cookie_header, share_link, share_link_of};
use crate::text::lowercase;
use configparser::ini::Ini;
use vstd::prelude::*;

verus! {

#[verifier::external_type_specification]
#[verifier::external_body]
pub struct ExIni(Ini);

/// What a configuration holds: for each section, by its name, the value of
/// each of its keys; a key that stands without a value has none.
pub uninterp spec fn ini_entries(ini: Ini) -> Map<Seq<char>, Map<Seq<char>, Option<Seq<char>>>>;

/// The configuration has the settings that `Ini::new` gives: names are found
/// whatever their case, `;` and `#` begin a comment, `=` and `:` part a key
/// from its value, a value is one line.
pub uninterp spec fn has_default_settings(ini: Ini) -> bool;

/// What a text in INI syntax parses to under the settings of `Ini::new`, where
/// it parses at all.
pub uninterp spec fn ini_parsed(text: Seq<char>) -> Option<
    Map<Seq<char>, Map<Seq<char>, Option<Seq<char>>>>,
>;

/// The longest configuration text, in characters, that is parsed. The parser
/// numbers the lines of a text with a 32-bit counter, which a text of this
/// length cannot exhaust: it has at most one line more than characters.
pub const MAX_CONFIG_CHARS: usize = 2_147_483_644;

/// The content of a configuration that holds nothing.
pub open spec fn no_entries() -> Map<Seq<char>, Map<Seq<char>, Option<Seq<char>>>> {
    Map::empty()
}

/// The value of `key` in `section`, where both exist and the key has one.
pub open spec fn setting(
    entries: Map<Seq<char>, Map<Seq<char>, Option<Seq<char>>>>,
    section: Seq<char>,
    key: Seq<char>,
) -> Option<Seq<char>> {
    if entries.contains_key(section) && entries[section].contains_key(key) {
        entries[section][key]
    } else {
        None
    }
}

/// `entries` with `key` in `section` set to `value`; the section is made where
/// it was missing.
pub open spec fn with_setting(
    entries: Map<Seq<char>, Map<Seq<char>, Option<Seq<char>>>>,
    section: Seq<char>,
    key: Seq<char>,
    value: Option<Seq<char>>,
) -> Map<Seq<char>, Map<Seq<char>, Option<Seq<char>>>> {
    let keys = if entries.contains_key(section) {
        entries[section]
    } else {
        Map::<Seq<char>, Option<Seq<char>>>::empty()
    };
    entries.insert(section, keys.insert(key, value))
}

/// `Ini::new`. Trusted: the new configuration holds nothing and has the
/// default settings.
#[verifier::external_body]
fn ini_new() -> (ini: Ini)
    ensures
        ini_entries(ini) == no_entries(),
        has_default_settings(ini),
{
    Ini::new()
}

/// `Ini::read`. Trusted: a text that parses replaces what the configuration
/// held by what it parses to; one that does not leaves the configuration as
/// it was. The settings stay. A text whose lines outnumber the parser's line
/// counter is left out.
#[verifier::external_body]
fn ini_read(ini: &mut Ini, text: &str) -> (parsed: bool)
    requires
        has_default_settings(*old(ini)),
        text@.len() <= MAX_CONFIG_CHARS,
    ensures
        has_default_settings(*final(ini)),
        parsed == (ini_parsed(text@) is Some),
        parsed ==> ini_entries(*final(ini)) == ini_parsed(text@)->0,
        !parsed ==> ini_entries(*final(ini)) == ini_entries(*old(ini)),
{
    ini.read(text.to_owned()).is_ok()
}

/// `Ini::get`. Trusted: under the default settings the value is looked up by
/// the lower-case forms of the section's and the key's name.
#[verifier::external_body]
fn ini_get(ini: &Ini, section: &str, key: &str) -> (value: Option<String>)
    requires
        has_default_settings(*ini),
    ensures
        match value {
            Some(text) => setting(ini_entries(*ini), lowercase(section@), lowercase(key@)) == Some(
                text@,
            ),
            None => setting(ini_entries(*ini), lowercase(section@), lowercase(key@)) is None,
        },
{
    ini.get(section, key)
}

/// `Ini::set`. Trusted: under the default settings the value is stored under
/// the lower-case forms of the section's and the key's name, and nothing else
/// changes. The settings stay.
#[verifier::external_body]
fn ini_set(ini: &mut Ini, section: &str, key: &str, value: String)
    requires
        has_default_settings(*old(ini)),
    ensures
        has_default_settings(*final(ini)),
        ini_entries(*final(ini)) == with_setting(
            ini_entries(*old(ini)),
            lowercase(section@),
            lowercase(key@),
            Some(value@),
        ),
{
    ini.set(section, key, Some(value));
}

/// The configuration of the sync tool's remotes.
pub struct RemoteConfig {
    ini: Ini,
}

impl RemoteConfig {
    #[verifier::type_invariant]
    spec fn wf(&self) -> bool {
        has_default_settings(self.ini)
    }

    /// What the configuration holds.
    pub closed spec fn entries(&self) -> Map<Seq<char>, Map<Seq<char>, Option<Seq<char>>>> {
        ini_entries(self.ini)
    }

    /// The WebDAV address of `remote`, where the configuration gives one.
    pub open spec fn url_of(&self, remote: Seq<char>) -> Option<Seq<char>> {
        setting(self.entries(), lowercase(remote), lowercase("url"@))
    }

    /// The configuration that `text` parses to, where it parses. A text of
    /// more than [`MAX_CONFIG_CHARS`] characters is not parsed.
    pub fn parse(text: &str) -> (config: Option<Self>)
        ensures
            config is Some <==> text@.len() <= MAX_CONFIG_CHARS && ini_parsed(text@) is Some,
            config matches Some(c) ==> c.entries() == ini_parsed(text@)->0,
    {
        if text.unicode_len() > MAX_CONFIG_CHARS {
            return None;
        }
        let mut ini = ini_new();
        if ini_read(&mut ini, text) {
            Some(RemoteConfig { ini })
        } else {
            None
        }
    }

    /// The WebDAV address of `remote`.
    pub fn url(&self, remote: &str) -> (url: Option<String>)
        ensures
            match url {
                Some(text) => self.url_of(remote@) == Some(text@),
                None => self.url_of(remote@) is None,
            },
    {
        proof {
            use_type_invariant(self);
        }
        ini_get(&self.ini, remote, "url")
    }

    /// The share link of `remote`, by which its cookie is fetched.
    pub fn share_url(&self, remote: &str) -> (link: Option<String>)
        ensures
            match link {
                Some(text) => self.url_of(remote@) matches Some(url) && text@ == share_link_of(url),
                None => self.url_of(remote@) is None,
            },
    {
        match self.url(remote) {
            Some(url) => Some(share_link(url.as_str())),
            None => None,
        }
    }

    /// Sets the headers of `remote` so that `cookie` is sent along. Nothing
    /// else changes.
    pub fn set_cookie(&mut self, remote: &str, cookie: &str)
        ensures
            final(self).entries() == with_setting(
                old(self).entries(),
                lowercase(remote@),
                lowercase("headers"@),
                Some("Cookie,\""@ + cookie@ + "\""@),
            ),
    {
        proof {
            use_type_invariant(&*self);
        }
        let header = cookie_header(cookie);
        let mut ini = ini_new();
        std::mem::swap(&mut ini, &mut self.ini);
        ini_set(&mut ini, remote, "headers", header);
        self.ini = ini;
    }

    /// Hands the configuration over to be written.
    pub fn into_ini(self) -> (ini: Ini)
        ensures
            ini_entries(ini) == self.entries(),
            has_default_settings(ini),
    {
        proof {
            use_type_invariant(&self);
        }
        self.ini
    }
}

/// The configuration to write back after the cookie of `remote` was asked
/// for: with the cookie set where the request yielded one, and none where it
/// did not, so that a failed request leaves the stored configuration alone.
pub fn apply_cookie(config: RemoteConfig, remote: &str, cookie: Option<&str>) -> (updated: Option<
    RemoteConfig,
>)
    ensures
        updated is Some <==> cookie is Some,
        updated matches Some(c) ==> c.entries() == with_setting(
            config.entries(),
            lowercase(remote@),
            lowercase("headers"@),
            Some("Cookie,\""@ + cookie->0@ + "\""@),
        ),
{
    match cookie {
        Some(text) => {
            let mut config = config;
            config.set_cookie(remote, text);
            Some(config)
        },
        None => None,
    }
}

/// Setting a value changes no other key and no other section.
pub proof fn lemma_with_setting_frame(
    entries: Map<Seq<char>, Map<Seq<char>, Option<Seq<char>>>>,
    section: Seq<char>,
    key: Seq<char>,
    value: Option<Seq<char>>,
    other_section: Seq<char>,
    other_key: Seq<char>,
)
    requires
        other_section != section || other_key != key,
    ensures
        setting(with_setting(entries, section, key, value), other_section, other_key) == setting(
            entries,
            other_section,
            other_key,
        ),
        setting(with_setting(entries, section, key, value), section, key) == value,
{
}

} // verus!
