//! Profiles: where the profile file lives, and how its INI sections become
//! OAuth2 settings.
use vstd::prelude::*;

use crate::oauth2::{opt_view, GrantType, OAuth2Config, grant_type_named};
use crate::text::{concat, owned, str_eq};

verus! {

#[verifier::external_type_specification]
#[verifier::external_body]
pub struct ExTiniError(tini::Error);

/// Why the profiles could not be read.
#[derive(Debug)]
pub enum InvalidConfig {
    /// A section lacks a usable setting (its name).
    MissingFields(String),
    /// The profile file could not be read or is not valid INI.
    IniFileError(tini::Error),
    /// A grant type that is not known (the text given).
    InvalidGrantType(String),
}

/// One section of an INI document: its name and its `key = value` entries
/// in the order they first appear.
pub struct IniSection {
    pub name: String,
    pub entries: Vec<(String, String)>,
}

/// The plain contents of a section.
pub open spec fn section_view(s: IniSection) -> (Seq<char>, Seq<(Seq<char>, Seq<char>)>) {
    (s.name@, crate::oauth2::pairs_view(s.entries@))
}

/// The plain contents of a list of sections.
pub open spec fn sections_view(v: Seq<IniSection>) -> Seq<(Seq<char>, Seq<(Seq<char>, Seq<char>)>)> {
    v.map_values(|s: IniSection| section_view(s))
}

/// The sections that `tini` reads from an INI text (`None` when the text is
/// rejected).
pub uninterp spec fn ini_document(text: Seq<char>) -> Option<
    Seq<(Seq<char>, Seq<(Seq<char>, Seq<char>)>)>,
>;

/// Calls `tini::Ini::from_string` and copies each section (`Ini::iter`) and
/// each of its entries (`Section::iter`), in the order `tini` yields them,
/// into plain values. The contract names the result, a function of the text
/// alone; the INI grammar is not restated, nor what the error holds.
#[verifier::external_body]
fn parse_ini(text: &str) -> (res: Result<Vec<IniSection>, tini::Error>)
    ensures
        match res {
            Ok(sections) => ini_document(text@) == Some(sections_view(sections@)),
            Err(_) => ini_document(text@) is None,
        },
{
    let ini = tini::Ini::from_string(text)?;
    let mut sections = Vec::new();
    for (name, section) in ini.iter() {
        let mut entries = Vec::new();
        for (key, value) in section.iter() {
            entries.push((key.clone(), value.clone()));
        }
        sections.push(IniSection { name: name.clone(), entries });
    }
    Ok(sections)
}

/// The value of the first entry named `key`.
pub open spec fn entry_value(entries: Seq<(Seq<char>, Seq<char>)>, key: Seq<char>) -> Option<
    Seq<char>,
>
    decreases entries.len(),
{
    if entries.len() == 0 {
        None
    } else if entries[0].0 == key {
        Some(entries[0].1)
    } else {
        entry_value(entries.skip(1), key)
    }
}

/// The grant type that a section names, when it names a known one.
pub open spec fn section_grant_type(entries: Seq<(Seq<char>, Seq<char>)>) -> Option<GrantType> {
    match entry_value(entries, "grant_type"@) {
        Some(v) => grant_type_named(v),
        None => None,
    }
}

/// `c` holds the settings of a section.
pub open spec fn config_of_section(c: OAuth2Config, entries: Seq<(Seq<char>, Seq<char>)>) -> bool {
    &&& opt_view(c.auth_server_auth_endpoint) == entry_value(entries, "auth_server_auth_endpoint"@)
    &&& opt_view(c.auth_server_token_endpoint) == entry_value(entries, "auth_server_token_endpoint"@)
    &&& opt_view(c.client_id) == entry_value(entries, "client_id"@)
    &&& opt_view(c.client_secret) == entry_value(entries, "client_secret"@)
    &&& opt_view(c.scopes) == entry_value(entries, "scopes"@)
    &&& opt_view(c.username) == entry_value(entries, "username"@)
    &&& opt_view(c.password) == entry_value(entries, "password"@)
    &&& Some(c.grant_type) == section_grant_type(entries)
    &&& opt_view(c.redirect) == entry_value(entries, "redirect"@)
    &&& opt_view(c.default_content_type) == entry_value(entries, "default_content_type"@)
    &&& opt_view(c.default_user_agent) == entry_value(entries, "default_user_agent"@)
    &&& opt_view(c.default_auth_header_template) == entry_value(
        entries,
        "default_auth_header_template"@,
    )
}

/// The first entry of the section named `key` has value `v`.
pub open spec fn first_entry(entries: Seq<(Seq<char>, Seq<char>)>, key: Seq<char>, v: Seq<char>) -> bool {
    exists|i: int|
        0 <= i < entries.len() && entries[i] == (key, v) && forall|j: int|
            0 <= j < i ==> (#[trigger] entries[j]).0 != key
}

/// No entry of the section is named `key`.
pub open spec fn no_entry(entries: Seq<(Seq<char>, Seq<char>)>, key: Seq<char>) -> bool {
    forall|j: int| 0 <= j < entries.len() ==> (#[trigger] entries[j]).0 != key
}

/// A setting read from the section under `key`: absent when no entry has
/// that key, otherwise the value of the first such entry.
pub open spec fn setting_read(
    setting: Option<String>,
    entries: Seq<(Seq<char>, Seq<char>)>,
    key: Seq<char>,
) -> bool {
    &&& no_entry(entries, key) ==> setting is None
    &&& forall|v: Seq<char>| #[trigger] first_entry(entries, key, v) ==> (setting matches Some(s) && s@ == v)
}

/// `entry_value` finds the first entry with the key, and nothing when there
/// is none.
proof fn lemma_entry_value(entries: Seq<(Seq<char>, Seq<char>)>, key: Seq<char>)
    ensures
        no_entry(entries, key) ==> entry_value(entries, key) is None,
        forall|v: Seq<char>| #[trigger] first_entry(entries, key, v) ==> entry_value(entries, key) == Some(v),
    decreases entries.len(),
{
    if entries.len() > 0 {
        let t = entries.skip(1);
        lemma_entry_value(t, key);
        if no_entry(entries, key) {
            assert forall|j: int| 0 <= j < t.len() implies (#[trigger] t[j]).0 != key by {
                assert(t[j] == entries[j + 1]);
            }
        }
        assert forall|v: Seq<char>| #[trigger] first_entry(entries, key, v) implies entry_value(
            entries,
            key,
        ) == Some(v) by {
            let i = choose|i: int|
                0 <= i < entries.len() && entries[i] == (key, v) && forall|j: int|
                    0 <= j < i ==> (#[trigger] entries[j]).0 != key;
            if i > 0 {
                assert(entries[0].0 != key);
                assert(t[i - 1] == entries[i]);
                assert forall|j: int| 0 <= j < i - 1 implies (#[trigger] t[j]).0 != key by {
                    assert(t[j] == entries[j + 1]);
                }
                assert(first_entry(t, key, v));
            }
        }
    }
}

/// A section names the grant type of its first `grant_type` entry, and
/// none when it has no such entry (the section is then refused).
pub proof fn lemma_grant_type_by_key(entries: Seq<(Seq<char>, Seq<char>)>)
    ensures
        no_entry(entries, "grant_type"@) ==> section_grant_type(entries) is None,
        forall|v: Seq<char>| #[trigger] first_entry(entries, "grant_type"@, v) ==> section_grant_type(
            entries,
        ) == grant_type_named(v),
{
    lemma_entry_value(entries, "grant_type"@);
}

/// Each setting of a profile is read from its own key of the section: it
/// is absent exactly when the section has no entry with that key, and
/// otherwise it is the value of the first such entry, whatever the other
/// entries hold. The grant type is the one the first `grant_type` entry
/// names.
pub proof fn lemma_settings_by_key(c: OAuth2Config, entries: Seq<(Seq<char>, Seq<char>)>)
    requires
        config_of_section(c, entries),
    ensures
        setting_read(c.auth_server_auth_endpoint, entries, "auth_server_auth_endpoint"@),
        setting_read(c.auth_server_token_endpoint, entries, "auth_server_token_endpoint"@),
        setting_read(c.client_id, entries, "client_id"@),
        setting_read(c.client_secret, entries, "client_secret"@),
        setting_read(c.scopes, entries, "scopes"@),
        setting_read(c.username, entries, "username"@),
        setting_read(c.password, entries, "password"@),
        setting_read(c.redirect, entries, "redirect"@),
        setting_read(c.default_content_type, entries, "default_content_type"@),
        setting_read(c.default_user_agent, entries, "default_user_agent"@),
        setting_read(c.default_auth_header_template, entries, "default_auth_header_template"@),
        forall|v: Seq<char>| #[trigger] first_entry(entries, "grant_type"@, v) ==> grant_type_named(v)
            == Some(c.grant_type),
{
    lemma_grant_type_by_key(entries);
    lemma_entry_value(entries, "auth_server_auth_endpoint"@);
    lemma_entry_value(entries, "auth_server_token_endpoint"@);
    lemma_entry_value(entries, "client_id"@);
    lemma_entry_value(entries, "client_secret"@);
    lemma_entry_value(entries, "scopes"@);
    lemma_entry_value(entries, "username"@);
    lemma_entry_value(entries, "password"@);
    lemma_entry_value(entries, "redirect"@);
    lemma_entry_value(entries, "default_content_type"@);
    lemma_entry_value(entries, "default_user_agent"@);
    lemma_entry_value(entries, "default_auth_header_template"@);
    lemma_entry_value(entries, "grant_type"@);
}

/// The value of the first entry named `key`.
pub fn lookup(entries: &Vec<(String, String)>, key: &str) -> (r: Option<String>)
    ensures
        opt_view(r) == entry_value(crate::oauth2::pairs_view(entries@), key@),
{
    let ghost pv = crate::oauth2::pairs_view(entries@);
    let mut i: usize = 0;
    assert(pv.skip(0) =~= pv);
    while i < entries.len()
        invariant
            i <= entries.len(),
            pv == crate::oauth2::pairs_view(entries@),
            entry_value(pv, key@) == entry_value(pv.skip(i as int), key@),
        decreases entries.len() - i,
    {
        assert(pv.skip(i as int)[0] == pv[i as int]);
        if str_eq(entries[i].0.as_str(), key) {
            return Some(entries[i].1.clone());
        }
        assert(pv.skip(i as int).skip(1) =~= pv.skip(i + 1));
        i += 1;
    }
    None
}

/// The settings of one section, or `MissingFields("grant_type")` when the
/// section does not name a known grant type.
pub fn config_from_section(entries: &Vec<(String, String)>) -> (r: Result<OAuth2Config, InvalidConfig>)
    ensures
        match r {
            Ok(c) => config_of_section(c, crate::oauth2::pairs_view(entries@)),
            Err(e) => section_grant_type(crate::oauth2::pairs_view(entries@)) is None
                && (e matches InvalidConfig::MissingFields(m) && m@ == "grant_type"@),
        },
{
    let grant_type = match lookup(entries, "grant_type") {
        Some(v) => match GrantType::parse(v.as_str()) {
            Ok(g) => g,
            Err(_) => return Err(InvalidConfig::MissingFields(owned("grant_type"))),
        },
        None => return Err(InvalidConfig::MissingFields(owned("grant_type"))),
    };
    Ok(
        OAuth2Config {
            auth_server_auth_endpoint: lookup(entries, "auth_server_auth_endpoint"),
            auth_server_token_endpoint: lookup(entries, "auth_server_token_endpoint"),
            client_id: lookup(entries, "client_id"),
            client_secret: lookup(entries, "client_secret"),
            username: lookup(entries, "username"),
            password: lookup(entries, "password"),
            grant_type,
            scopes: lookup(entries, "scopes"),
            redirect: lookup(entries, "redirect"),
            default_content_type: lookup(entries, "default_content_type"),
            default_user_agent: lookup(entries, "default_user_agent"),
            default_auth_header_template: lookup(entries, "default_auth_header_template"),
        },
    )
}

/// Every section of the document names a known grant type.
pub open spec fn all_sections_usable(doc: Seq<(Seq<char>, Seq<(Seq<char>, Seq<char>)>)>) -> bool {
    forall|i: int| 0 <= i < doc.len() ==> (#[trigger] section_grant_type(doc[i].1)) is Some
}

/// Reads the profiles out of the text of the profile file: one profile per
/// section, named after it. The file must be valid INI and every section
/// must name a known grant type.
pub fn read_profiles(ini_text: &str) -> (r: Result<Vec<(String, OAuth2Config)>, InvalidConfig>)
    ensures
        match ini_document(ini_text@) {
            None => r matches Err(InvalidConfig::IniFileError(_)),
            Some(doc) => if all_sections_usable(doc) {
                r matches Ok(profiles) && profiles.len() == doc.len() && forall|i: int|
                    0 <= i < doc.len() ==> (#[trigger] profiles@[i]).0@ == doc[i].0
                        && config_of_section(profiles@[i].1, doc[i].1)
            } else {
                r matches Err(InvalidConfig::MissingFields(m)) && m@ == "grant_type"@
            },
        },
{
    let sections = match parse_ini(ini_text) {
        Ok(s) => s,
        Err(e) => return Err(InvalidConfig::IniFileError(e)),
    };
    let ghost doc = sections_view(sections@);
    let mut profiles: Vec<(String, OAuth2Config)> = Vec::new();
    let mut i: usize = 0;
    while i < sections.len()
        invariant
            i <= sections.len(),
            doc == sections_view(sections@),
            ini_document(ini_text@) == Some(doc),
            profiles.len() == i,
            forall|j: int| 0 <= j < i ==> (#[trigger] section_grant_type(doc[j].1)) is Some,
            forall|j: int|
                0 <= j < i ==> (#[trigger] profiles@[j]).0@ == doc[j].0 && config_of_section(
                    profiles@[j].1,
                    doc[j].1,
                ),
        decreases sections.len() - i,
    {
        assert(doc[i as int] == section_view(sections@[i as int]));
        let config = match config_from_section(&sections[i].entries) {
            Ok(c) => c,
            Err(e) => {
                assert(section_grant_type(doc[i as int].1) is None);
                assert(!all_sections_usable(doc));
                return Err(e);
            },
        };
        profiles.push((sections[i].name.clone(), config));
        i += 1;
    }
    Ok(profiles)
}

/// The profile named `name`, if any; when several carry the name, the last
/// one (later sections replace earlier ones).
pub open spec fn profile_index(profiles: Seq<(String, OAuth2Config)>, name: Seq<char>, i: int) -> bool {
    &&& 0 <= i < profiles.len()
    &&& profiles[i].0@ == name
    &&& forall|j: int| i < j < profiles.len() ==> (#[trigger] profiles[j]).0@ != name
}

/// Finds the profile named `name`; when several carry the name, the last one.
pub fn find_profile<'a>(profiles: &'a Vec<(String, OAuth2Config)>, name: &str) -> (r: Option<
    &'a OAuth2Config,
>)
    ensures
        match r {
            Some(c) => exists|i: int| profile_index(profiles@, name@, i) && *c == profiles@[i].1,
            None => forall|i: int| 0 <= i < profiles.len() ==> (#[trigger] profiles@[i]).0@ != name@,
        },
{
    let mut i: usize = profiles.len();
    while i > 0
        invariant
            i <= profiles.len(),
            forall|j: int| i <= j < profiles.len() ==> (#[trigger] profiles@[j]).0@ != name@,
        decreases i,
    {
        i -= 1;
        if str_eq(profiles[i].0.as_str(), name) {
            assert(profile_index(profiles@, name@, i as int));
            return Some(&profiles[i].1);
        }
    }
    None
}

/// A profile: the name of a section of the profile file.
pub struct Profile {
    pub name: String,
}

/// The directory that holds the profile file and the token caches, below
/// the home directory `home` (`home/.aurl/`, joined as `PathBuf::push` does).
pub open spec fn base_dir(home: Seq<char>) -> Seq<char> {
    if home.len() == 0 || home.last() == '/' {
        home + ".aurl/"@
    } else {
        home + "/.aurl/"@
    }
}

impl Profile {
    pub fn new(name: &str) -> (p: Profile)
        ensures
            p.name@ == name@,
    {
        Profile { name: owned(name) }
    }

    /// The directory `.aurl/` below the home directory `home`.
    pub fn basedir(home: &str) -> (d: String)
        ensures
            d@ == base_dir(home@),
    {
        let v = crate::text::chars_of(home);
        if v.len() == 0 || v[v.len() - 1] == '/' {
            concat(home, ".aurl/")
        } else {
            concat(home, "/.aurl/")
        }
    }

    /// The profile file, `profiles` in the base directory.
    pub fn config_file(home: &str) -> (f: String)
        ensures
            f@ == base_dir(home@) + "profiles"@,
    {
        let d = Profile::basedir(home);
        concat(d.as_str(), "profiles")
    }

    /// The file that caches this profile's access token as JSON: the
    /// profile's name with `.json` in the `token/` directory of the base
    /// directory.
    pub fn token_file(&self, home: &str) -> (f: String)
        ensures
            f@ == base_dir(home@) + "token/"@ + self.name@ + ".json"@,
    {
        let d = Profile::basedir(home);
        let t = concat(d.as_str(), "token/");
        let n = concat(t.as_str(), self.name.as_str());
        concat(n.as_str(), ".json")
    }
}

} // verus!
