use vstd::prelude::*;
use vstd::string::*;

use crate::text::{same_text, starts_with};

verus! {

/// A value in a section of the configuration file, as far as the client reads it.
pub enum TomlField {
    /// A string.
    Text(String),
    /// A boolean.
    Flag(bool),
    /// Any other kind of value: a number, a date, an array or a table.
    Other,
}

/// A top-level entry of the configuration file: its key, and, where its
/// value is a table, the keys and values of that table in the file's order.
pub struct TomlSection {
    pub name: String,
    pub fields: Option<Vec<(String, TomlField)>>,
}

/// The top-level entries of a parsed configuration file, in the order in
/// which the parser hands them out.
pub struct TomlDocument {
    pub sections: Vec<TomlSection>,
}

pub enum FieldView {
    Text(Seq<char>),
    Flag(bool),
    Other,
}

pub struct SectionView {
    pub name: Seq<char>,
    pub fields: Option<Seq<(Seq<char>, FieldView)>>,
}

impl View for TomlField {
    type V = FieldView;

    open spec fn view(&self) -> FieldView {
        match self {
            TomlField::Text(t) => FieldView::Text(t@),
            TomlField::Flag(b) => FieldView::Flag(*b),
            TomlField::Other => FieldView::Other,
        }
    }
}

pub open spec fn fields_view(fields: Seq<(String, TomlField)>) -> Seq<(Seq<char>, FieldView)> {
    fields.map_values(|p: (String, TomlField)| (p.0@, p.1@))
}

impl View for TomlSection {
    type V = SectionView;

    open spec fn view(&self) -> SectionView {
        SectionView {
            name: self.name@,
            fields: match self.fields {
                Some(f) => Some(fields_view(f@)),
                None => None,
            },
        }
    }
}

impl View for TomlDocument {
    type V = Seq<SectionView>;

    open spec fn view(&self) -> Seq<SectionView> {
        self.sections@.map_values(|s: TomlSection| s@)
    }
}

/// What the `toml` crate's `from_str` makes of a configuration text: `None`
/// where it refuses the text, else the document's top-level entries.
pub uninterp spec fn parsed_toml(text: Seq<char>) -> Option<Seq<SectionView>>;

/// Parses a configuration text with `toml::from_str` into a table.
/// Trusted: claims that the result is a function of the text alone, and
/// that the conversion keeps each top-level key, whether its value is a
/// table, and for a table each key with its string or boolean value, in
/// the order of the crate's map.
#[verifier::external_body]
pub(crate) fn parse_config_text(text: &str) -> (r: Option<TomlDocument>)
    ensures
        r is Some <==> parsed_toml(text@) is Some,
        r matches Some(d) ==> parsed_toml(text@) == Some(d@),
{
    let table = toml::from_str::<toml::Table>(text).ok()?;
    Some(TomlDocument { sections: table.into_iter().map(|(name, value)| TomlSection { name, fields: match value {
        toml::Value::Table(t) => Some(t.into_iter().map(|(k, v)| (k, match v {
            toml::Value::String(s) => TomlField::Text(s),
            toml::Value::Boolean(b) => TomlField::Flag(b),
            _ => TomlField::Other,
        })).collect()),
        _ => None,
    } }).collect() })
}

/// The value of the first field named `key` among the first `n` fields.
pub open spec fn lookup_within(fields: Seq<(Seq<char>, FieldView)>, key: Seq<char>, n: nat) -> Option<FieldView>
    decreases n,
{
    if n == 0 {
        None
    } else {
        match lookup_within(fields, key, (n - 1) as nat) {
            Some(v) => Some(v),
            None => if fields[n - 1].0 == key {
                Some(fields[n - 1].1)
            } else {
                None
            },
        }
    }
}

/// The value of the field named `key` in a table.
pub open spec fn field_lookup(fields: Seq<(Seq<char>, FieldView)>, key: Seq<char>) -> Option<FieldView> {
    lookup_within(fields, key, fields.len())
}

/// The string value of the field named `key`; `None` where the field is
/// missing or holds something else.
pub open spec fn field_text(fields: Seq<(Seq<char>, FieldView)>, key: Seq<char>) -> Option<Seq<char>> {
    match field_lookup(fields, key) {
        Some(FieldView::Text(t)) => Some(t),
        _ => None,
    }
}

/// Whether a top-level entry is a table marked `active = true`.
pub open spec fn is_active_table(s: SectionView) -> bool {
    match s.fields {
        Some(f) => field_lookup(f, "active"@) == Some(FieldView::Flag(true)),
        None => false,
    }
}

/// Whether a top-level entry is a table with the name asked for.
pub open spec fn is_named_table(s: SectionView, wanted: Seq<char>) -> bool {
    s.fields is Some && s.name == wanted
}

/// Whether a top-level entry is a table.
pub open spec fn is_table(s: SectionView) -> bool {
    s.fields is Some
}

pub open spec fn active_table() -> spec_fn(SectionView) -> bool {
    |s: SectionView| is_active_table(s)
}

pub open spec fn named_table(wanted: Seq<char>) -> spec_fn(SectionView) -> bool {
    |s: SectionView| is_named_table(s, wanted)
}

pub open spec fn any_table() -> spec_fn(SectionView) -> bool {
    |s: SectionView| is_table(s)
}

/// The first of the first `n` entries that has a property.
pub open spec fn first_within(doc: Seq<SectionView>, pred: spec_fn(SectionView) -> bool, n: nat) -> Option<int>
    decreases n,
{
    if n == 0 {
        None
    } else {
        match first_within(doc, pred, (n - 1) as nat) {
            Some(i) => Some(i),
            None => if pred(doc[n - 1]) {
                Some(n - 1)
            } else {
                None
            },
        }
    }
}

/// The first entry that has a property.
pub open spec fn first_where(doc: Seq<SectionView>, pred: spec_fn(SectionView) -> bool) -> Option<int> {
    first_within(doc, pred, doc.len())
}

/// The profile that the client uses: the first table marked active; where
/// there is none, the table with the name asked for; where there is none,
/// the first table.
pub open spec fn chosen_profile(doc: Seq<SectionView>, wanted: Seq<char>) -> Option<int> {
    match first_where(doc, active_table()) {
        Some(i) => Some(i),
        None => match first_where(doc, named_table(wanted)) {
            Some(i) => Some(i),
            None => first_where(doc, any_table()),
        },
    }
}

proof fn lemma_lookup_within_found(fields: Seq<(Seq<char>, FieldView)>, key: Seq<char>, k: nat, n: nat)
    requires
        k <= n,
        lookup_within(fields, key, k) is Some,
    ensures
        lookup_within(fields, key, n) == lookup_within(fields, key, k),
    decreases n - k,
{
    if n > k {
        lemma_lookup_within_found(fields, key, k, (n - 1) as nat);
    }
}

proof fn lemma_first_within_props(doc: Seq<SectionView>, pred: spec_fn(SectionView) -> bool, n: nat)
    requires
        n <= doc.len(),
    ensures
        match first_within(doc, pred, n) {
            Some(i) => 0 <= i < n && pred(doc[i]) && forall|j: int| 0 <= j < i ==> !pred(#[trigger] doc[j]),
            None => forall|j: int| 0 <= j < n ==> !pred(#[trigger] doc[j]),
        },
    decreases n,
{
    if n > 0 {
        lemma_first_within_props(doc, pred, (n - 1) as nat);
    }
}

/// Looks up a field of a table by its key.
pub fn find_field<'a>(fields: &'a Vec<(String, TomlField)>, key: &str) -> (r: Option<&'a TomlField>)
    ensures
        match r {
            Some(v) => field_lookup(fields_view(fields@), key@) == Some(v@),
            None => field_lookup(fields_view(fields@), key@) is None,
        },
{
    let ghost fv = fields_view(fields@);
    let mut i: usize = 0;
    while i < fields.len()
        invariant
            i <= fields@.len(),
            fv == fields_view(fields@),
            lookup_within(fv, key@, i as nat) is None,
        decreases fields@.len() - i,
    {
        if same_text(fields[i].0.as_str(), key) {
            proof {
                lemma_lookup_within_found(fv, key@, (i + 1) as nat, fv.len());
            }
            return Some(&fields[i].1);
        }
        i = i + 1;
    }
    None
}

/// The string value of a field, where the field is there and holds a string.
pub fn text_field(fields: &Vec<(String, TomlField)>, key: &str) -> (r: Option<String>)
    ensures
        match r {
            Some(t) => field_text(fields_view(fields@), key@) == Some(t@),
            None => field_text(fields_view(fields@), key@) is None,
        },
{
    match find_field(fields, key) {
        Some(TomlField::Text(t)) => Some(t.clone()),
        _ => None,
    }
}

fn active(section: &TomlSection) -> (r: bool)
    ensures
        r == is_active_table(section@),
{
    match &section.fields {
        Some(f) => match find_field(f, "active") {
            Some(TomlField::Flag(b)) => *b,
            _ => false,
        },
        None => false,
    }
}

fn note_first(found: Option<usize>, i: usize, holds: bool) -> (r: Option<usize>)
    ensures
        found is Some ==> r == found,
        found is None ==> r == (if holds { Some(i) } else { None::<usize> }),
{
    match found {
        Some(k) => Some(k),
        None => if holds {
            Some(i)
        } else {
            None
        },
    }
}

pub open spec fn index_view(o: Option<usize>) -> Option<int> {
    match o {
        Some(i) => Some(i as int),
        None => None,
    }
}

/// Chooses the profile of a configuration file: the first table marked
/// active, else the table with the name asked for, else the first table.
pub fn select_profile(doc: &TomlDocument, wanted: &str) -> (r: Option<usize>)
    ensures
        index_view(r) == chosen_profile(doc@, wanted@),
{
    let ghost d = doc@;
    let mut first_active: Option<usize> = None;
    let mut first_named: Option<usize> = None;
    let mut first_table: Option<usize> = None;
    let mut i: usize = 0;
    while i < doc.sections.len()
        invariant
            i <= doc.sections@.len(),
            d == doc@,
            d.len() == doc.sections@.len(),
            index_view(first_active) == first_within(d, active_table(), i as nat),
            index_view(first_named) == first_within(d, named_table(wanted@), i as nat),
            index_view(first_table) == first_within(d, any_table(), i as nat),
        decreases doc.sections@.len() - i,
    {
        let section = &doc.sections[i];
        assert(d[i as int] == section@);
        let is_active = active(section);
        let is_named = section.fields.is_some() && same_text(section.name.as_str(), wanted);
        let is_table = section.fields.is_some();
        first_active = note_first(first_active, i, is_active);
        first_named = note_first(first_named, i, is_named);
        first_table = note_first(first_table, i, is_table);
        i = i + 1;
    }
    match first_active {
        Some(k) => Some(k),
        None => match first_named {
            Some(k) => Some(k),
            None => first_table,
        },
    }
}

/// The environment of the process, as far as the client reads it.
pub struct EnvSettings {
    /// `MODAL_SERVER_URL`
    pub server_url: Option<String>,
    /// `MODAL_TOKEN_ID`
    pub token_id: Option<String>,
    /// `MODAL_TOKEN_SECRET`
    pub token_secret: Option<String>,
    /// `MODAL_PROFILE`
    pub profile: Option<String>,
    /// `MODAL_CONFIG_PATH`
    pub config_path: Option<String>,
    /// `USERPROFILE`
    pub user_profile: Option<String>,
    /// `HOME`
    pub home: Option<String>,
}

/// What the client connects with: the server address and the credentials,
/// each of which may be missing.
pub struct ConnectSettings {
    pub server_url: Option<String>,
    pub token_id: Option<String>,
    pub token_secret: Option<String>,
}

pub struct SettingsView {
    pub server_url: Option<Seq<char>>,
    pub token_id: Option<Seq<char>>,
    pub token_secret: Option<Seq<char>>,
}

pub open spec fn opt_text(o: Option<String>) -> Option<Seq<char>> {
    match o {
        Some(s) => Some(s@),
        None => None,
    }
}

pub open spec fn or_else_text(first: Option<Seq<char>>, second: Option<Seq<char>>) -> Option<Seq<char>> {
    match first {
        Some(t) => Some(t),
        None => second,
    }
}

impl View for ConnectSettings {
    type V = SettingsView;

    open spec fn view(&self) -> SettingsView {
        SettingsView {
            server_url: opt_text(self.server_url),
            token_id: opt_text(self.token_id),
            token_secret: opt_text(self.token_secret),
        }
    }
}

/// Where the configuration file is.
pub enum ConfigLocation {
    /// The path that `MODAL_CONFIG_PATH` names.
    Path(String),
    /// The file named by `default_config_file_name` in this home directory.
    InHome(String),
}

/// Both credentials are in the environment.
pub open spec fn env_has_credentials(env: EnvSettings) -> bool {
    env.token_id is Some && env.token_secret is Some
}

/// The profile asked for: `MODAL_PROFILE`, else `default`.
pub open spec fn wanted_profile(env: EnvSettings) -> Seq<char> {
    match env.profile {
        Some(p) => p@,
        None => "default"@,
    }
}

/// The settings that the environment alone gives.
pub open spec fn env_only_settings(env: EnvSettings) -> SettingsView {
    SettingsView {
        server_url: opt_text(env.server_url),
        token_id: opt_text(env.token_id),
        token_secret: opt_text(env.token_secret),
    }
}

/// The settings of the client: each value of the environment where it is
/// set, else the value of the chosen profile of the configuration file. The
/// file is not looked at where both credentials are in the environment.
pub open spec fn settings_from(env: EnvSettings, doc: Option<Seq<SectionView>>) -> SettingsView {
    if env_has_credentials(env) {
        env_only_settings(env)
    } else {
        match doc {
            Some(d) => match chosen_profile(d, wanted_profile(env)) {
                Some(i) => {
                    let f = d[i].fields.unwrap();
                    SettingsView {
                        server_url: or_else_text(opt_text(env.server_url), field_text(f, "server_url"@)),
                        token_id: or_else_text(opt_text(env.token_id), field_text(f, "token_id"@)),
                        token_secret: or_else_text(opt_text(env.token_secret), field_text(f, "token_secret"@)),
                    }
                },
                None => env_only_settings(env),
            },
            None => env_only_settings(env),
        }
    }
}

/// The home directory: `USERPROFILE`, else `HOME`.
pub open spec fn home_dir(env: EnvSettings) -> Option<Seq<char>> {
    or_else_text(opt_text(env.user_profile), opt_text(env.home))
}

fn clone_opt(o: &Option<String>) -> (r: Option<String>)
    ensures
        opt_text(r) == opt_text(*o),
{
    match o {
        Some(s) => Some(s.clone()),
        None => None,
    }
}

fn env_first(env_value: &Option<String>, profile_value: Option<String>) -> (r: Option<String>)
    ensures
        opt_text(r) == or_else_text(opt_text(*env_value), opt_text(profile_value)),
{
    match env_value {
        Some(t) => Some(t.clone()),
        None => profile_value,
    }
}

impl EnvSettings {
    /// Whether the client has to look in the configuration file: it does
    /// unless both credentials are in the environment.
    pub fn wants_config_file(&self) -> (r: bool)
        ensures
            r == !env_has_credentials(*self),
            r == (self.token_id is None || self.token_secret is None),
    {
        !(self.token_id.is_some() && self.token_secret.is_some())
    }

    /// Where the configuration file is: `MODAL_CONFIG_PATH` where it is set;
    /// else the default file in the home directory; nowhere where there is
    /// neither.
    pub fn config_location(&self) -> (r: Option<ConfigLocation>)
        ensures
            match r {
                Some(ConfigLocation::Path(p)) => opt_text(self.config_path) == Some(p@),
                Some(ConfigLocation::InHome(h)) => self.config_path is None && home_dir(*self) == Some(h@),
                None => self.config_path is None && home_dir(*self) is None,
            },
    {
        match &self.config_path {
            Some(p) => Some(ConfigLocation::Path(p.clone())),
            None => match &self.user_profile {
                Some(h) => Some(ConfigLocation::InHome(h.clone())),
                None => match &self.home {
                    Some(h) => Some(ConfigLocation::InHome(h.clone())),
                    None => None,
                },
            },
        }
    }

    /// The name of the profile asked for.
    pub fn wanted_profile(&self) -> (r: String)
        ensures
            r@ == wanted_profile(*self),
    {
        match &self.profile {
            Some(p) => p.clone(),
            None => String::from_str("default"),
        }
    }

    /// The settings from the environment alone.
    pub fn env_only(&self) -> (r: ConnectSettings)
        ensures
            r@ == env_only_settings(*self),
    {
        ConnectSettings {
            server_url: clone_opt(&self.server_url),
            token_id: clone_opt(&self.token_id),
            token_secret: clone_opt(&self.token_secret),
        }
    }

    /// The settings of the client, given the parsed configuration file where
    /// it was read.
    pub fn settings_from_document(&self, doc: Option<&TomlDocument>) -> (r: ConnectSettings)
        ensures
            r@ == settings_from(
                *self,
                match doc {
                    Some(d) => Some(d@),
                    None => None,
                },
            ),
    {
        if !self.wants_config_file() {
            return self.env_only();
        }
        match doc {
            None => self.env_only(),
            Some(d) => {
                let wanted = self.wanted_profile();
                match select_profile(d, wanted.as_str()) {
                    None => self.env_only(),
                    Some(i) => {
                        proof {
                            lemma_chosen_profile(d@, wanted@);
                        }
                        let section = &d.sections[i];
                        assert(d@[i as int] == section@);
                        match &section.fields {
                            Some(f) => ConnectSettings {
                                server_url: env_first(&self.server_url, text_field(f, "server_url")),
                                token_id: env_first(&self.token_id, text_field(f, "token_id")),
                                token_secret: env_first(&self.token_secret, text_field(f, "token_secret")),
                            },
                            None => self.env_only(),
                        }
                    },
                }
            },
        }
    }

    /// The settings of the client, given the text of the configuration file
    /// where it was read; the text is parsed only where the environment lacks
    /// a credential.
    pub fn settings_from_config_text(&self, text: Option<&str>) -> (r: ConnectSettings)
        ensures
            r@ == settings_from(
                *self,
                match text {
                    Some(t) => parsed_toml(t@),
                    None => None,
                },
            ),
    {
        if !self.wants_config_file() {
            return self.env_only();
        }
        match text {
            None => self.env_only(),
            Some(t) => {
                let doc = parse_config_text(t);
                match doc {
                    Some(d) => self.settings_from_document(Some(&d)),
                    None => self.settings_from_document(None),
                }
            },
        }
    }
}

/// The name of the configuration file in the home directory.
pub fn default_config_file_name() -> (r: String)
    ensures
        r@ == ".modal.toml"@,
{
    String::from_str(".modal.toml")
}

/// The profile chosen: a table marked active where there is one, and then
/// the first such; else the table with the name asked for, the first such;
/// else the first table; there is none only where no entry is a table.
pub proof fn lemma_chosen_profile(doc: Seq<SectionView>, wanted: Seq<char>)
    ensures
        match chosen_profile(doc, wanted) {
            Some(i) => {
                &&& 0 <= i < doc.len()
                &&& doc[i].fields is Some
                &&& if is_active_table(doc[i]) {
                    forall|j: int| 0 <= j < i ==> !is_active_table(#[trigger] doc[j])
                } else if is_named_table(doc[i], wanted) {
                    &&& forall|j: int| 0 <= j < doc.len() ==> !is_active_table(#[trigger] doc[j])
                    &&& forall|j: int| 0 <= j < i ==> !is_named_table(#[trigger] doc[j], wanted)
                } else {
                    &&& forall|j: int| 0 <= j < doc.len() ==> !is_active_table(#[trigger] doc[j])
                    &&& forall|j: int| 0 <= j < doc.len() ==> !is_named_table(#[trigger] doc[j], wanted)
                    &&& forall|j: int| 0 <= j < i ==> (#[trigger] doc[j]).fields is None
                }
            },
            None => forall|j: int| 0 <= j < doc.len() ==> (#[trigger] doc[j]).fields is None,
        },
{
    lemma_first_within_props(doc, active_table(), doc.len());
    lemma_first_within_props(doc, named_table(wanted), doc.len());
    lemma_first_within_props(doc, any_table(), doc.len());
    assert forall|j: int| 0 <= j < doc.len() implies #[trigger] active_table()(doc[j]) == is_active_table(doc[j]) by {}
    assert forall|j: int| 0 <= j < doc.len() implies #[trigger] named_table(wanted)(doc[j]) == is_named_table(doc[j], wanted) by {}
    assert forall|j: int| 0 <= j < doc.len() implies #[trigger] any_table()(doc[j]) == is_table(doc[j]) by {}
}

/// Where both credentials are in the environment, the configuration file
/// changes nothing.
pub proof fn lemma_env_credentials_override_file(
    env: EnvSettings,
    doc1: Option<Seq<SectionView>>,
    doc2: Option<Seq<SectionView>>,
)
    requires
        env.token_id is Some,
        env.token_secret is Some,
    ensures
        settings_from(env, doc1) == settings_from(env, doc2),
        settings_from(env, doc1) == env_only_settings(env),
{
}

/// A value set in the environment is used whatever the configuration file
/// holds; the chosen profile supplies a value only where the environment
/// has none.
pub proof fn lemma_environment_values_take_precedence(env: EnvSettings, doc: Option<Seq<SectionView>>)
    ensures
        env.server_url is Some ==> settings_from(env, doc).server_url == opt_text(env.server_url),
        env.token_id is Some ==> settings_from(env, doc).token_id == opt_text(env.token_id),
        env.token_secret is Some ==> settings_from(env, doc).token_secret == opt_text(env.token_secret),
{
}

/// Where the environment lacks a credential and the file has a profile to
/// use, each value missing from the environment is the profile's.
pub proof fn lemma_profile_fills_missing_values(env: EnvSettings, doc: Seq<SectionView>)
    requires
        !env_has_credentials(env),
        chosen_profile(doc, wanted_profile(env)) is Some,
    ensures
        ({
            let s = settings_from(env, Some(doc));
            let f = doc[chosen_profile(doc, wanted_profile(env)).unwrap()].fields.unwrap();
            &&& env.server_url is None ==> s.server_url == field_text(f, "server_url"@)
            &&& env.token_id is None ==> s.token_id == field_text(f, "token_id"@)
            &&& env.token_secret is None ==> s.token_secret == field_text(f, "token_secret"@)
        }),
{
}

proof fn lemma_lookup_within_first(fields: Seq<(Seq<char>, FieldView)>, key: Seq<char>, n: nat)
    requires
        n <= fields.len(),
    ensures
        match lookup_within(fields, key, n) {
            Some(v) => exists|k: int|
                0 <= k < n && #[trigger] fields[k] == (key, v) && forall|j: int| 0 <= j < k ==> (#[trigger] fields[j]).0 != key,
            None => forall|j: int| 0 <= j < n ==> (#[trigger] fields[j]).0 != key,
        },
    decreases n,
{
    if n > 0 {
        lemma_lookup_within_first(fields, key, (n - 1) as nat);
        if lookup_within(fields, key, (n - 1) as nat) is None && fields[n - 1].0 == key {
            assert(fields[n - 1] == (key, fields[n - 1].1));
        }
    }
}

/// The value of a field is the value that stands with its key, the first
/// time the key occurs; a key that does not occur has no value.
pub proof fn lemma_field_lookup(fields: Seq<(Seq<char>, FieldView)>, key: Seq<char>)
    ensures
        match field_lookup(fields, key) {
            Some(v) => exists|k: int|
                0 <= k < fields.len() && #[trigger] fields[k] == (key, v) && forall|j: int|
                    0 <= j < k ==> (#[trigger] fields[j]).0 != key,
            None => forall|j: int| 0 <= j < fields.len() ==> (#[trigger] fields[j]).0 != key,
        },
{
    lemma_lookup_within_first(fields, key, fields.len());
}

/// Where some table has `active = true`, the profile chosen is a table with
/// `active = true`, and no table before it has one; a table whose `active`
/// is false, missing or not a boolean is then never chosen.
pub proof fn lemma_active_profile_is_chosen(doc: Seq<SectionView>, wanted: Seq<char>, j: int)
    requires
        0 <= j < doc.len(),
        doc[j].fields matches Some(f) && field_lookup(f, "active"@) == Some(FieldView::Flag(true)),
    ensures
        chosen_profile(doc, wanted) matches Some(i) && 0 <= i <= j && (doc[i].fields matches Some(g)
            && field_lookup(g, "active"@) == Some(FieldView::Flag(true))) && forall|k: int|
            0 <= k < i ==> !(#[trigger] doc[k].fields matches Some(h) && field_lookup(h, "active"@)
                == Some(FieldView::Flag(true))),
{
    lemma_first_within_props(doc, active_table(), doc.len());
    assert(active_table()(doc[j]));
}

/// Where no table has `active = true`, the profile chosen is the first table
/// with the name asked for, where there is one.
pub proof fn lemma_named_profile_is_chosen(doc: Seq<SectionView>, wanted: Seq<char>, j: int)
    requires
        0 <= j < doc.len(),
        doc[j].fields is Some,
        doc[j].name == wanted,
        forall|k: int| 0 <= k < doc.len() ==> !(#[trigger] doc[k].fields matches Some(h) && field_lookup(
            h,
            "active"@,
        ) == Some(FieldView::Flag(true))),
    ensures
        chosen_profile(doc, wanted) matches Some(i) && 0 <= i <= j && doc[i].fields is Some && doc[i].name
            == wanted && forall|k: int| 0 <= k < i ==> !((#[trigger] doc[k]).fields is Some && doc[k].name == wanted),
{
    lemma_first_within_props(doc, active_table(), doc.len());
    lemma_first_within_props(doc, named_table(wanted), doc.len());
    assert(named_table(wanted)(doc[j]));
    assert forall|k: int| 0 <= k < doc.len() implies !#[trigger] active_table()(doc[k]) by {
        assert(!(doc[k].fields matches Some(h) && field_lookup(h, "active"@) == Some(FieldView::Flag(true))));
    }
}

/// Where no table has `active = true` or the name asked for, the profile
/// chosen is the first table, and there is none only where no entry is a table.
pub proof fn lemma_first_table_is_chosen(doc: Seq<SectionView>, wanted: Seq<char>)
    requires
        forall|k: int| 0 <= k < doc.len() ==> !(#[trigger] doc[k].fields matches Some(h) && field_lookup(
            h,
            "active"@,
        ) == Some(FieldView::Flag(true))),
        forall|k: int| 0 <= k < doc.len() ==> !((#[trigger] doc[k]).fields is Some && doc[k].name == wanted),
    ensures
        match chosen_profile(doc, wanted) {
            Some(i) => 0 <= i < doc.len() && doc[i].fields is Some && forall|k: int|
                0 <= k < i ==> (#[trigger] doc[k]).fields is None,
            None => forall|k: int| 0 <= k < doc.len() ==> (#[trigger] doc[k]).fields is None,
        },
{
    lemma_first_within_props(doc, active_table(), doc.len());
    lemma_first_within_props(doc, named_table(wanted), doc.len());
    lemma_first_within_props(doc, any_table(), doc.len());
    assert forall|k: int| 0 <= k < doc.len() implies !#[trigger] active_table()(doc[k]) by {
        assert(!(doc[k].fields matches Some(h) && field_lookup(h, "active"@) == Some(FieldView::Flag(true))));
    }
    assert forall|k: int| 0 <= k < doc.len() implies !#[trigger] named_table(wanted)(doc[k]) by {
        assert(!(doc[k].fields is Some && doc[k].name == wanted));
    }
    assert forall|k: int| 0 <= k < doc.len() implies #[trigger] any_table()(doc[k]) == doc[k].fields is Some by {}
}

/// The configuration file is looked at exactly when a credential is missing
/// from the environment.
pub proof fn lemma_file_consulted_when_credential_missing(env: EnvSettings)
    ensures
        !env_has_credentials(env) <==> (env.token_id is None || env.token_secret is None),
{
}

/// A credential or address missing from the environment is the chosen
/// profile's, whichever of the others the environment has.
pub proof fn lemma_missing_values_from_profile(env: EnvSettings, doc: Seq<SectionView>)
    requires
        chosen_profile(doc, wanted_profile(env)) is Some,
    ensures
        ({
            let s = settings_from(env, Some(doc));
            let f = doc[chosen_profile(doc, wanted_profile(env)).unwrap()].fields.unwrap();
            &&& env.token_id is None ==> s.token_id == field_text(f, "token_id"@)
            &&& env.token_secret is None ==> s.token_secret == field_text(f, "token_secret"@)
            &&& (env.server_url is None && (env.token_id is None || env.token_secret is None)) ==> s.server_url
                == field_text(f, "server_url"@)
        }),
{
}

/// A string field holds the text that stands with its key, and only a
/// string field has one.
pub proof fn lemma_field_text(fields: Seq<(Seq<char>, FieldView)>, key: Seq<char>, t: Seq<char>)
    ensures
        field_text(fields, key) == Some(t) <==> field_lookup(fields, key) == Some(FieldView::Text(t)),
        field_text(fields, key) is None <==> !(field_lookup(fields, key) matches Some(FieldView::Text(_))),
{
}

/// The profile asked for is `MODAL_PROFILE` where it is set, else `default`.
pub proof fn lemma_wanted_profile(env: EnvSettings)
    ensures
        env.profile matches Some(p) ==> wanted_profile(env) == p@,
        env.profile is None ==> wanted_profile(env) == "default"@,
{
}

/// Where both credentials are in the environment, the settings are exactly
/// the environment's: its tokens, and its server address or none.
pub proof fn lemma_env_credentials_settings(env: EnvSettings, doc: Option<Seq<SectionView>>)
    requires
        env.token_id is Some,
        env.token_secret is Some,
    ensures
        settings_from(env, doc).token_id == opt_text(env.token_id),
        settings_from(env, doc).token_secret == opt_text(env.token_secret),
        settings_from(env, doc).server_url == opt_text(env.server_url),
{
}

/// The home directory is `USERPROFILE` where it is set, else `HOME`.
pub proof fn lemma_home_dir(env: EnvSettings)
    ensures
        env.user_profile matches Some(u) ==> home_dir(env) == Some(u@),
        env.user_profile is None ==> home_dir(env) == opt_text(env.home),
{
}

} // verus!
