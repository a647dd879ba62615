use vstd::prelude::*;
use vstd::string::*;
use vstd::utf8::{encode_utf8, is_ascii_chars, is_ascii_chars_encode_utf8};

use crate::config::{opt_text, settings_from, EnvSettings, SectionView};

use crate::error::Error;
use crate::text::starts_with;

verus! {

/// The largest payload, in bytes, that the client sends inline.
pub const MAX_INLINE_BYTES: usize = 16 * 1024 * 1024;

/// The address of the service when none is given.
pub open spec fn default_server_url() -> Seq<char> {
    "https://api.modal.com:443"@
}

/// Whether an address names its scheme, `http` or `https`.
pub open spec fn has_scheme(url: Seq<char>) -> bool {
    "http://"@.is_prefix_of(url) || "https://"@.is_prefix_of(url)
}

/// An address with `https://` put in front where it names no scheme.
pub open spec fn with_scheme(url: Seq<char>) -> Seq<char> {
    if has_scheme(url) {
        url
    } else {
        "https://"@ + url
    }
}

/// The address the client connects to: the one given, else `MODAL_SERVER_URL`,
/// else the default; `https://` is put in front where it names no scheme.
pub fn resolve_server_url(server_url: Option<&str>, env_server_url: Option<&str>) -> (r: String)
    ensures
        r@ == with_scheme(
            match server_url {
                Some(s) => s@,
                None => match env_server_url {
                    Some(e) => e@,
                    None => default_server_url(),
                },
            },
        ),
{
    let server = match server_url {
        Some(s) => String::from_str(s),
        None => match env_server_url {
            Some(e) => String::from_str(e),
            None => String::from_str("https://api.modal.com:443"),
        },
    };
    if !starts_with(server.as_str(), "http://") && !starts_with(server.as_str(), "https://") {
        String::from_str("https://").concat(server.as_str())
    } else {
        server
    }
}

/// An address with a scheme put in front names a scheme, and putting one in
/// front again changes nothing.
pub proof fn lemma_with_scheme_idempotent(url: Seq<char>)
    ensures
        has_scheme(with_scheme(url)),
        with_scheme(with_scheme(url)) == with_scheme(url),
{
    if !has_scheme(url) {
        let p = "https://"@;
        assert((p + url).subrange(0, p.len() as int) =~= p);
        assert(p.is_prefix_of(p + url));
    }
}

/// The text of the error when a credential is missing.
pub open spec fn missing_token_text() -> Seq<char> {
    "Token missing. Could not authenticate client. Set MODAL_TOKEN_ID and MODAL_TOKEN_SECRET environment variables, or configure ~/.modal.toml"@
}

/// Whether a byte may stand in a metadata value: a visible character, a
/// space, a tab, or a byte of a character outside ASCII.
pub open spec fn metadata_byte_ok(b: u8) -> bool {
    (b >= 32 && b != 127) || b == 9
}

/// Whether a text may be the value of a metadata entry: every byte of its
/// UTF-8 encoding may.
pub open spec fn metadata_text_ok(text: Seq<char>) -> bool {
    forall|i: int| 0 <= i < encode_utf8(text).len() ==> metadata_byte_ok(#[trigger] encode_utf8(text)[i])
}

/// Checks a text with `tonic`'s `MetadataValue::<Ascii>::try_from`.
/// Trusted: claims that the conversion succeeds exactly when every byte of
/// the text is a tab or at least 32 and not 127, which is the check of
/// `http`'s `HeaderValue::from_str` that it calls.
#[verifier::external_body]
fn metadata_value_accepted(text: &str) -> (r: bool)
    ensures
        r == metadata_text_ok(text@),
{
    tonic::metadata::MetadataValue::<tonic::metadata::Ascii>::try_from(text).is_ok()
}

/// A message with the metadata entries that go with it, in order.
pub struct ModalRequest<T> {
    pub metadata: Vec<(String, String)>,
    pub message: T,
}

pub open spec fn pairs_view(v: Seq<(String, String)>) -> Seq<(Seq<char>, Seq<char>)> {
    v.map_values(|p: (String, String)| (p.0@, p.1@))
}

/// The entries that go with every request: the version of the client it
/// behaves like, its type, and the version of the library.
pub open spec fn fixed_metadata() -> Seq<(Seq<char>, Seq<char>)> {
    seq![
        ("x-modal-client-version"@, "1.0.0"@),
        ("x-modal-client-type"@, "7"@),
        ("x-modal-libmodal-version"@, "modal-go/0.1.0"@),
    ]
}

/// The entry with a value, where the value is there and may stand in metadata.
pub open spec fn optional_metadata(name: Seq<char>, value: Option<Seq<char>>) -> Seq<(Seq<char>, Seq<char>)> {
    match value {
        Some(v) => if metadata_text_ok(v) {
            seq![(name, v)]
        } else {
            seq![]
        },
        None => seq![],
    }
}

/// The metadata of a request: the fixed entries; the platform (operating
/// system and architecture) and the node (host name) of the caller; then the
/// token id and the token secret. Each of the last four is there where it is
/// known and may stand in metadata.
pub open spec fn request_metadata(
    token_id: Option<Seq<char>>,
    token_secret: Option<Seq<char>>,
    platform: Seq<char>,
    node: Option<Seq<char>>,
) -> Seq<(Seq<char>, Seq<char>)> {
    fixed_metadata() + optional_metadata("x-modal-platform"@, Some(platform)) + optional_metadata(
        "x-modal-node"@,
        node,
    ) + optional_metadata("x-modal-token-id"@, token_id) + optional_metadata("x-modal-token-secret"@, token_secret)
}

/// A text of visible ASCII characters, spaces and tabs.
pub open spec fn visible_ascii(text: Seq<char>) -> bool {
    forall|i: int| 0 <= i < text.len() ==> (' ' <= #[trigger] text[i] <= '~' || text[i] == '\t')
}

/// A text of visible ASCII characters, spaces and tabs may stand in metadata.
pub proof fn lemma_visible_ascii_fits_metadata(text: Seq<char>)
    requires
        visible_ascii(text),
    ensures
        metadata_text_ok(text),
{
    assert(is_ascii_chars(text));
    is_ascii_chars_encode_utf8(text);
    assert forall|i: int| 0 <= i < encode_utf8(text).len() implies metadata_byte_ok(
        #[trigger] encode_utf8(text)[i],
    ) by {
        assert(text[i] as u8 == encode_utf8(text)[i]);
    }
}

/// Looks up a deployed function by the name of its app and its tag.
pub struct FunctionGetRequest {
    pub app_name: String,
    pub object_tag: String,
    pub environment_name: String,
}

/// The text of the error for a function that is not there.
pub open spec fn function_missing_text(app_name: Seq<char>, object_tag: Seq<char>) -> Seq<char> {
    "Function '"@ + object_tag + "' not found in app '"@ + app_name + "'"@
}

/// The client's own state: its credentials and the largest inline payload.
#[derive(Clone)]
pub struct Client {
    max_inline: usize,
    token_id: Option<String>,
    token_secret: Option<String>,
}

pub struct ClientView {
    pub max_inline: nat,
    pub token_id: Option<Seq<char>>,
    pub token_secret: Option<Seq<char>>,
}

impl View for Client {
    type V = ClientView;

    closed spec fn view(&self) -> ClientView {
        ClientView {
            max_inline: self.max_inline as nat,
            token_id: match self.token_id {
                Some(t) => Some(t@),
                None => None,
            },
            token_secret: match self.token_secret {
                Some(t) => Some(t@),
                None => None,
            },
        }
    }
}

pub open spec fn opt_str(o: Option<&str>) -> Option<Seq<char>> {
    match o {
        Some(s) => Some(s@),
        None => None,
    }
}

pub open spec fn first_text(first: Option<Seq<char>>, second: Option<Seq<char>>) -> Option<Seq<char>> {
    match first {
        Some(t) => Some(t),
        None => second,
    }
}

fn owned_first(first: Option<&str>, second: Option<&str>) -> (r: Option<String>)
    ensures
        match r {
            Some(t) => first_text(opt_str(first), opt_str(second)) == Some(t@),
            None => first_text(opt_str(first), opt_str(second)) is None,
        },
{
    match first {
        Some(t) => Some(String::from_str(t)),
        None => match second {
            Some(t) => Some(String::from_str(t)),
            None => None,
        },
    }
}

fn push_pair(v: &mut Vec<(String, String)>, name: &str, value: &str)
    ensures
        pairs_view(final(v)@) == pairs_view(old(v)@).push((name@, value@)),
{
    let ghost before = pairs_view(v@);
    v.push((String::from_str(name), String::from_str(value)));
    assert(pairs_view(v@) =~= before.push((name@, value@)));
}

fn push_optional(v: &mut Vec<(String, String)>, name: &str, value: Option<&str>)
    ensures
        pairs_view(final(v)@) == pairs_view(old(v)@) + optional_metadata(name@, opt_str(value)),
{
    let ghost before = pairs_view(v@);
    if let Some(x) = value {
        if metadata_value_accepted(x) {
            push_pair(v, name, x);
        }
    }
    assert(pairs_view(v@) =~= before + optional_metadata(name@, opt_str(value)));
}

impl Client {
    /// The client for a pair of credentials: each is the one given, else the
    /// one of the environment. Both have to be there.
    pub fn with_credentials(
        token_id: Option<&str>,
        token_secret: Option<&str>,
        env_token_id: Option<&str>,
        env_token_secret: Option<&str>,
    ) -> (r: Result<Client, Error>)
        ensures
            ({
                let id = first_text(opt_str(token_id), opt_str(env_token_id));
                let secret = first_text(opt_str(token_secret), opt_str(env_token_secret));
                match r {
                    Ok(c) => id is Some && secret is Some && c@ == ClientView {
                        max_inline: MAX_INLINE_BYTES as nat,
                        token_id: id,
                        token_secret: secret,
                    },
                    Err(e) => (id is None || secret is None) && (e matches Error::Auth(m)
                        && m@ == missing_token_text()),
                }
            }),
    {
        let id = owned_first(token_id, env_token_id);
        let secret = owned_first(token_secret, env_token_secret);
        if id.is_none() || secret.is_none() {
            return Err(
                Error::Auth(
                    String::from_str(
                        "Token missing. Could not authenticate client. Set MODAL_TOKEN_ID and MODAL_TOKEN_SECRET environment variables, or configure ~/.modal.toml",
                    ),
                ),
            );
        }
        Ok(Client { max_inline: MAX_INLINE_BYTES, token_id: id, token_secret: secret })
    }

    /// The token id.
    pub fn token_id(&self) -> (r: Option<&str>)
        ensures
            opt_str(r) == self@.token_id,
    {
        match &self.token_id {
            Some(t) => Some(t.as_str()),
            None => None,
        }
    }

    /// The token secret.
    pub fn token_secret(&self) -> (r: Option<&str>)
        ensures
            opt_str(r) == self@.token_secret,
    {
        match &self.token_secret {
            Some(t) => Some(t.as_str()),
            None => None,
        }
    }

    /// The largest payload, in bytes, that the client sends inline.
    pub fn max_inline(&self) -> (r: usize)
        ensures
            r as nat == self@.max_inline,
    {
        self.max_inline
    }

    /// A request with the metadata that identifies and authenticates it:
    /// the fixed entries, the caller's platform and node, then the token id
    /// and the token secret, each of the last four where it is known and may
    /// stand in metadata.
    pub fn make_request<T>(&self, msg: T, platform: &str, node: Option<&str>) -> (r: ModalRequest<T>)
        ensures
            r.message == msg,
            pairs_view(r.metadata@) == request_metadata(
                self@.token_id,
                self@.token_secret,
                platform@,
                opt_str(node),
            ),
    {
        let mut metadata: Vec<(String, String)> = Vec::new();
        push_pair(&mut metadata, "x-modal-client-version", "1.0.0");
        push_pair(&mut metadata, "x-modal-client-type", "7");
        push_pair(&mut metadata, "x-modal-libmodal-version", "modal-go/0.1.0");
        assert(pairs_view(metadata@) =~= fixed_metadata());
        push_optional(&mut metadata, "x-modal-platform", Some(platform));
        push_optional(&mut metadata, "x-modal-node", node);
        let id = self.token_id();
        push_optional(&mut metadata, "x-modal-token-id", id);
        let secret = self.token_secret();
        push_optional(&mut metadata, "x-modal-token-secret", secret);
        ModalRequest { metadata, message: msg }
    }

    /// The request that looks up a function by app name and tag, in the
    /// default environment.
    pub fn function_get_request(app_name: &str, object_tag: &str) -> (r: FunctionGetRequest)
        ensures
            r.app_name@ == app_name@,
            r.object_tag@ == object_tag@,
            r.environment_name@.len() == 0,
    {
        FunctionGetRequest {
            app_name: String::from_str(app_name),
            object_tag: String::from_str(object_tag),
            environment_name: String::new(),
        }
    }

    /// The outcome of a function lookup from the id the service sent back: an
    /// empty id means that there is no such function.
    pub fn function_get_result(app_name: &str, object_tag: &str, function_id: String) -> (r: Result<String, Error>)
        ensures
            function_id@.len() == 0 ==> (r matches Err(Error::FunctionNotFound(m)) && m@
                == function_missing_text(app_name@, object_tag@)),
            function_id@.len() != 0 ==> (r matches Ok(id) && id@ == function_id@),
    {
        if function_id.as_str().is_empty() {
            let m = String::from_str("Function '").concat(object_tag).concat("' not found in app '").concat(
                app_name,
            ).concat("'");
            Err(Error::FunctionNotFound(m))
        } else {
            Ok(function_id)
        }
    }
}

/// The metadata of a request holds each credential exactly when it is set
/// and may stand in metadata; the fixed entries always come first.
pub proof fn lemma_credentials_in_metadata(
    token_id: Option<Seq<char>>,
    token_secret: Option<Seq<char>>,
    platform: Seq<char>,
    node: Option<Seq<char>>,
)
    ensures
        request_metadata(token_id, token_secret, platform, node).subrange(0, 3) == fixed_metadata(),
        ({
            let m = request_metadata(token_id, token_secret, platform, node);
            let k = m.len() - optional_metadata("x-modal-token-secret"@, token_secret).len()
                - optional_metadata("x-modal-token-id"@, token_id).len();
            &&& m.subrange(k, m.len() as int) == optional_metadata("x-modal-token-id"@, token_id)
                + optional_metadata("x-modal-token-secret"@, token_secret)
            &&& token_id matches Some(t) ==> (metadata_text_ok(t) ==> m[k] == ("x-modal-token-id"@, t))
        }),
{
    let m = request_metadata(token_id, token_secret, platform, node);
    let k = m.len() - optional_metadata("x-modal-token-secret"@, token_secret).len()
        - optional_metadata("x-modal-token-id"@, token_id).len();
    assert(m.subrange(0, 3) =~= fixed_metadata());
    assert(m.subrange(k, m.len() as int) =~= optional_metadata("x-modal-token-id"@, token_id)
        + optional_metadata("x-modal-token-secret"@, token_secret));
}

/// Credentials in the environment reach every request: where both tokens are
/// set in the environment and are made of visible ASCII characters, the
/// client that the settings give, with any tokens passed to it or not,
/// sends exactly those tokens, whatever the configuration file holds.
pub proof fn lemma_env_credentials_reach_requests(
    env: EnvSettings,
    doc: Option<Seq<SectionView>>,
    platform: Seq<char>,
    node: Option<Seq<char>>,
)
    requires
        env.token_id matches Some(t) && visible_ascii(t@),
        env.token_secret matches Some(t) && visible_ascii(t@),
    ensures
        ({
            let s = settings_from(env, doc);
            let id = first_text(s.token_id, opt_text(env.token_id));
            let secret = first_text(s.token_secret, opt_text(env.token_secret));
            &&& id == opt_text(env.token_id)
            &&& secret == opt_text(env.token_secret)
            &&& request_metadata(id, secret, platform, node).subrange(
                request_metadata(id, secret, platform, node).len() - 2,
                request_metadata(id, secret, platform, node).len() as int,
            ) == seq![
                ("x-modal-token-id"@, env.token_id.unwrap()@),
                ("x-modal-token-secret"@, env.token_secret.unwrap()@),
            ]
        }),
{
    lemma_visible_ascii_fits_metadata(env.token_id.unwrap()@);
    lemma_visible_ascii_fits_metadata(env.token_secret.unwrap()@);
    let s = settings_from(env, doc);
    let id = first_text(s.token_id, opt_text(env.token_id));
    let secret = first_text(s.token_secret, opt_text(env.token_secret));
    let m = request_metadata(id, secret, platform, node);
    assert(m.subrange(m.len() - 2, m.len() as int) =~= seq![
        ("x-modal-token-id"@, env.token_id.unwrap()@),
        ("x-modal-token-secret"@, env.token_secret.unwrap()@),
    ]);
}

/// A server address keeps all of its text: where it names its scheme it is
/// used as it is, else it follows the added `https://`.
pub proof fn lemma_with_scheme_keeps_address(url: Seq<char>)
    ensures
        url.is_suffix_of(with_scheme(url)),
        has_scheme(url) ==> with_scheme(url) == url,
        !has_scheme(url) ==> with_scheme(url).len() == url.len() + 8,
{
    reveal_strlit("https://");
    let w = with_scheme(url);
    assert(w.subrange(w.len() - url.len(), w.len() as int) =~= url);
}

/// A credential given to the client is used before the one of the
/// environment; the environment's is used only where none is given.
pub proof fn lemma_given_credential_first(given: Option<Seq<char>>, env: Option<Seq<char>>)
    ensures
        given matches Some(t) ==> first_text(given, env) == Some(t),
        given is None ==> first_text(given, env) == env,
{
}

/// With every value known and fit for metadata, a request carries, in this
/// order: the client version, the client type, the library version, the
/// platform, the node, the token id and the token secret.
pub proof fn lemma_full_metadata(id: Seq<char>, secret: Seq<char>, platform: Seq<char>, node: Seq<char>)
    requires
        metadata_text_ok(id),
        metadata_text_ok(secret),
        metadata_text_ok(platform),
        metadata_text_ok(node),
    ensures
        request_metadata(Some(id), Some(secret), platform, Some(node)) == seq![
            ("x-modal-client-version"@, "1.0.0"@),
            ("x-modal-client-type"@, "7"@),
            ("x-modal-libmodal-version"@, "modal-go/0.1.0"@),
            ("x-modal-platform"@, platform),
            ("x-modal-node"@, node),
            ("x-modal-token-id"@, id),
            ("x-modal-token-secret"@, secret),
        ],
{
    assert(request_metadata(Some(id), Some(secret), platform, Some(node)) =~= seq![
        ("x-modal-client-version"@, "1.0.0"@),
        ("x-modal-client-type"@, "7"@),
        ("x-modal-libmodal-version"@, "modal-go/0.1.0"@),
        ("x-modal-platform"@, platform),
        ("x-modal-node"@, node),
        ("x-modal-token-id"@, id),
        ("x-modal-token-secret"@, secret),
    ]);
}

/// Without credentials or node, a request carries the fixed entries and the
/// platform only; a value unfit for metadata is left out as if it were not set.
pub proof fn lemma_metadata_without_credentials(platform: Seq<char>, id: Seq<char>)
    requires
        metadata_text_ok(platform),
        !metadata_text_ok(id),
    ensures
        request_metadata(None, None, platform, None) == seq![
            ("x-modal-client-version"@, "1.0.0"@),
            ("x-modal-client-type"@, "7"@),
            ("x-modal-libmodal-version"@, "modal-go/0.1.0"@),
            ("x-modal-platform"@, platform),
        ],
        request_metadata(Some(id), Some(id), platform, Some(id)) == request_metadata(None, None, platform, None),
{
    assert(request_metadata(None, None, platform, None) =~= seq![
        ("x-modal-client-version"@, "1.0.0"@),
        ("x-modal-client-type"@, "7"@),
        ("x-modal-libmodal-version"@, "modal-go/0.1.0"@),
        ("x-modal-platform"@, platform),
    ]);
    assert(request_metadata(Some(id), Some(id), platform, Some(id)) =~= request_metadata(None, None, platform, None));
}

/// The error for a missing function names the tag looked up, right after
/// its opening words.
pub proof fn lemma_missing_function_text(app_name: Seq<char>, object_tag: Seq<char>)
    ensures
        object_tag.is_prefix_of(function_missing_text(app_name, object_tag).subrange(10, function_missing_text(app_name, object_tag).len() as int)),
{
    reveal_strlit("Function '");
    let t = function_missing_text(app_name, object_tag);
    assert(t.subrange(10, t.len() as int).subrange(0, object_tag.len() as int) =~= object_tag);
}

} // verus!
