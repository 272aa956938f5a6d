//! The texts that name a login, and the address that a login returns to.
use vstd::prelude::*;
use vstd::std_specs::convert::FromSpecImpl;
use vstd::string::StrSliceExecFns;
use vstd::utf8::{
    decode_utf8, encode_utf8, encode_utf8_decode_utf8, encode_utf8_valid_utf8, valid_utf8,
};

use crate::base64::{
    base64_decode, base64_decoded, base64_encoded, decodable, decoder_view, encodable,
};
use crate::error::{result_view, SsoError};
use crate::text::{joined, joined3, same_text, text_of_utf8};

verus! {

/// The code that names a login to the provider.
#[derive(Debug, Default, PartialEq, Eq, Hash)]
pub struct OIDCCode(String);

impl View for OIDCCode {
    type V = Seq<char>;

    closed spec fn view(&self) -> Seq<char> {
        self.0@
    }
}

impl OIDCCode {
    /// The text itself.
    pub fn as_str(&self) -> (text: &str)
        ensures
            text@ == self@,
    {
        self.0.as_str()
    }

    /// The text, taken out.
    pub fn into_inner(self) -> (text: String)
        ensures
            text@ == self@,
    {
        self.0
    }
}

impl Clone for OIDCCode {
    fn clone(&self) -> (copy: OIDCCode)
        ensures
            copy@ == self@,
    {
        OIDCCode(self.0.clone())
    }
}

impl FromSpecImpl<String> for OIDCCode {
    open spec fn obeys_from_spec() -> bool {
        true
    }

    closed spec fn from_spec(text: String) -> OIDCCode {
        OIDCCode(text)
    }
}

impl From<String> for OIDCCode {
    fn from(text: String) -> (made: OIDCCode)
        ensures
            made@ == text@,
    {
        OIDCCode(text)
    }
}

impl FromSpecImpl<&str> for OIDCCode {
    open spec fn obeys_from_spec() -> bool {
        false
    }

    open spec fn from_spec(text: &str) -> OIDCCode {
        arbitrary()
    }
}

impl From<&str> for OIDCCode {
    fn from(text: &str) -> (made: OIDCCode)
        ensures
            made@ == text@,
    {
        OIDCCode(text.to_owned())
    }
}

/// The challenge that a client starts a login with.
#[derive(Debug, Default, PartialEq, Eq, Hash)]
pub struct OIDCCodeChallenge(String);

impl View for OIDCCodeChallenge {
    type V = Seq<char>;

    closed spec fn view(&self) -> Seq<char> {
        self.0@
    }
}

impl OIDCCodeChallenge {
    /// The text itself.
    pub fn as_str(&self) -> (text: &str)
        ensures
            text@ == self@,
    {
        self.0.as_str()
    }

    /// The text, taken out.
    pub fn into_inner(self) -> (text: String)
        ensures
            text@ == self@,
    {
        self.0
    }
}

impl Clone for OIDCCodeChallenge {
    fn clone(&self) -> (copy: OIDCCodeChallenge)
        ensures
            copy@ == self@,
    {
        OIDCCodeChallenge(self.0.clone())
    }
}

impl FromSpecImpl<String> for OIDCCodeChallenge {
    open spec fn obeys_from_spec() -> bool {
        true
    }

    closed spec fn from_spec(text: String) -> OIDCCodeChallenge {
        OIDCCodeChallenge(text)
    }
}

impl From<String> for OIDCCodeChallenge {
    fn from(text: String) -> (made: OIDCCodeChallenge)
        ensures
            made@ == text@,
    {
        OIDCCodeChallenge(text)
    }
}

/// The secret by which a client answers its own challenge.
#[derive(Debug, Default, PartialEq, Eq, Hash)]
pub struct OIDCCodeVerifier(String);

impl View for OIDCCodeVerifier {
    type V = Seq<char>;

    closed spec fn view(&self) -> Seq<char> {
        self.0@
    }
}

impl OIDCCodeVerifier {
    /// The verifier, as a form hands it over.
    pub fn from_form(text: String) -> (verifier: OIDCCodeVerifier)
        ensures
            verifier@ == text@,
    {
        OIDCCodeVerifier(text)
    }

    /// The text itself.
    pub fn as_str(&self) -> (text: &str)
        ensures
            text@ == self@,
    {
        self.0.as_str()
    }

    /// The text, taken out.
    pub fn into_inner(self) -> (text: String)
        ensures
            text@ == self@,
    {
        self.0
    }
}

impl Clone for OIDCCodeVerifier {
    fn clone(&self) -> (copy: OIDCCodeVerifier)
        ensures
            copy@ == self@,
    {
        OIDCCodeVerifier(self.0.clone())
    }
}

/// The state that a client gives a login to know it by.
#[derive(Debug, Default, PartialEq, Eq, Hash)]
pub struct OIDCState(String);

impl View for OIDCState {
    type V = Seq<char>;

    closed spec fn view(&self) -> Seq<char> {
        self.0@
    }
}

impl OIDCState {
    /// The text itself.
    pub fn as_str(&self) -> (text: &str)
        ensures
            text@ == self@,
    {
        self.0.as_str()
    }

    /// The text, taken out.
    pub fn into_inner(self) -> (text: String)
        ensures
            text@ == self@,
    {
        self.0
    }
}

impl Clone for OIDCState {
    fn clone(&self) -> (copy: OIDCState)
        ensures
            copy@ == self@,
    {
        OIDCState(self.0.clone())
    }
}

impl FromSpecImpl<String> for OIDCState {
    open spec fn obeys_from_spec() -> bool {
        true
    }

    closed spec fn from_spec(text: String) -> OIDCState {
        OIDCState(text)
    }
}

impl From<String> for OIDCState {
    fn from(text: String) -> (made: OIDCState)
        ensures
            made@ == text@,
    {
        OIDCState(text)
    }
}

impl FromSpecImpl<&str> for OIDCState {
    open spec fn obeys_from_spec() -> bool {
        false
    }

    open spec fn from_spec(text: &str) -> OIDCState {
        arbitrary()
    }
}

impl From<&str> for OIDCState {
    fn from(text: &str) -> (made: OIDCState)
        ensures
            made@ == text@,
    {
        OIDCState(text.to_owned())
    }
}

/// Who a user is at the provider: the issuer and the subject.
#[derive(Debug, Default, PartialEq, Eq, Hash)]
pub struct OIDCIdentifier(String);

impl View for OIDCIdentifier {
    type V = Seq<char>;

    closed spec fn view(&self) -> Seq<char> {
        self.0@
    }
}

impl OIDCIdentifier {
    /// The text itself.
    pub fn as_str(&self) -> (text: &str)
        ensures
            text@ == self@,
    {
        self.0.as_str()
    }

    /// The text, taken out.
    pub fn into_inner(self) -> (text: String)
        ensures
            text@ == self@,
    {
        self.0
    }
}

impl Clone for OIDCIdentifier {
    fn clone(&self) -> (copy: OIDCIdentifier)
        ensures
            copy@ == self@,
    {
        OIDCIdentifier(self.0.clone())
    }
}

impl FromSpecImpl<String> for OIDCIdentifier {
    open spec fn obeys_from_spec() -> bool {
        true
    }

    closed spec fn from_spec(text: String) -> OIDCIdentifier {
        OIDCIdentifier(text)
    }
}

impl From<String> for OIDCIdentifier {
    fn from(text: String) -> (made: OIDCIdentifier)
        ensures
            made@ == text@,
    {
        OIDCIdentifier(text)
    }
}

impl FromSpecImpl<&str> for OIDCIdentifier {
    open spec fn obeys_from_spec() -> bool {
        false
    }

    open spec fn from_spec(text: &str) -> OIDCIdentifier {
        arbitrary()
    }
}

impl From<&str> for OIDCIdentifier {
    fn from(text: &str) -> (made: OIDCIdentifier)
        ensures
            made@ == text@,
    {
        OIDCIdentifier(text.to_owned())
    }
}

impl OIDCIdentifier {
    /// The identifier of the subject at the issuer.
    pub fn new(issuer: &str, subject: &str) -> (identifier: OIDCIdentifier)
        ensures
            identifier@ == identifier_of(issuer@, subject@),
    {
        OIDCIdentifier(joined3(issuer, "/", subject))
    }
}

/// How the subject of an issuer is written: the two, with a slash between.
pub open spec fn identifier_of(issuer: Seq<char>, subject: Seq<char>) -> Seq<char> {
    issuer + "/"@ + subject
}

/// What becomes of a state, given what the base64 decoder made of it.
pub open spec fn state_of(
    base64_state: Seq<char>,
    decoded: Result<Seq<u8>, Seq<char>>,
) -> Result<Seq<char>, SsoError<Seq<char>>> {
    match decoded {
        Ok(bytes) => if valid_utf8(bytes) {
            Ok(decode_utf8(bytes))
        } else {
            Err(SsoError::StateNotUtf8(base64_state))
        },
        Err(_) => Err(SsoError::StateNotBase64(base64_state)),
    }
}

/// The state that a client sent in base64. What a client has encoded is read back.
pub fn decode_state(base64_state: &str) -> (state: Result<OIDCState, SsoError>)
    requires
        decodable(encode_utf8(base64_state@)),
    ensures
        result_view(state) == state_of(
            base64_state@,
            base64_decoded(encode_utf8(base64_state@)),
        ),
        forall|sent: Seq<char>|
            encodable(encode_utf8(sent)) && base64_state@ == #[trigger] base64_encoded(
                encode_utf8(sent),
            ) ==> result_view(state) == Ok::<Seq<char>, SsoError<Seq<char>>>(sent),
{
    broadcast use {encode_utf8_valid_utf8, encode_utf8_decode_utf8};

    decoded_state(base64_state, base64_decode(base64_state.as_bytes()))
}

/// The state that a client sent in base64, given what the decoder made of it.
pub fn decoded_state(base64_state: &str, decoded: Result<Vec<u8>, String>) -> (state: Result<
    OIDCState,
    SsoError,
>)
    ensures
        result_view(state) == state_of(base64_state@, decoder_view(decoded)),
{
    match decoded {
        Ok(bytes) => match text_of_utf8(bytes) {
            Some(text) => Ok(OIDCState(text)),
            None => Err(SsoError::StateNotUtf8(base64_state.to_owned())),
        },
        Err(_) => Err(SsoError::StateNotBase64(base64_state.to_owned())),
    }
}

/// What the provider's address is asked for with: the login and where it returns to.
#[derive(Debug, PartialEq, Eq)]
pub struct AuthorizeRequest {
    pub state: OIDCState,
    pub client_challenge: OIDCCodeChallenge,
    pub redirect_uri: String,
    pub binding_hash: Option<String>,
}

/// The address is that of a port of four digits on the client's own machine.
pub open spec fn is_localhost_port(uri: Seq<char>) -> bool {
    &&& uri.len() == 21
    &&& uri.take(17) == "http://localhost:"@
    &&& forall|i: int| 17 <= i < 21 ==> '0' <= #[trigger] uri[i] && uri[i] <= '9'
}

/// The address that a login by the client returns to.
pub open spec fn redirect_of(
    client_id: Seq<char>,
    raw_redirect_uri: Seq<char>,
    domain: Seq<char>,
) -> Result<Seq<char>, SsoError<Seq<char>>> {
    if client_id == "web"@ || client_id == "browser"@ {
        Ok(domain + "/sso-connector.html"@)
    } else if client_id == "desktop"@ || client_id == "mobile"@ {
        Ok("bitwarden://sso-callback"@)
    } else if client_id == "cli"@ {
        if is_localhost_port(raw_redirect_uri) {
            Ok(raw_redirect_uri)
        } else {
            Err(SsoError::MissingPort)
        }
    } else {
        Err(SsoError::UnsupportedClient(client_id))
    }
}

/// Whether the address is that of a port of four digits on the client's own machine.
fn names_localhost_port(uri: &str) -> (named: bool)
    ensures
        named == is_localhost_port(uri@),
{
    if uri.unicode_len() != 21 {
        return false;
    }
    let start = uri.substring_char(0, 17);
    assert(start@ =~= uri@.take(17));
    if !same_text(start, "http://localhost:") {
        return false;
    }
    for i in 17usize..21usize
        invariant
            uri@.len() == 21,
            forall|j: int| 17 <= j < i ==> '0' <= #[trigger] uri@[j] && uri@[j] <= '9',
    {
        let c = uri.get_char(i);
        if c < '0' || '9' < c {
            return false;
        }
    }
    true
}

/// The address that a login by the client returns to: the page of the web vault, the
/// address that the desktop and mobile clients listen on, or the port that the command
/// line client opened.
pub fn redirect_uri(client_id: &str, raw_redirect_uri: &str, domain: &str) -> (uri: Result<
    String,
    SsoError,
>)
    ensures
        result_view(uri) == redirect_of(client_id@, raw_redirect_uri@, domain@),
{
    if same_text(client_id, "web") || same_text(client_id, "browser") {
        Ok(joined(domain, "/sso-connector.html"))
    } else if same_text(client_id, "desktop") || same_text(client_id, "mobile") {
        Ok("bitwarden://sso-callback".to_owned())
    } else if same_text(client_id, "cli") {
        if names_localhost_port(raw_redirect_uri) {
            let port = raw_redirect_uri.substring_char(17, 21);
            assert(raw_redirect_uri@ =~= raw_redirect_uri@.take(17) + port@);
            Ok(joined("http://localhost:", port))
        } else {
            Err(SsoError::MissingPort)
        }
    } else {
        Err(SsoError::UnsupportedClient(client_id.to_owned()))
    }
}

/// What to ask the provider's address for, for a login by the client.
pub fn authorize_url(
    state: OIDCState,
    client_challenge: OIDCCodeChallenge,
    client_id: &str,
    raw_redirect_uri: &str,
    binding_hash: Option<String>,
    domain: &str,
) -> (request: Result<AuthorizeRequest, SsoError>)
    ensures
        match redirect_of(client_id@, raw_redirect_uri@, domain@) {
            Ok(uri) => {
                &&& request is Ok
                &&& request->Ok_0.state == state
                &&& request->Ok_0.client_challenge == client_challenge
                &&& request->Ok_0.redirect_uri@ == uri
                &&& request->Ok_0.binding_hash == binding_hash
            },
            Err(error) => request is Err && request->Err_0@ == error,
        },
{
    match redirect_uri(client_id, raw_redirect_uri, domain) {
        Ok(redirect_uri) => Ok(
            AuthorizeRequest { state, client_challenge, redirect_uri, binding_hash },
        ),
        Err(error) => Err(error),
    }
}

/// A login never returns to an address of the caller's choosing: only to the web
/// vault's own page, to the clients' own scheme, or to a port of the client's machine.
pub proof fn law_redirects_stay_home(
    client_id: Seq<char>,
    raw_redirect_uri: Seq<char>,
    domain: Seq<char>,
)
    ensures
        redirect_of(client_id, raw_redirect_uri, domain) matches Ok(uri) ==> {
            ||| uri == domain + "/sso-connector.html"@
            ||| uri == "bitwarden://sso-callback"@
            ||| is_localhost_port(uri)
        },
{
}

/// The identifier of a subject begins with the issuer and ends with the subject, and one
/// slash stands between them.
pub proof fn law_identifier_holds_both(issuer: Seq<char>, subject: Seq<char>)
    ensures
        ({
            let identifier = identifier_of(issuer, subject);
            &&& identifier.len() == issuer.len() + 1 + subject.len()
            &&& identifier.take(issuer.len() as int) == issuer
            &&& identifier[issuer.len() as int] == '/'
            &&& identifier.skip(issuer.len() as int + 1) == subject
        }),
{
    reveal_strlit("/");
    let identifier = identifier_of(issuer, subject);
    assert(identifier.take(issuer.len() as int) =~= issuer);
    assert(identifier.skip(issuer.len() as int + 1) =~= subject);
}

/// A state is the text whose UTF-8 the base64 stands for, and there is one where there is
/// such a text; a failure tells apart what is not base64 and what is no text, and names
/// what was sent.
pub proof fn law_state_is_the_text_sent(
    base64_state: Seq<char>,
    decoded: Result<Seq<u8>, Seq<char>>,
    text: Seq<char>,
)
    ensures
        state_of(base64_state, decoded) == Ok::<Seq<char>, SsoError<Seq<char>>>(text) <==> decoded
            == Ok::<Seq<u8>, Seq<char>>(encode_utf8(text)),
        decoded is Err ==> state_of(base64_state, decoded) == Err::<Seq<char>, _>(
            SsoError::StateNotBase64(base64_state),
        ),
        decoded is Ok && state_of(base64_state, decoded) is Err ==> state_of(base64_state, decoded)
            == Err::<Seq<char>, _>(SsoError::StateNotUtf8(base64_state)),
        decoded is Ok && state_of(base64_state, decoded) is Err ==> !valid_utf8(decoded->Ok_0),
{
    broadcast use {
        encode_utf8_valid_utf8,
        encode_utf8_decode_utf8,
        vstd::utf8::decode_utf8_encode_utf8,
    };

}

/// Where a login returns to depends on the client: to the page of the web vault, to the
/// clients' own scheme, or for the command line client to the address that it gave, and to
/// that only if it is a port of four digits on the client's own machine. No other client is
/// known.
pub proof fn law_redirect_by_client(
    client_id: Seq<char>,
    raw_redirect_uri: Seq<char>,
    domain: Seq<char>,
)
    ensures
        client_id == "web"@ || client_id == "browser"@ ==> redirect_of(
            client_id,
            raw_redirect_uri,
            domain,
        ) == Ok::<_, SsoError<Seq<char>>>(domain + "/sso-connector.html"@),
        client_id == "desktop"@ || client_id == "mobile"@ ==> redirect_of(
            client_id,
            raw_redirect_uri,
            domain,
        ) == Ok::<_, SsoError<Seq<char>>>("bitwarden://sso-callback"@),
        client_id == "cli"@ ==> redirect_of(client_id, raw_redirect_uri, domain) == if (exists|
            port: Seq<char>,
        | #[trigger] is_port(port) && raw_redirect_uri == "http://localhost:"@ + port) {
            Ok::<_, SsoError<Seq<char>>>(raw_redirect_uri)
        } else {
            Err(SsoError::MissingPort)
        },
        client_id != "web"@ && client_id != "browser"@ && client_id != "desktop"@ && client_id
            != "mobile"@ && client_id != "cli"@ ==> redirect_of(
            client_id,
            raw_redirect_uri,
            domain,
        ) == Err::<Seq<char>, _>(SsoError::UnsupportedClient(client_id)),
{
    reveal_strlit("web");
    reveal_strlit("browser");
    reveal_strlit("desktop");
    reveal_strlit("mobile");
    reveal_strlit("cli");
    assert("web"@.len() == 3 && "browser"@.len() == 7 && "desktop"@.len() == 7 && "mobile"@.len()
        == 6 && "cli"@.len() == 3);
    assert("web"@[0] == 'w' && "cli"@[0] == 'c' && "browser"@[0] == 'b' && "desktop"@[0] == 'd');
    reveal_strlit("http://localhost:");
    let uri = raw_redirect_uri;
    if is_localhost_port(uri) {
        let port = uri.skip(17);
        assert(port[0] == uri[17] && port[1] == uri[18] && port[2] == uri[19] && port[3]
            == uri[20]);
        assert(is_port(port));
        assert(uri =~= "http://localhost:"@ + port);
    }
    assert forall|port: Seq<char>| #[trigger]
        is_port(port) && uri == "http://localhost:"@ + port implies is_localhost_port(uri) by {
        assert(uri.take(17) =~= "http://localhost:"@);
        assert(uri[17] == port[0] && uri[18] == port[1] && uri[19] == port[2] && uri[20]
            == port[3]);
    }
}

/// Four digits.
pub open spec fn is_port(port: Seq<char>) -> bool {
    &&& port.len() == 4
    &&& '0' <= port[0] <= '9'
    &&& '0' <= port[1] <= '9'
    &&& '0' <= port[2] <= '9'
    &&& '0' <= port[3] <= '9'
}

} // verus!
