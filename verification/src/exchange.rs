//! The token exchange: what is sent at each hop and what each reply means.

use vstd::prelude::*;
use vstd::string::StringExecFns;
use crate::errors::{AuthErrors, AuthErrorsView, Stage};
use crate::text::{decimal, joined, push_decimal, same_text};

verus! {

/// The scope that is asked of the identity provider by default.
pub const SCOPE: &'static str = "XboxLive.signin%20XboxLive.offline_access";

/// The audience of an XSTS token for the Bedrock realms service.
pub const BEDROCK_PARTY: &'static str = "https://pocket.realms.minecraft.net/";

/// The audience of an XSTS token for the Java edition's services.
pub const JAVA_PARTY: &'static str = "rp://api.minecraftservices.com/";

/// Where an authorization code or a device code is turned into a token.
pub const TOKEN_URL: &'static str = "https://login.microsoftonline.com/consumers/oauth2/v2.0/token";

/// Where an identity token is turned into an Xbox Live user token.
pub const XBL_URL: &'static str = "https://user.auth.xboxlive.com/user/authenticate";

/// Where an Xbox Live user token is turned into an XSTS token.
pub const XSTS_URL: &'static str = "https://xsts.auth.xboxlive.com/xsts/authorize";

/// Where an XSTS token is turned into the platform's bearer token.
pub const BEARER_URL: &'static str =
    "https://api.minecraftservices.com/authentication/login_with_xbox";

/// The seconds after which a request that got no reply counts as not sent.
pub const HTTP_TIMEOUT_SECS: u64 = 30;

/// A POST request as plain values: where it goes, what it carries, and its
/// headers by name and value.
#[derive(Debug)]
pub struct HttpRequest {
    pub url: String,
    pub body: String,
    pub headers: Vec<(String, String)>,
}

/// An `HttpRequest` as plain values.
pub struct HttpRequestView {
    pub url: Seq<char>,
    pub body: Seq<char>,
    pub headers: Seq<(Seq<char>, Seq<char>)>,
}

impl View for HttpRequest {
    type V = HttpRequestView;

    open spec fn view(&self) -> HttpRequestView {
        HttpRequestView {
            url: self.url@,
            body: self.body@,
            headers: self.headers.deep_view(),
        }
    }
}

/// The token of the identity provider.
#[derive(Debug)]
pub struct OuathToken {
    pub token_type: String,
    pub scope: String,
    pub expires_in: u16,
    pub ext_expires_in: u16,
    pub access_token: String,
    pub refresh_token: String,
}

/// An `OuathToken` as plain values.
pub struct AadToken {
    pub token_type: Seq<char>,
    pub scope: Seq<char>,
    pub expires_in: u16,
    pub ext_expires_in: u16,
    pub access_token: Seq<char>,
    pub refresh_token: Seq<char>,
}

impl View for OuathToken {
    type V = AadToken;

    open spec fn view(&self) -> AadToken {
        AadToken {
            token_type: self.token_type@,
            scope: self.scope@,
            expires_in: self.expires_in,
            ext_expires_in: self.ext_expires_in,
            access_token: self.access_token@,
            refresh_token: self.refresh_token@,
        }
    }
}

/// One Xbox user identity: the user hash.
#[derive(Debug)]
pub struct Xui {
    pub uhs: String,
}

impl View for Xui {
    type V = Seq<char>;

    open spec fn view(&self) -> Seq<char> {
        self.uhs@
    }
}

impl DeepView for Xui {
    type V = Seq<char>;

    open spec fn deep_view(&self) -> Seq<char> {
        self.uhs@
    }
}

/// The claims that come with an Xbox token.
#[derive(Debug)]
pub struct DisplayClaims {
    pub xui: Vec<Xui>,
}

impl View for DisplayClaims {
    type V = Seq<Seq<char>>;

    open spec fn view(&self) -> Seq<Seq<char>> {
        self.xui.deep_view()
    }
}

/// The Xbox Live user token.
#[derive(Debug)]
pub struct XblOutput {
    pub issue_instant: String,
    pub not_after: String,
    pub token: String,
    pub display_claims: DisplayClaims,
}

/// The XSTS token.
#[derive(Debug)]
pub struct XtsOutput {
    pub issue_instant: String,
    pub not_after: String,
    pub token: String,
    pub display_claims: DisplayClaims,
}

/// An Xbox token of either stage as plain values; `user_hashes` holds the
/// user hash of each identity in its claims.
pub struct XboxToken {
    pub issue_instant: Seq<char>,
    pub not_after: Seq<char>,
    pub token: Seq<char>,
    pub user_hashes: Seq<Seq<char>>,
}

impl View for XblOutput {
    type V = XboxToken;

    open spec fn view(&self) -> XboxToken {
        XboxToken {
            issue_instant: self.issue_instant@,
            not_after: self.not_after@,
            token: self.token@,
            user_hashes: self.display_claims@,
        }
    }
}

impl View for XtsOutput {
    type V = XboxToken;

    open spec fn view(&self) -> XboxToken {
        XboxToken {
            issue_instant: self.issue_instant@,
            not_after: self.not_after@,
            token: self.token@,
            user_hashes: self.display_claims@,
        }
    }
}

/// What the platform's login answers.
#[derive(Debug)]
pub struct MojangResponse {
    pub username: String,
    pub access_token: String,
    pub token_type: String,
    pub expires_in: i32,
}

/// A `MojangResponse` as plain values.
pub struct MojangResponseView {
    pub username: Seq<char>,
    pub access_token: Seq<char>,
    pub token_type: Seq<char>,
    pub expires_in: i32,
}

impl View for MojangResponse {
    type V = MojangResponseView;

    open spec fn view(&self) -> MojangResponseView {
        MojangResponseView {
            username: self.username@,
            access_token: self.access_token@,
            token_type: self.token_type@,
            expires_in: self.expires_in,
        }
    }
}

/// The credential that a flow ends with.
#[derive(Debug)]
pub struct CustomAuthData {
    /// The bearer token, for launching and for the platform's interfaces.
    pub access_token: Option<String>,
    /// The identifier that the platform gave; useful for launching.
    pub uuid: Option<String>,
    /// The seconds for which the token holds.
    pub expires_in: i32,
    /// The XSTS token, where the Bedrock realms service is the target.
    pub xts_token: Option<String>,
}

/// A `CustomAuthData` as plain values.
pub struct MinecraftAuthResult {
    pub access_token: Option<Seq<char>>,
    pub uuid: Option<Seq<char>>,
    pub expires_in: i32,
    pub xts_token: Option<Seq<char>>,
}

impl View for CustomAuthData {
    type V = MinecraftAuthResult;

    open spec fn view(&self) -> MinecraftAuthResult {
        MinecraftAuthResult {
            access_token: self.access_token.deep_view(),
            uuid: self.uuid.deep_view(),
            expires_in: self.expires_in,
            xts_token: self.xts_token.deep_view(),
        }
    }
}

/// What `serde_json` writes for a string: the JSON string literal, with its
/// quotes and escapes.
pub uninterp spec fn json_string(text: Seq<char>) -> Seq<char>;

/// Makes a `serde_json::Value::String` of `text` and has it written by its
/// `Display`, which gives compact JSON.
#[verifier::external_body]
fn json_quote(text: &str) -> (out: String)
    ensures
        out@ == json_string(text@),
{
    serde_json::Value::String(text.to_owned()).to_string()
}

/// The relying party that an XSTS token is asked for.
pub open spec fn party_of(bedrock_rel: bool) -> Seq<char> {
    if bedrock_rel {
        BEDROCK_PARTY@
    } else {
        JAVA_PARTY@
    }
}

/// The relying party that an XSTS token is asked for: a function of the
/// target flag alone.
pub fn relying_party(bedrock_rel: bool) -> (party: &'static str)
    ensures
        party@ == party_of(bedrock_rel),
{
    if bedrock_rel {
        BEDROCK_PARTY
    } else {
        JAVA_PARTY
    }
}

/// The two headers of a request that sends and accepts JSON.
pub open spec fn json_headers() -> Seq<(Seq<char>, Seq<char>)> {
    seq![("Content-Type"@, "application/json"@), ("Accept"@, "application/json"@)]
}

/// The header of a request that sends JSON.
pub open spec fn json_body_headers() -> Seq<(Seq<char>, Seq<char>)> {
    seq![("Content-Type"@, "application/json"@)]
}

/// The form that turns an authorization code into a token.
pub open spec fn token_body(
    code: Seq<char>,
    client_id: Seq<char>,
    port: u16,
    client_secret: Seq<char>,
    scope: Seq<char>,
) -> Seq<char> {
    "client_id="@ + client_id + "&scope="@ + scope + "&redirect_uri=http://localhost:"@ + decimal(
        port as nat,
    ) + "&grant_type=authorization_code&code="@ + code + "&client_secret="@ + client_secret
}

/// The request of the first hop.
pub open spec fn token_request_of(
    code: Seq<char>,
    client_id: Seq<char>,
    port: u16,
    client_secret: Seq<char>,
    scope: Seq<char>,
) -> HttpRequestView {
    HttpRequestView {
        url: TOKEN_URL@,
        body: token_body(code, client_id, port, client_secret, scope),
        headers: Seq::empty(),
    }
}

/// The ticket under which an identity token is shown to Xbox Live.
pub open spec fn rps_ticket(access_token: Seq<char>) -> Seq<char> {
    "d="@ + access_token
}

/// The request of the second hop.
pub open spec fn xbl_request_of(access_token: Seq<char>) -> HttpRequestView {
    HttpRequestView {
        url: XBL_URL@,
        body: "{\"Properties\":{\"AuthMethod\":\"RPS\",\"RpsTicket\":"@ + json_string(
            rps_ticket(access_token),
        )
            + ",\"SiteName\":\"user.auth.xboxlive.com\"},\"RelyingParty\":\"http://auth.xboxlive.com\",\"TokenType\":\"JWT\"}"@,
        headers: json_headers(),
    }
}

/// The request of the third hop.
pub open spec fn xsts_request_of(xbl_token: Seq<char>, bedrock_rel: bool) -> HttpRequestView {
    HttpRequestView {
        url: XSTS_URL@,
        body: "{\"Properties\":{\"SandboxId\":\"RETAIL\",\"UserTokens\":["@ + json_string(
            xbl_token,
        ) + "]},\"RelyingParty\":\""@ + party_of(bedrock_rel) + "\",\"TokenType\":\"JWT\"}"@,
        headers: json_headers(),
    }
}

/// The identity under which the platform is asked for its token.
pub open spec fn identity_token(userhash: Seq<char>, xsts_token: Seq<char>) -> Seq<char> {
    "XBL3.0 x="@ + userhash + ";"@ + xsts_token
}

/// The request of the fourth hop.
pub open spec fn bearer_request_of(userhash: Seq<char>, xsts_token: Seq<char>) -> HttpRequestView {
    HttpRequestView {
        url: BEARER_URL@,
        body: "{\"identityToken\":"@ + json_string(identity_token(userhash, xsts_token)) + "}"@,
        headers: json_body_headers(),
    }
}

/// The two headers of a request that sends and accepts JSON.
pub fn json_header_list() -> (headers: Vec<(String, String)>)
    ensures
        headers.deep_view() == json_headers(),
{
    let mut headers: Vec<(String, String)> = Vec::new();
    headers.push((String::from_str("Content-Type"), String::from_str("application/json")));
    headers.push((String::from_str("Accept"), String::from_str("application/json")));
    assert(headers.deep_view() =~= json_headers());
    headers
}

/// The request that turns an authorization code into the provider's token.
pub fn token_request(
    code: &str,
    client_id: &str,
    port: u16,
    client_secret: &str,
    scope: &str,
) -> (request: HttpRequest)
    ensures
        request@ == token_request_of(code@, client_id@, port, client_secret@, scope@),
{
    let mut body = joined("client_id=", client_id);
    body.append("&scope=");
    body.append(scope);
    body.append("&redirect_uri=http://localhost:");
    push_decimal(&mut body, port as u64);
    body.append("&grant_type=authorization_code&code=");
    body.append(code);
    body.append("&client_secret=");
    body.append(client_secret);
    let headers: Vec<(String, String)> = Vec::new();
    assert(headers.deep_view() =~= Seq::empty());
    HttpRequest { url: String::from_str(TOKEN_URL), body, headers }
}

/// The request that turns the provider's token into an Xbox Live user
/// token.
pub fn xbl_request(access_token: &str) -> (request: HttpRequest)
    ensures
        request@ == xbl_request_of(access_token@),
{
    let ticket = joined("d=", access_token);
    let quoted = json_quote(ticket.as_str());
    let mut body = joined("{\"Properties\":{\"AuthMethod\":\"RPS\",\"RpsTicket\":", quoted.as_str());
    body.append(
        ",\"SiteName\":\"user.auth.xboxlive.com\"},\"RelyingParty\":\"http://auth.xboxlive.com\",\"TokenType\":\"JWT\"}",
    );
    HttpRequest { url: String::from_str(XBL_URL), body, headers: json_header_list() }
}

/// The request that turns an Xbox Live user token into an XSTS token for
/// the relying party of the target.
pub fn xsts_request(xbl_token: &str, bedrock_rel: bool) -> (request: HttpRequest)
    ensures
        request@ == xsts_request_of(xbl_token@, bedrock_rel),
{
    let quoted = json_quote(xbl_token);
    let mut body = joined(
        "{\"Properties\":{\"SandboxId\":\"RETAIL\",\"UserTokens\":[",
        quoted.as_str(),
    );
    body.append("]},\"RelyingParty\":\"");
    body.append(relying_party(bedrock_rel));
    body.append("\",\"TokenType\":\"JWT\"}");
    HttpRequest { url: String::from_str(XSTS_URL), body, headers: json_header_list() }
}

/// The request that turns an XSTS token and the user hash into the
/// platform's bearer token.
pub fn bearer_request(userhash: &str, xsts_token: &str) -> (request: HttpRequest)
    ensures
        request@ == bearer_request_of(userhash@, xsts_token@),
{
    let mut identity = joined("XBL3.0 x=", userhash);
    identity.append(";");
    identity.append(xsts_token);
    let quoted = json_quote(identity.as_str());
    let mut body = joined("{\"identityToken\":", quoted.as_str());
    body.append("}");
    let mut headers: Vec<(String, String)> = Vec::new();
    headers.push((String::from_str("Content-Type"), String::from_str("application/json")));
    assert(headers.deep_view() =~= json_body_headers());
    HttpRequest { url: String::from_str(BEARER_URL), body, headers }
}

/// What came back for one request.
#[derive(Debug)]
pub enum Reply<T> {
    /// The request could not be sent; the transport's words, if any.
    Unsent(String),
    /// The reply's body could not be read; the transport's words, if any.
    Unread(String),
    /// The body is not what the hop answers with; the provider's words,
    /// where it gave any.
    Undecoded(String),
    /// The body, decoded.
    Decoded(T),
}

/// A `Reply` as plain values.
pub enum ReplyView<T> {
    Unsent(Seq<char>),
    Unread(Seq<char>),
    Undecoded(Seq<char>),
    Decoded(T),
}

impl<T: View> View for Reply<T> {
    type V = ReplyView<T::V>;

    open spec fn view(&self) -> ReplyView<T::V> {
        match self {
            Reply::Unsent(m) => ReplyView::Unsent(m@),
            Reply::Unread(m) => ReplyView::Unread(m@),
            Reply::Undecoded(m) => ReplyView::Undecoded(m@),
            Reply::Decoded(t) => ReplyView::Decoded(t@),
        }
    }
}

/// The way in which a hop failed.
#[derive(Debug, Clone, Copy, PartialEq, Eq, Structural)]
pub enum Fault {
    Unsent,
    Unread,
    Undecoded,
}

/// The words for a fault at a stage, before any detail.
pub open spec fn fault_text(stage: Stage, fault: Fault) -> Seq<char> {
    match fault {
        Fault::Unsent => "Failed to send request"@,
        Fault::Unread => match stage {
            Stage::Token | Stage::Xbl => "Failed to send request"@,
            _ => "Failed to read response text"@,
        },
        Fault::Undecoded => match stage {
            Stage::Token => "Failed to send request, Check your Client Secret."@,
            Stage::Xbl => "Failed to send request"@,
            _ => "Failed to parse response"@,
        },
    }
}

/// A text with a detail behind it, where there is one.
pub open spec fn with_detail(text: Seq<char>, detail: Seq<char>) -> Seq<char> {
    if detail.len() == 0 {
        text
    } else {
        text + ": "@ + detail
    }
}

/// The words of a provider that refuses: its description of the error,
/// and the error's code where it gave no description.
pub open spec fn refusal_text(error: Seq<char>, description: Seq<char>) -> Seq<char> {
    if description.len() == 0 {
        error
    } else {
        description
    }
}

/// The failure that a fault at a stage makes.
pub open spec fn failure_of(stage: Stage, fault: Fault, detail: Seq<char>) -> AuthErrorsView {
    AuthErrorsView::ResponseError(stage, with_detail(fault_text(stage, fault), detail))
}

/// What a reply settles to at a stage: the decoded body, or the failure of
/// that stage.
pub open spec fn settled<T>(stage: Stage, reply: ReplyView<T>) -> Result<T, AuthErrorsView> {
    match reply {
        ReplyView::Unsent(m) => Err(failure_of(stage, Fault::Unsent, m)),
        ReplyView::Unread(m) => Err(failure_of(stage, Fault::Unread, m)),
        ReplyView::Undecoded(m) => Err(failure_of(stage, Fault::Undecoded, m)),
        ReplyView::Decoded(t) => Ok(t),
    }
}

/// What the reply of the Xbox Live hop settles to: a token without any user
/// hash counts as a body that could not be decoded.
pub open spec fn xbl_settled(reply: ReplyView<XboxToken>) -> Result<XboxToken, AuthErrorsView> {
    match reply {
        ReplyView::Decoded(t) => if t.user_hashes.len() == 0 {
            Err(failure_of(Stage::Xbl, Fault::Undecoded, "no user hash"@))
        } else {
            Ok(t)
        },
        _ => settled(Stage::Xbl, reply),
    }
}

/// The credential for the Bedrock realms service: the XSTS token alone.
pub open spec fn bedrock_credential(xsts_token: Seq<char>) -> MinecraftAuthResult {
    MinecraftAuthResult { access_token: None, uuid: None, expires_in: 0, xts_token: Some(xsts_token) }
}

/// What the reply of the platform's login settles to: the credential where
/// the token is a bearer token, `InvalidTokenType` where it is another.
pub open spec fn bearer_settled(reply: ReplyView<MojangResponseView>) -> Result<
    MinecraftAuthResult,
    AuthErrorsView,
> {
    match settled(Stage::Bearer, reply) {
        Ok(r) => if r.token_type == "Bearer"@ {
            Ok(
                MinecraftAuthResult {
                    access_token: Some(r.access_token),
                    uuid: Some(r.username),
                    expires_in: r.expires_in,
                    xts_token: None,
                },
            )
        } else {
            Err(AuthErrorsView::InvalidTokenType)
        },
        Err(e) => Err(e),
    }
}

/// The words for a fault at a stage, before any detail.
pub fn fault_words(stage: Stage, fault: Fault) -> (text: &'static str)
    ensures
        text@ == fault_text(stage, fault),
{
    match fault {
        Fault::Unsent => "Failed to send request",
        Fault::Unread => match stage {
            Stage::Token | Stage::Xbl => "Failed to send request",
            _ => "Failed to read response text",
        },
        Fault::Undecoded => match stage {
            Stage::Token => "Failed to send request, Check your Client Secret.",
            Stage::Xbl => "Failed to send request",
            _ => "Failed to parse response",
        },
    }
}

/// The words of a provider that refuses.
pub fn refusal_words(error: &str, description: &str) -> (words: String)
    ensures
        words@ == refusal_text(error@, description@),
{
    if description.is_empty() {
        String::from_str(error)
    } else {
        String::from_str(description)
    }
}

/// The failure that a fault at a stage makes.
pub fn failure(stage: Stage, fault: Fault, detail: &str) -> (error: AuthErrors)
    ensures
        error@ == failure_of(stage, fault, detail@),
{
    let mut text = String::from_str(fault_words(stage, fault));
    if !detail.is_empty() {
        text.append(": ");
        text.append(detail);
    }
    AuthErrors::ResponseError(stage, text)
}

/// What a reply settles to at a stage.
pub fn settle<T: View>(stage: Stage, reply: Reply<T>) -> (result: Result<T, AuthErrors>)
    ensures
        match result {
            Ok(t) => settled(stage, reply@) == Ok::<T::V, AuthErrorsView>(t@),
            Err(e) => settled(stage, reply@) == Err::<T::V, AuthErrorsView>(e@),
        },
{
    match reply {
        Reply::Unsent(m) => Err(failure(stage, Fault::Unsent, m.as_str())),
        Reply::Unread(m) => Err(failure(stage, Fault::Unread, m.as_str())),
        Reply::Undecoded(m) => Err(failure(stage, Fault::Undecoded, m.as_str())),
        Reply::Decoded(t) => Ok(t),
    }
}

/// What the reply of the Xbox Live hop settles to.
pub fn xbl_settle(reply: Reply<XblOutput>) -> (result: Result<XblOutput, AuthErrors>)
    ensures
        match result {
            Ok(t) => xbl_settled(reply@) == Ok::<XboxToken, AuthErrorsView>(t@),
            Err(e) => xbl_settled(reply@) == Err::<XboxToken, AuthErrorsView>(e@),
        },
{
    match settle(Stage::Xbl, reply) {
        Ok(t) => {
            if t.display_claims.xui.len() == 0 {
                Err(failure(Stage::Xbl, Fault::Undecoded, "no user hash"))
            } else {
                Ok(t)
            }
        },
        Err(e) => Err(e),
    }
}

/// What the reply of the platform's login settles to.
pub fn bearer_settle(reply: Reply<MojangResponse>) -> (result: Result<CustomAuthData, AuthErrors>)
    ensures
        match result {
            Ok(c) => bearer_settled(reply@) == Ok::<MinecraftAuthResult, AuthErrorsView>(c@),
            Err(e) => bearer_settled(reply@) == Err::<MinecraftAuthResult, AuthErrorsView>(e@),
        },
{
    match settle(Stage::Bearer, reply) {
        Ok(r) => {
            if same_text(r.token_type.as_str(), "Bearer") {
                Ok(
                    CustomAuthData {
                        access_token: Some(r.access_token),
                        uuid: Some(r.username),
                        expires_in: r.expires_in,
                        xts_token: None,
                    },
                )
            } else {
                Err(AuthErrors::InvalidTokenType)
            }
        },
        Err(e) => Err(e),
    }
}

} // verus!
