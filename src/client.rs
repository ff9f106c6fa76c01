use vstd::prelude::*;

use crate::error::{BotClientBuilderError, BotClientBuilderResult};
use crate::model::challenge::DeclineReason;
use crate::model::game::chat::ChatRoom;
use crate::model::request::{
    chat_form_pairs, chat_message_form, decline_body_text, decline_request_body,
    form_encoding_of, move_query, move_query_text,
};
use crate::model::Seconds;
use crate::text::{decimal_text, i32_to_decimal};

verus! {

/// `base` without one trailing `/`, if it has one.
pub open spec fn without_trailing_slash(base: Seq<char>) -> Seq<char> {
    if base.len() > 0 && base.last() == '/' {
        base.drop_last()
    } else {
        base
    }
}

/// `path` without one leading `/`, if it has one.
pub open spec fn without_leading_slash(path: Seq<char>) -> Seq<char> {
    if path.len() > 0 && path[0] == '/' {
        path.drop_first()
    } else {
        path
    }
}

/// The URL of `path` under `base`: one separating `/` between the two.
pub open spec fn joined_url(base: Seq<char>, path: Seq<char>) -> Seq<char> {
    without_trailing_slash(base) + seq!['/'] + without_leading_slash(path)
}

/// Joins a base URL and a path, trimming one trailing `/` from the base and
/// making sure that the path starts with exactly one `/` of its own.
pub fn join_url(base_url: &str, path: &str) -> (url: String)
    ensures
        url@ == joined_url(base_url@, path@),
{
    let base_len = base_url.unicode_len();
    let path_len = path.unicode_len();
    let base_end: usize = if base_len > 0 && base_url.get_char(base_len - 1) == '/' {
        base_len - 1
    } else {
        base_len
    };
    let mut url = String::from_str(base_url.substring_char(0, base_end));
    if path_len == 0 || path.get_char(0) != '/' {
        url.append("/");
    }
    url.append(path);
    proof {
        reveal_strlit("/");
        assert(base_url@.subrange(0, base_end as int) == without_trailing_slash(base_url@));
        if path@.len() > 0 && path@[0] == '/' {
            assert(path@ == seq!['/'] + path@.drop_first());
        }
    }
    url
}


/// Joining puts exactly one `/` between base and path, whatever slashes the
/// two bring: the base loses its trailing `/` and the path its leading one.
/// Only one slash is trimmed on each side, so this holds for a base that does
/// not end in `//` and a path that does not start with `//`.
pub proof fn lemma_join_url_one_separator(base: Seq<char>, path: Seq<char>)
    requires
        !(base.len() >= 2 && base[base.len() - 1] == '/' && base[base.len() - 2] == '/'),
        !(path.len() >= 2 && path[0] == '/' && path[1] == '/'),
    ensures
        ({
            let head = without_trailing_slash(base);
            let tail = without_leading_slash(path);
            &&& joined_url(base, path) == head + seq!['/'] + tail
            &&& head.len() == 0 || head.last() != '/'
            &&& tail.len() == 0 || tail[0] != '/'
            &&& (head == base || base == head.push('/'))
            &&& (tail == path || path == seq!['/'] + tail)
        }),
{
    let head = without_trailing_slash(base);
    let tail = without_leading_slash(path);
    if base.len() > 0 && base.last() == '/' {
        assert(base == head.push('/'));
        if head.len() > 0 {
            assert(head.last() == base[base.len() - 2]);
        }
    }
    if path.len() > 0 && path[0] == '/' {
        assert(path == seq!['/'] + tail);
        if tail.len() > 0 {
            assert(tail[0] == path[1]);
        }
    }
}

/// The HTTP client.
#[verifier::external_type_specification]
#[verifier::external_body]
pub struct ExHttpClient(reqwest::Client);

/// Relies on `reqwest::Client`'s `Clone`, which shares the connection pool;
/// nothing is claimed of the copy.
pub assume_specification[ <reqwest::Client as Clone>::clone ](c: &reqwest::Client) -> reqwest::Client;

/// Whether a character may stand in an HTTP header value: any but the ASCII
/// control characters, where a tab is allowed.
pub open spec fn header_char_allowed(c: char) -> bool {
    (c as u32 >= 32 && c as u32 != 127) || c == '\t'
}

/// Whether a text may be an HTTP header value.
pub open spec fn valid_header_text(text: Seq<char>) -> bool {
    forall|i: int| 0 <= i < text.len() ==> #[trigger] header_char_allowed(text[i])
}

/// Relies on `HeaderValue::from_str` (the `http` crate under reqwest) and
/// `reqwest::ClientBuilder`. The text becomes the value of the `Authorization`
/// header of every request of the client, and is handed back with it.
/// `from_str` refuses a text with a byte below 32 other than a tab, or the
/// byte 127, and accepts every other; a character outside ASCII is encoded in
/// bytes of 128 and more, all accepted. Whether `build` then succeeds depends
/// on the set-up of reqwest's TLS backend: nothing is claimed of it.
#[verifier::external_body]
fn authorized_client(authorization: String) -> (r: Result<
    (reqwest::Client, String),
    BotClientBuilderError,
>)
    ensures
        r matches Err(BotClientBuilderError::InvalidToken(_)) <==> !valid_header_text(
            authorization@,
        ),
        r matches Err(e) ==> e is InvalidToken || e is ClientError,
        r matches Ok((_, text)) ==> text@ == authorization@,
{
    let value = match reqwest::header::HeaderValue::from_str(&authorization) {
        Ok(value) => value,
        Err(e) => return Err(BotClientBuilderError::InvalidToken(e)),
    };
    let mut headers = reqwest::header::HeaderMap::new();
    headers.insert(reqwest::header::AUTHORIZATION, value);
    match reqwest::ClientBuilder::new().default_headers(headers).build() {
        Ok(client) => Ok((client, authorization)),
        Err(e) => Err(BotClientBuilderError::ClientError(e)),
    }
}

/// The client of the API for a bot: an authenticated HTTP client and the base
/// URL that every path is joined to. Cloning it is cheap.
#[derive(Clone)]
pub struct BotClient {
    client: reqwest::Client,
    base_url: String,
    authorization: Ghost<Seq<char>>,
}

/// The URL used as the base URL unless [BotClientBuilder::with_base_url] gives
/// another: the public production instance of the server.
pub const DEFAULT_BASE_URL: &'static str = "https://lichess.org/api";

/// A builder for [BotClient]s.
#[derive(Clone, Debug)]
pub struct BotClientBuilder {
    token: Option<String>,
    base_url: String,
}

impl BotClientBuilder {
    /// The token given so far.
    pub closed spec fn spec_token(&self) -> Option<Seq<char>> {
        match self.token {
            Some(t) => Some(t@),
            None => None,
        }
    }

    /// The base URL that the client will have.
    pub closed spec fn spec_base_url(&self) -> Seq<char> {
        self.base_url@
    }

    /// Creates a builder without a token and with [DEFAULT_BASE_URL]. A token
    /// must be given with [BotClientBuilder::with_token] before
    /// [BotClientBuilder::build] can succeed.
    pub fn new() -> (r: BotClientBuilder)
        ensures
            r.spec_token() is None,
            r.spec_base_url() == DEFAULT_BASE_URL@,
    {
        BotClientBuilder { token: None, base_url: String::from_str(DEFAULT_BASE_URL) }
    }

    /// Sets the API token of the bot. The builder is returned for chaining.
    pub fn with_token(self, token: &str) -> (r: BotClientBuilder)
        ensures
            r.spec_token() == Some(token@),
            r.spec_base_url() == self.spec_base_url(),
    {
        BotClientBuilder { token: Some(String::from_str(token)), base_url: self.base_url }
    }

    /// Sets the base URL of the API. The builder is returned for chaining.
    pub fn with_base_url(self, base_url: &str) -> (r: BotClientBuilder)
        ensures
            r.spec_token() == self.spec_token(),
            r.spec_base_url() == base_url@,
    {
        BotClientBuilder { token: self.token, base_url: String::from_str(base_url) }
    }

    /// Builds the client. It fails without a token, with a token that cannot
    /// stand in an HTTP header, and when the HTTP client cannot be set up.
    pub fn build(self) -> (r: BotClientBuilderResult)
        ensures
            self.spec_token() is None ==> r matches Err(BotClientBuilderError::NoToken),
            self.spec_token() matches Some(t) && !valid_header_text(t) ==> r matches Err(
                BotClientBuilderError::InvalidToken(_),
            ),
            self.spec_token() matches Some(t) && valid_header_text(t) ==> match r {
                Ok(c) => c.spec_base_url() == self.spec_base_url() && c.spec_authorization()
                    == "Bearer "@ + self.spec_token()->0,
                Err(e) => e is ClientError,
            },
    {
        match self.token {
            None => Err(BotClientBuilderError::NoToken),
            Some(token) => {
                let mut authorization = String::from_str("Bearer ");
                authorization.append(token.as_str());
                proof {
                    reveal_strlit("Bearer ");
                    let a = authorization@;
                    assert(a == "Bearer "@ + token@);
                    assert forall|i: int| 0 <= i < 7 implies #[trigger] header_char_allowed(a[i]) by {
                        assert(a[i] == "Bearer "@[i]);
                    }
                    assert forall|i: int| 0 <= i < token@.len() implies header_char_allowed(
                        #[trigger] token@[i],
                    ) == header_char_allowed(a[i + 7]) by {
                        assert(a[i + 7] == token@[i]);
                    }
                    if !valid_header_text(token@) {
                        let i = choose|i: int| 0 <= i < token@.len() && !header_char_allowed(token@[i]);
                        assert(!header_char_allowed(a[i + 7]));
                    }
                }
                match authorized_client(authorization) {
                    Err(e) => Err(e),
                    Ok((client, text)) => Ok(
                        BotClient { client, base_url: self.base_url, authorization: Ghost(text@) },
                    ),
                }
            },
        }
    }
}

impl Default for BotClientBuilder {
    fn default() -> (r: BotClientBuilder)
        ensures
            r.spec_token() is None,
            r.spec_base_url() == DEFAULT_BASE_URL@,
    {
        BotClientBuilder::new()
    }
}

impl BotClient {
    /// The base URL that paths are joined to.
    pub closed spec fn spec_base_url(&self) -> Seq<char> {
        self.base_url@
    }

    /// The value of the `Authorization` header that every request carries.
    pub closed spec fn spec_authorization(&self) -> Seq<char> {
        self.authorization@
    }

    /// The base URL that paths are joined to.
    pub fn base_url(&self) -> (r: &str)
        ensures
            r@ == self.spec_base_url(),
    {
        self.base_url.as_str()
    }

    /// The authenticated HTTP client that sends the requests.
    pub fn http(&self) -> &reqwest::Client {
        &self.client
    }
}


/// The path of the bot's main event stream.
pub const EVENT_PATH: &'static str = "/stream/event";

/// The path of the event stream of one game.
pub open spec fn spec_game_event_path(game_id: Seq<char>) -> Seq<char> {
    "/bot/game/stream/"@ + game_id
}

/// The path of the event stream of one game.
pub fn game_event_path(game_id: &str) -> (r: String)
    ensures
        r@ == spec_game_event_path(game_id@),
{
    let mut path = String::from_str("/bot/game/stream/");
    path.append(game_id);
    path
}

#[derive(Clone, Copy, Debug, PartialEq, Eq, Hash, Structural)]
pub enum HttpMethod {
    Get,
    Post,
}

/// The body of a request, already encoded.
#[derive(Clone, Debug, PartialEq, Eq)]
pub enum RequestBody {
    Empty,
    /// A JSON document, sent as `application/json`.
    Json(String),
    /// A form, sent as `application/x-www-form-urlencoded`.
    Form(String),
}

/// A request to the API, ready to be sent.
#[derive(Clone, Debug, PartialEq, Eq)]
pub struct ApiRequest {
    pub method: HttpMethod,
    /// The full URL, query included.
    pub url: String,
    pub body: RequestBody,
}

/// One endpoint of the API, with what the call to it needs.
#[derive(Clone, Debug, PartialEq, Eq)]
pub enum Endpoint {
    /// Lists the pending challenges created by or targeted at the bot.
    PendingChallenges,
    /// Accepts a challenge; a game starts as a result.
    AcceptChallenge { challenge_id: String },
    /// Declines a challenge, with a reason shown to the challenger if given.
    DeclineChallenge { challenge_id: String, reason: Option<DeclineReason> },
    /// Plays a move; with `offer_draw`, also offers a draw or accepts the
    /// opponent's offer.
    MakeMove { game_id: String, mov: String, offer_draw: bool },
    /// Aborts a game in which the bot plays.
    AbortGame { game_id: String },
    /// Resigns a game in which the bot plays.
    ResignGame { game_id: String },
    /// Offers a draw, or accepts the opponent's offer.
    OfferOrAcceptDraw { game_id: String },
    /// Declines the opponent's draw offer.
    DeclineDraw { game_id: String },
    /// Gives the opponent more time.
    AddTime { game_id: String, seconds: Seconds },
    /// Fetches the chat history of a game.
    GameChat { game_id: String },
    /// Posts a chat message in a game, as the bot.
    SendChatMessage { game_id: String, room: ChatRoom, text: String },
    /// Fetches the public profile of a user.
    Profile { username: String },
    /// Fetches the bot's own profile.
    MyProfile,
    /// Fetches the bot's preferences.
    MyPreferences,
    /// Opens the bot's main event stream.
    EventStream,
    /// Opens the event stream of one game.
    GameStream { game_id: String },
}

/// The path of an endpoint.
pub open spec fn endpoint_path(e: Endpoint) -> Seq<char> {
    match e {
        Endpoint::PendingChallenges => "/challenge"@,
        Endpoint::AcceptChallenge { challenge_id } => "/challenge/"@ + challenge_id@ + "/accept"@,
        Endpoint::DeclineChallenge { challenge_id, .. } => "/challenge/"@ + challenge_id@
            + "/decline"@,
        Endpoint::MakeMove { game_id, mov, .. } => "/bot/game/"@ + game_id@ + "/move/"@ + mov@,
        Endpoint::AbortGame { game_id } => "/bot/game/"@ + game_id@ + "/abort"@,
        Endpoint::ResignGame { game_id } => "/bot/game/"@ + game_id@ + "/resign"@,
        Endpoint::OfferOrAcceptDraw { game_id } => "/bot/game/"@ + game_id@ + "/draw/yes"@,
        Endpoint::DeclineDraw { game_id } => "/bot/game/"@ + game_id@ + "/draw/no"@,
        Endpoint::AddTime { game_id, seconds } => "/round/"@ + game_id@ + "/add-time/"@
            + decimal_text(seconds as int),
        Endpoint::GameChat { game_id } => "/bot/game/"@ + game_id@ + "/chat"@,
        Endpoint::SendChatMessage { game_id, .. } => "/bot/game/"@ + game_id@ + "/chat"@,
        Endpoint::Profile { username } => "/user/"@ + username@,
        Endpoint::MyProfile => "/account"@,
        Endpoint::MyPreferences => "/account/preferences"@,
        Endpoint::EventStream => EVENT_PATH@,
        Endpoint::GameStream { game_id } => spec_game_event_path(game_id@),
    }
}

/// The method of an endpoint: the ones that read are `GET`, the others `POST`.
pub open spec fn endpoint_method(e: Endpoint) -> HttpMethod {
    match e {
        Endpoint::PendingChallenges | Endpoint::GameChat { .. } | Endpoint::Profile { .. }
        | Endpoint::MyProfile | Endpoint::MyPreferences | Endpoint::EventStream
        | Endpoint::GameStream { .. } => HttpMethod::Get,
        _ => HttpMethod::Post,
    }
}

/// Whether a request is the one for endpoint `e` under `base`: its method,
/// its URL (the joined path, and for a move the query), and its body.
pub open spec fn is_request_for(base: Seq<char>, e: Endpoint, req: ApiRequest) -> bool {
    &&& req.method == endpoint_method(e)
    &&& req.url@ == match e {
        Endpoint::MakeMove { offer_draw, .. } => joined_url(base, endpoint_path(e)) + "?"@
            + move_query_text(offer_draw),
        _ => joined_url(base, endpoint_path(e)),
    }
    &&& match e {
        Endpoint::DeclineChallenge { reason, .. } => req.body matches RequestBody::Json(b) && b@
            == decline_body_text(reason),
        Endpoint::SendChatMessage { room, text, .. } => req.body matches RequestBody::Form(b)
            && b@ == form_encoding_of(chat_form_pairs(room, text@)),
        _ => req.body is Empty,
    }
}

impl Endpoint {
    /// The path of this endpoint.
    pub fn path(&self) -> (r: String)
        ensures
            r@ == endpoint_path(*self),
    {
        match self {
            Endpoint::PendingChallenges => String::from_str("/challenge"),
            Endpoint::AcceptChallenge { challenge_id } => {
                let mut p = String::from_str("/challenge/");
                p.append(challenge_id.as_str());
                p.append("/accept");
                p
            },
            Endpoint::DeclineChallenge { challenge_id, .. } => {
                let mut p = String::from_str("/challenge/");
                p.append(challenge_id.as_str());
                p.append("/decline");
                p
            },
            Endpoint::MakeMove { game_id, mov, .. } => {
                let mut p = String::from_str("/bot/game/");
                p.append(game_id.as_str());
                p.append("/move/");
                p.append(mov.as_str());
                p
            },
            Endpoint::AbortGame { game_id } => game_action_path(game_id.as_str(), "/abort"),
            Endpoint::ResignGame { game_id } => game_action_path(game_id.as_str(), "/resign"),
            Endpoint::OfferOrAcceptDraw { game_id } => game_action_path(
                game_id.as_str(),
                "/draw/yes",
            ),
            Endpoint::DeclineDraw { game_id } => game_action_path(game_id.as_str(), "/draw/no"),
            Endpoint::AddTime { game_id, seconds } => {
                let mut p = String::from_str("/round/");
                p.append(game_id.as_str());
                p.append("/add-time/");
                let digits = i32_to_decimal(*seconds);
                p.append(digits.as_str());
                p
            },
            Endpoint::GameChat { game_id } => game_action_path(game_id.as_str(), "/chat"),
            Endpoint::SendChatMessage { game_id, .. } => game_action_path(
                game_id.as_str(),
                "/chat",
            ),
            Endpoint::Profile { username } => {
                let mut p = String::from_str("/user/");
                p.append(username.as_str());
                p
            },
            Endpoint::MyProfile => String::from_str("/account"),
            Endpoint::MyPreferences => String::from_str("/account/preferences"),
            Endpoint::EventStream => String::from_str(EVENT_PATH),
            Endpoint::GameStream { game_id } => game_event_path(game_id.as_str()),
        }
    }

    /// The method of this endpoint.
    pub fn method(&self) -> (r: HttpMethod)
        ensures
            r == endpoint_method(*self),
    {
        match self {
            Endpoint::PendingChallenges | Endpoint::GameChat { .. } | Endpoint::Profile { .. }
            | Endpoint::MyProfile | Endpoint::MyPreferences | Endpoint::EventStream
            | Endpoint::GameStream { .. } => HttpMethod::Get,
            _ => HttpMethod::Post,
        }
    }
}

/// `/bot/game/{game_id}` followed by `action`.
fn game_action_path(game_id: &str, action: &str) -> (r: String)
    ensures
        r@ == "/bot/game/"@ + game_id@ + action@,
{
    let mut p = String::from_str("/bot/game/");
    p.append(game_id);
    p.append(action);
    p
}

/// Whether an HTTP status reports success: the 2xx range.
pub open spec fn spec_is_success_status(status: u16) -> bool {
    200 <= status && status <= 299
}

/// Whether an HTTP status reports success. A response with any other status
/// becomes an API error of [crate::error::LibotRequestError].
pub fn is_success_status(status: u16) -> (r: bool)
    ensures
        r == spec_is_success_status(status),
{
    200 <= status && status <= 299
}

impl BotClient {
    /// The request that calls `endpoint`.
    pub fn request(&self, endpoint: &Endpoint) -> (r: ApiRequest)
        ensures
            is_request_for(self.spec_base_url(), *endpoint, r),
    {
        let path = endpoint.path();
        let mut url = join_url(self.base_url.as_str(), path.as_str());
        let body = match endpoint {
            Endpoint::DeclineChallenge { reason, .. } => RequestBody::Json(
                decline_request_body(*reason),
            ),
            Endpoint::SendChatMessage { room, text, .. } => RequestBody::Form(
                chat_message_form(*room, text.as_str()),
            ),
            Endpoint::MakeMove { offer_draw, .. } => {
                let query = move_query(*offer_draw);
                url.append("?");
                url.append(query.as_str());
                RequestBody::Empty
            },
            _ => RequestBody::Empty,
        };
        ApiRequest { method: endpoint.method(), url, body }
    }
}

} // verus!
