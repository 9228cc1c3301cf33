use crate::auth::{
    _generate_get_signature, _generate_post_signature, _generate_query_str, hex_digit,
    params_view, query_of, signature_of,
};
use crate::decimal::{nat_text, u64_to_string};
use vstd::prelude::*;
use vstd::string::*;

verus! {

pub const API_BASE_URL: &'static str = "https://api.bybit.com";

pub const PLACE_ORDER_ENDPOINT: &'static str = "/v5/order/create";

pub const CANCEL_ORDERS_ENDPOINT: &'static str = "/v5/order/cancel-all";

/// Receive window sent with every signed request, in milliseconds.
pub const RECV_WINDOW: &'static str = "5000";

/// How one character stands inside a JSON string as serde_json writes it: quote and backslash
/// escaped, the short escapes for backspace, tab, line feed, form feed and carriage return,
/// `\u00XX` (lowercase hex) for the other control characters, every other character as it is.
pub open spec fn json_char_text(c: char) -> Seq<char> {
    if c == '"' {
        seq!['\\', '"']
    } else if c == '\\' {
        seq!['\\', '\\']
    } else if c == '\u{8}' {
        seq!['\\', 'b']
    } else if c == '\t' {
        seq!['\\', 't']
    } else if c == '\n' {
        seq!['\\', 'n']
    } else if c == '\u{c}' {
        seq!['\\', 'f']
    } else if c == '\r' {
        seq!['\\', 'r']
    } else if (c as u32) < 0x20 {
        seq!['\\', 'u', '0', '0', hex_digit(((c as u32) / 16) as u8), hex_digit(((c as u32) % 16) as u8)]
    } else {
        seq![c]
    }
}

pub open spec fn json_escaped(s: Seq<char>) -> Seq<char>
    decreases s.len(),
{
    if s.len() == 0 {
        Seq::empty()
    } else {
        json_escaped(s.drop_last()) + json_char_text(s.last())
    }
}

/// JSON text of a string value: quoted, with each character escaped as `json_char_text` says.
pub open spec fn json_string_of(s: Seq<char>) -> Seq<char> {
    seq!['"'] + json_escaped(s) + seq!['"']
}

/// Relies on serde_json::to_string on a `str` (`format_escaped_str` with the compact
/// formatter's `write_char_escape`): the quoted, escaped JSON string. Serialising a string
/// cannot fail.
#[verifier::external_body]
fn json_string(s: &str) -> (r: String)
    ensures
        r@ == json_string_of(s@),
{
    serde_json::to_string(s).unwrap_or_default()
}

/// Relies on chrono's `Utc::now().timestamp_millis()`: the wall-clock time in milliseconds.
#[verifier::external_body]
fn now_millis() -> (r: u64) {
    chrono::Utc::now().timestamp_millis() as u64
}

/// Body of a GTC limit order on a linear contract; the string values come already JSON-quoted.
pub open spec fn order_body(
    symbol_json: Seq<char>,
    side_is_buy: bool,
    quantity_json: Seq<char>,
    price_json: Seq<char>,
) -> Seq<char> {
    "{\"category\":\"linear\",\"symbol\":"@ + symbol_json + (if side_is_buy {
        ",\"side\":\"Buy\""@
    } else {
        ",\"side\":\"Sell\""@
    }) + ",\"positionIdx\":0,\"orderType\":\"Limit\",\"qty\":"@ + quantity_json + ",\"price\":"@
        + price_json + ",\"timeInForce\":\"GTC\"}"@
}

/// Body of a cancel-all on a linear contract; the symbol comes already JSON-quoted.
pub open spec fn cancel_body(symbol_json: Seq<char>) -> Seq<char> {
    "{\"category\":\"linear\",\"symbol\":"@ + symbol_json + "}"@
}

/// A request ready for the wire: the body (or query) is the exact text that was signed.
#[derive(Clone, Debug)]
pub struct SignedRequest {
    pub is_post: bool,
    pub path: String,
    pub query: String,
    pub body: String,
    pub api_key: String,
    pub timestamp: String,
    pub recv_window: String,
    pub signature: String,
}

/// API credentials of the venue.
#[derive(Clone, Debug)]
pub struct BybitClient {
    pub api_key: String,
    pub api_secret: String,
}

/// Builds the order body from JSON-quoted values.
pub fn order_body_from_json(
    symbol_json: &str,
    side_is_buy: bool,
    quantity_json: &str,
    price_json: &str,
) -> (r: String)
    ensures
        r@ == order_body(symbol_json@, side_is_buy, quantity_json@, price_json@),
{
    let mut body = String::from_str("{\"category\":\"linear\",\"symbol\":");
    body.append(symbol_json);
    if side_is_buy {
        body.append(",\"side\":\"Buy\"");
    } else {
        body.append(",\"side\":\"Sell\"");
    }
    body.append(",\"positionIdx\":0,\"orderType\":\"Limit\",\"qty\":");
    body.append(quantity_json);
    body.append(",\"price\":");
    body.append(price_json);
    body.append(",\"timeInForce\":\"GTC\"}");
    body
}

/// Builds the cancel-all body from a JSON-quoted symbol.
pub fn cancel_body_from_json(symbol_json: &str) -> (r: String)
    ensures
        r@ == cancel_body(symbol_json@),
{
    let mut body = String::from_str("{\"category\":\"linear\",\"symbol\":");
    body.append(symbol_json);
    body.append("}");
    body
}

impl SignedRequest {
    /// The authentication headers, in the order they are sent.
    pub fn headers(&self) -> (r: Vec<(String, String)>)
        ensures
            params_view(r@) == seq![
                ("X-BAPI-API-KEY"@, self.api_key@),
                ("X-BAPI-SIGN"@, self.signature@),
                ("X-BAPI-SIGN-TYPE"@, "2"@),
                ("X-BAPI-TIMESTAMP"@, self.timestamp@),
                ("X-BAPI-RECV-WINDOW"@, self.recv_window@),
                ("Content-Type"@, "application/json"@),
            ],
    {
        let mut r: Vec<(String, String)> = Vec::new();
        r.push((String::from_str("X-BAPI-API-KEY"), self.api_key.clone()));
        r.push((String::from_str("X-BAPI-SIGN"), self.signature.clone()));
        r.push((String::from_str("X-BAPI-SIGN-TYPE"), String::from_str("2")));
        r.push((String::from_str("X-BAPI-TIMESTAMP"), self.timestamp.clone()));
        r.push((String::from_str("X-BAPI-RECV-WINDOW"), self.recv_window.clone()));
        r.push((String::from_str("Content-Type"), String::from_str("application/json")));
        assert(params_view(r@) =~= seq![
            ("X-BAPI-API-KEY"@, self.api_key@),
            ("X-BAPI-SIGN"@, self.signature@),
            ("X-BAPI-SIGN-TYPE"@, "2"@),
            ("X-BAPI-TIMESTAMP"@, self.timestamp@),
            ("X-BAPI-RECV-WINDOW"@, self.recv_window@),
            ("Content-Type"@, "application/json"@),
        ]);
        r
    }
}

impl BybitClient {
    pub fn new(api_key: String, api_secret: String) -> (r: BybitClient)
        ensures
            r.api_key@ == api_key@,
            r.api_secret@ == api_secret@,
    {
        BybitClient { api_key, api_secret }
    }

    /// A signed POST of `body` to `endpoint` at `timestamp_ms`.
    pub fn signed_post(&self, endpoint: &str, body: String, timestamp_ms: u64) -> (r: SignedRequest)
        ensures
            r.is_post,
            r.path@ == endpoint@,
            r.query@ == Seq::<char>::empty(),
            r.body@ == body@,
            r.api_key@ == self.api_key@,
            r.timestamp@ == nat_text(timestamp_ms as nat),
            r.recv_window@ == RECV_WINDOW@,
            r.signature@ == signature_of(
                r.timestamp@,
                self.api_key@,
                RECV_WINDOW@,
                r.body@,
                self.api_secret@,
            ),
    {
        let timestamp = u64_to_string(timestamp_ms);
        let signature = _generate_post_signature(
            timestamp.as_str(),
            self.api_key.as_str(),
            RECV_WINDOW,
            body.as_str(),
            self.api_secret.as_str(),
        );
        SignedRequest {
            is_post: true,
            path: String::from_str(endpoint),
            query: String::new(),
            body,
            api_key: self.api_key.clone(),
            timestamp,
            recv_window: String::from_str(RECV_WINDOW),
            signature,
        }
    }

    /// A signed GET of `endpoint` with the ordered query `params` at `timestamp_ms`.
    pub fn signed_get(&self, endpoint: &str, params: &Vec<(String, String)>, timestamp_ms: u64) -> (r:
        SignedRequest)
        ensures
            !r.is_post,
            r.path@ == endpoint@,
            r.query@ == query_of(params_view(params@)),
            r.body@ == Seq::<char>::empty(),
            r.api_key@ == self.api_key@,
            r.timestamp@ == nat_text(timestamp_ms as nat),
            r.recv_window@ == RECV_WINDOW@,
            r.signature@ == signature_of(
                r.timestamp@,
                self.api_key@,
                RECV_WINDOW@,
                r.query@,
                self.api_secret@,
            ),
    {
        let timestamp = u64_to_string(timestamp_ms);
        let signature = _generate_get_signature(
            timestamp.as_str(),
            self.api_key.as_str(),
            RECV_WINDOW,
            params,
            self.api_secret.as_str(),
        );
        SignedRequest {
            is_post: false,
            path: String::from_str(endpoint),
            query: _generate_query_str(params),
            body: String::new(),
            api_key: self.api_key.clone(),
            timestamp,
            recv_window: String::from_str(RECV_WINDOW),
            signature,
        }
    }

    /// The signed request that places a GTC limit order, stamped `timestamp_ms`.
    pub fn place_order_at(
        &self,
        symbol: &str,
        price: &str,
        quantity: &str,
        side_is_buy: bool,
        timestamp_ms: u64,
    ) -> (r: SignedRequest)
        ensures
            r.is_post,
            r.path@ == PLACE_ORDER_ENDPOINT@,
            r.body@ == order_body(
                json_string_of(symbol@),
                side_is_buy,
                json_string_of(quantity@),
                json_string_of(price@),
            ),
            r.api_key@ == self.api_key@,
            r.timestamp@ == nat_text(timestamp_ms as nat),
            r.recv_window@ == RECV_WINDOW@,
            r.signature@ == signature_of(
                r.timestamp@,
                self.api_key@,
                RECV_WINDOW@,
                r.body@,
                self.api_secret@,
            ),
    {
        let symbol_json = json_string(symbol);
        let quantity_json = json_string(quantity);
        let price_json = json_string(price);
        let body = order_body_from_json(
            symbol_json.as_str(),
            side_is_buy,
            quantity_json.as_str(),
            price_json.as_str(),
        );
        self.signed_post(PLACE_ORDER_ENDPOINT, body, timestamp_ms)
    }

    /// The signed request that cancels every order on `symbol`, stamped `timestamp_ms`.
    pub fn cancel_all_orders_at(&self, symbol: &str, timestamp_ms: u64) -> (r: SignedRequest)
        ensures
            r.is_post,
            r.path@ == CANCEL_ORDERS_ENDPOINT@,
            r.body@ == cancel_body(json_string_of(symbol@)),
            r.api_key@ == self.api_key@,
            r.timestamp@ == nat_text(timestamp_ms as nat),
            r.recv_window@ == RECV_WINDOW@,
            r.signature@ == signature_of(
                r.timestamp@,
                self.api_key@,
                RECV_WINDOW@,
                r.body@,
                self.api_secret@,
            ),
    {
        let symbol_json = json_string(symbol);
        let body = cancel_body_from_json(symbol_json.as_str());
        self.signed_post(CANCEL_ORDERS_ENDPOINT, body, timestamp_ms)
    }

    /// `place_order_at`, stamped with the current time.
    pub fn place_order(&self, symbol: &str, price: &str, quantity: &str, side_is_buy: bool) -> (r:
        SignedRequest)
        ensures
            exists|t: u64|
                {
                    &&& #[trigger] nat_text(t as nat) == r.timestamp@
                    &&& r.body@ == order_body(
                        json_string_of(symbol@),
                        side_is_buy,
                        json_string_of(quantity@),
                        json_string_of(price@),
                    )
                    &&& r.signature@ == signature_of(
                        r.timestamp@,
                        self.api_key@,
                        RECV_WINDOW@,
                        r.body@,
                        self.api_secret@,
                    )
                },
            r.is_post,
            r.path@ == PLACE_ORDER_ENDPOINT@,
            r.api_key@ == self.api_key@,
            r.recv_window@ == RECV_WINDOW@,
    {
        let t = now_millis();
        self.place_order_at(symbol, price, quantity, side_is_buy, t)
    }

    /// `cancel_all_orders_at`, stamped with the current time.
    pub fn cancel_all_orders(&self, symbol: &str) -> (r: SignedRequest)
        ensures
            exists|t: u64| #[trigger] nat_text(t as nat) == r.timestamp@,
            r.body@ == cancel_body(json_string_of(symbol@)),
            r.signature@ == signature_of(
                r.timestamp@,
                self.api_key@,
                RECV_WINDOW@,
                r.body@,
                self.api_secret@,
            ),
            r.is_post,
            r.path@ == CANCEL_ORDERS_ENDPOINT@,
            r.api_key@ == self.api_key@,
            r.recv_window@ == RECV_WINDOW@,
    {
        let t = now_millis();
        self.cancel_all_orders_at(symbol, t)
    }
}

} // verus!
