//! Client-side pieces of the Binance USDⓈ-M futures API: the client's
//! credentials, request texts (query strings and URLs) and their signatures.
//! Sending the requests is left to the caller.
use vstd::prelude::*;
use vstd::utf8::encode_utf8;
use std::time::SystemTime;
use crate::clock::{millis_or_none, unix_epoch};
use crate::exchange::mac::{hmac_sha256, hmac_sha256_hex};
use crate::exchange::types::OrderRequest;
use crate::text::{decimal, hex_lower, push_decimal};

verus! {

/// Declares `reqwest::Client`, the HTTP client the requests go through; its
/// contents stay opaque.
#[verifier::external_type_specification]
#[verifier::external_body]
pub struct ExClient(reqwest::Client);

/// Declares `reqwest::ClientBuilder`, the configuration a client is built
/// from; its contents stay opaque.
#[verifier::external_type_specification]
#[verifier::external_body]
pub struct ExClientBuilder(reqwest::ClientBuilder);

/// Declares `reqwest::Error`, the error of building a client.
#[verifier::external_type_specification]
#[verifier::external_body]
pub struct ExReqwestError(reqwest::Error);

/// `reqwest::Client::builder`: a builder with the default configuration.
/// Nothing is claimed of it.
pub assume_specification[ reqwest::Client::builder ]() -> reqwest::ClientBuilder;

/// `reqwest::ClientBuilder::build`: `Err` when no TLS backend can be set up
/// or the resolver cannot read the system configuration (as the crate
/// documents); nothing is claimed of which outcome comes.
pub assume_specification[ reqwest::ClientBuilder::build ](builder: reqwest::ClientBuilder) -> Result<reqwest::Client, reqwest::Error>;

/// Why a client could not be made.
#[derive(Debug)]
pub enum ClientError {
    /// The HTTP client could not be set up (TLS backend or resolver).
    HttpSetup(reqwest::Error),
}

/// The futures testnet's REST endpoint.
pub open spec fn testnet_url() -> Seq<char> {
    "https://testnet.binancefuture.com"@
}

/// A Binance futures client: API key, secret and endpoint.
pub struct BinanceClient {
    client: reqwest::Client,
    api_key: String,
    secret: String,
    base_url: String,
}

impl BinanceClient {
    /// The API key the client was made with.
    pub closed spec fn spec_api_key(&self) -> Seq<char> {
        self.api_key@
    }

    /// The secret the client signs with.
    pub closed spec fn spec_secret(&self) -> Seq<char> {
        self.secret@
    }

    /// The endpoint the client talks to.
    pub closed spec fn spec_base_url(&self) -> Seq<char> {
        self.base_url@
    }

    /// The HTTP client the client holds.
    pub closed spec fn spec_http(&self) -> reqwest::Client {
        self.client
    }

    /// A client for the futures testnet with the given credentials, or the
    /// error that kept the HTTP client from being set up.
    pub fn new_testnet(api_key: String, secret: String) -> (r: Result<BinanceClient, ClientError>)
        ensures
            r matches Ok(c) ==> {
                &&& c.spec_api_key() == api_key@
                &&& c.spec_secret() == secret@
                &&& c.spec_base_url() == testnet_url()
            },
    {
        match reqwest::Client::builder().build() {
            Ok(client) => Ok(BinanceClient {
                client,
                api_key,
                secret,
                base_url: String::from_str("https://testnet.binancefuture.com"),
            }),
            Err(e) => Err(ClientError::HttpSetup(e)),
        }
    }

    /// The HTTP client the requests go through.
    pub fn http(&self) -> (c: &reqwest::Client)
        ensures
            *c == self.spec_http(),
    {
        &self.client
    }

    /// The API key, sent in the `X-MBX-APIKEY` header.
    pub fn api_key(&self) -> (k: &str)
        ensures
            k@ == self.spec_api_key(),
    {
        self.api_key.as_str()
    }

    /// The endpoint the request paths are appended to.
    pub fn base_url(&self) -> (u: &str)
        ensures
            u@ == self.spec_base_url(),
    {
        self.base_url.as_str()
    }

    /// Milliseconds since the Unix epoch by the system clock, truncated to
    /// 64 bits, or `None` when the clock reads before the epoch. Nothing is
    /// claimed of the reading.
    pub fn timestamp(&self) -> Option<u64> {
        millis_or_none(SystemTime::now().duration_since(unix_epoch()))
    }

    /// Lowercase hex of the HMAC-SHA256 of the query's UTF-8 bytes under
    /// the secret's UTF-8 bytes.
    pub fn sign(&self, query: &str) -> (sig: String)
        ensures
            sig@ == hex_lower(hmac_sha256(encode_utf8(self.spec_secret()), encode_utf8(query@))),
            sig@.len() == 64,
    {
        let sig = hmac_sha256_hex(self.secret.as_str().as_bytes(), query.as_bytes());
        proof {
            crate::text::lemma_hex_lower_shape(
                hmac_sha256(encode_utf8(self.spec_secret()), encode_utf8(query@)),
            );
        }
        sig
    }

    /// URL of the public klines endpoint.
    pub fn klines_url(&self, symbol: &str, interval: &str, limit: u32) -> (url: String)
        ensures
            url@ == klines_url_text(self.spec_base_url(), symbol@, interval@, limit),
    {
        let mut url = String::from_str(self.base_url.as_str());
        url.append("/fapi/v1/klines?symbol=");
        url.append(symbol);
        url.append("&interval=");
        url.append(interval);
        url.append("&limit=");
        push_decimal(&mut url, limit as u64);
        url
    }

    /// URL of the public mark-price ticker.
    pub fn ticker_url(&self, symbol: &str) -> (url: String)
        ensures
            url@ == self.spec_base_url() + "/fapi/v1/ticker/price?symbol="@ + symbol@,
    {
        let mut url = String::from_str(self.base_url.as_str());
        url.append("/fapi/v1/ticker/price?symbol=");
        url.append(symbol);
        url
    }

    /// The full URL of a signed request: endpoint, path, the query with its
    /// timestamp, and the signature of that query as the last parameter.
    pub fn signed_url(&self, path: &str, params: &str, ts: u64) -> (url: String)
        ensures
            url@ == signed_url_text(
                self.spec_base_url(),
                path@,
                signed_query_text(params@, ts),
                hex_lower(hmac_sha256(encode_utf8(self.spec_secret()), encode_utf8(signed_query_text(params@, ts)))),
            ),
    {
        let query = signed_query(params, ts);
        let signature = self.sign(query.as_str());
        let mut url = String::from_str(self.base_url.as_str());
        url.append(path);
        url.append("?");
        url.append(query.as_str());
        url.append("&signature=");
        url.append(signature.as_str());
        url
    }
}

/// The error a reply carries: a reply with a `code` field is an error,
/// reported with its code and message.
pub open spec fn reply_error_text(code: Option<Seq<char>>, msg: Seq<char>) -> Option<Seq<char>> {
    match code {
        Some(c) => Some("Binance error "@ + c + ": "@ + msg),
        None => None,
    }
}

/// Decides whether a reply is an error, given the text of its `code` field
/// if it has one and of its `msg` field.
pub fn reply_error(code: Option<String>, msg: String) -> (e: Option<String>)
    ensures
        text_of(e) == reply_error_text(text_of(code), msg@),
{
    match code {
        Some(c) => {
            let mut e = String::from_str("Binance error ");
            e.append(c.as_str());
            e.append(": ");
            e.append(msg.as_str());
            Some(e)
        },
        None => None,
    }
}

/// The klines URL text.
pub open spec fn klines_url_text(base: Seq<char>, symbol: Seq<char>, interval: Seq<char>, limit: u32) -> Seq<char> {
    base + "/fapi/v1/klines?symbol="@ + symbol + "&interval="@ + interval + "&limit="@ + decimal(limit as nat)
}

/// The query of a signed request: the parameters, then the timestamp.
pub open spec fn signed_query_text(params: Seq<char>, ts: u64) -> Seq<char> {
    if params.len() == 0 {
        "timestamp="@ + decimal(ts as nat)
    } else {
        params + "&timestamp="@ + decimal(ts as nat)
    }
}

/// The URL of a signed request.
pub open spec fn signed_url_text(base: Seq<char>, path: Seq<char>, query: Seq<char>, signature: Seq<char>) -> Seq<char> {
    base + path + "?"@ + query + "&signature="@ + signature
}

/// Appends the request's timestamp to its parameters.
pub fn signed_query(params: &str, ts: u64) -> (q: String)
    ensures
        q@ == signed_query_text(params@, ts),
{
    let mut q = String::new();
    if params.is_empty() {
        q.append("timestamp=");
    } else {
        q.append(params);
        q.append("&timestamp=");
    }
    push_decimal(&mut q, ts);
    q
}

/// Parameters of a leverage change.
pub fn leverage_params(symbol: &str, leverage: u32) -> (p: String)
    ensures
        p@ == "symbol="@ + symbol@ + "&leverage="@ + decimal(leverage as nat),
{
    let mut p = String::from_str("symbol=");
    p.append(symbol);
    p.append("&leverage=");
    push_decimal(&mut p, leverage as u64);
    p
}

/// Parameters that name one order of a symbol.
pub fn order_ref_params(symbol: &str, order_id: u64) -> (p: String)
    ensures
        p@ == "symbol="@ + symbol@ + "&orderId="@ + decimal(order_id as nat),
{
    let mut p = String::from_str("symbol=");
    p.append(symbol);
    p.append("&orderId=");
    push_decimal(&mut p, order_id);
    p
}

/// Parameters that name a symbol.
pub fn symbol_params(symbol: &str) -> (p: String)
    ensures
        p@ == "symbol="@ + symbol@,
{
    let mut p = String::from_str("symbol=");
    p.append(symbol);
    p
}

/// `&name=value` when a value is given, nothing otherwise.
pub open spec fn optional_param(name: Seq<char>, value: Option<Seq<char>>) -> Seq<char> {
    match value {
        Some(v) => "&"@ + name + "="@ + v,
        None => Seq::empty(),
    }
}

/// The characters of an optional text parameter.
pub open spec fn text_of(value: Option<String>) -> Option<Seq<char>> {
    match value {
        Some(v) => Some(v@),
        None => None,
    }
}

/// The wire text of an optional flag: `true` or `false`.
pub open spec fn flag_text(value: Option<bool>) -> Option<Seq<char>> {
    match value {
        Some(b) => Some(if b { "true"@ } else { "false"@ }),
        None => None,
    }
}

/// The parameters of a new order, joined by `&`: symbol, side, type and
/// quantity, then price, stop price, time in force and reduce-only where
/// given.
pub open spec fn order_params_text(o: OrderRequest) -> Seq<char> {
    "symbol="@ + o.symbol@ + "&side="@ + o.side@ + "&type="@ + o.order_type@ + "&quantity="@ + o.quantity@
        + optional_param("price"@, text_of(o.price))
        + optional_param("stopPrice"@, text_of(o.stop_price))
        + optional_param("timeInForce"@, text_of(o.time_in_force))
        + optional_param("reduceOnly"@, flag_text(o.reduce_only))
}

fn push_optional(out: &mut String, name: &str, value: &Option<String>)
    ensures
        final(out)@ == old(out)@ + optional_param(name@, text_of(*value)),
{
    match value {
        Some(v) => {
            out.append("&");
            out.append(name);
            out.append("=");
            out.append(v.as_str());
        },
        None => {
            assert(old(out)@ + Seq::<char>::empty() =~= old(out)@);
        },
    }
}

/// The parameters of a new order.
pub fn order_params(order: &OrderRequest) -> (p: String)
    ensures
        p@ == order_params_text(*order),
{
    let mut p = String::from_str("symbol=");
    p.append(order.symbol.as_str());
    p.append("&side=");
    p.append(order.side.as_str());
    p.append("&type=");
    p.append(order.order_type.as_str());
    p.append("&quantity=");
    p.append(order.quantity.as_str());
    push_optional(&mut p, "price", &order.price);
    push_optional(&mut p, "stopPrice", &order.stop_price);
    push_optional(&mut p, "timeInForce", &order.time_in_force);
    let ghost before = p@;
    match order.reduce_only {
        Some(ro) => {
            proof {
                reveal_strlit("&reduceOnly=");
                reveal_strlit("&");
                reveal_strlit("reduceOnly");
                reveal_strlit("=");
                assert("&reduceOnly="@ =~= "&"@ + "reduceOnly"@ + "="@);
            }
            p.append("&reduceOnly=");
            if ro {
                p.append("true");
            } else {
                p.append("false");
            }
            assert(p@ =~= before + optional_param("reduceOnly"@, flag_text(order.reduce_only)));
        },
        None => {
            assert(p@ + Seq::<char>::empty() =~= p@);
        },
    }
    p
}

/// The signed query ends with the timestamp parameter, and the signature
/// of a signed URL is 64 lowercase hex digits.
pub proof fn lemma_signed_request_shape(params: Seq<char>, ts: u64, key: Seq<u8>)
    ensures
        signed_query_text(params, ts).subrange(
            signed_query_text(params, ts).len() - ("timestamp="@ + decimal(ts as nat)).len(),
            signed_query_text(params, ts).len() as int,
        ) == "timestamp="@ + decimal(ts as nat),
        hmac_sha256(key, encode_utf8(signed_query_text(params, ts))).len() == 32 ==> {
            let sig = hex_lower(hmac_sha256(key, encode_utf8(signed_query_text(params, ts))));
            &&& sig.len() == 64
            &&& forall|i: int| 0 <= i < sig.len() ==> crate::text::is_hex_char(#[trigger] sig[i])
        },
{
    crate::text::lemma_hex_lower_shape(hmac_sha256(key, encode_utf8(signed_query_text(params, ts))));
    let tail = "timestamp="@ + decimal(ts as nat);
    let q = signed_query_text(params, ts);
    if params.len() == 0 {
        assert(q.subrange(q.len() - tail.len(), q.len() as int) =~= tail);
    } else {
        assert(q =~= params + "&"@ + tail) by {
            reveal_strlit("&timestamp=");
            reveal_strlit("&");
            reveal_strlit("timestamp=");
        }
        assert(q.subrange(q.len() - tail.len(), q.len() as int) =~= tail);
    }
}


/// The leading parameters every order carries: symbol, side, type and
/// quantity.
pub open spec fn order_head_text(o: OrderRequest) -> Seq<char> {
    "symbol="@ + o.symbol@ + "&side="@ + o.side@ + "&type="@ + o.order_type@ + "&quantity="@ + o.quantity@
}

/// Giving an order a price puts exactly `&price=<price>` right after the
/// quantity, whatever its other optional fields; an order without a price
/// has no such part there.
pub proof fn lemma_order_price_param(o: OrderRequest, price: String)
    ensures
        ({
            let with = order_params_text(OrderRequest { price: Some(price), ..o });
            let without = order_params_text(OrderRequest { price: None, ..o });
            let k = order_head_text(o).len();
            &&& with.subrange(0, k as int) == order_head_text(o)
            &&& with.subrange(k as int, (k + ("&price="@ + price@).len()) as int) == "&price="@ + price@
            &&& with == without.subrange(0, k as int) + "&price="@ + price@ + without.subrange(k as int, without.len() as int)
            &&& without.subrange(0, k as int) == order_head_text(o)
        }),
{
    let with = order_params_text(OrderRequest { price: Some(price), ..o });
    let without = order_params_text(OrderRequest { price: None, ..o });
    let head = order_head_text(o);
    let p = "&price="@ + price@;
    let tail = optional_param("stopPrice"@, text_of(o.stop_price))
        + optional_param("timeInForce"@, text_of(o.time_in_force))
        + optional_param("reduceOnly"@, flag_text(o.reduce_only));
    assert(optional_param("price"@, text_of(Some(price))) =~= p) by {
        reveal_strlit("&");
        reveal_strlit("price");
        reveal_strlit("=");
        reveal_strlit("&price=");
        assert("&price="@ =~= "&"@ + "price"@ + "="@);
    }
    assert(with =~= head + p + tail);
    assert(without =~= head + tail);
    assert(with.subrange(0, head.len() as int) =~= head);
    assert(with.subrange(head.len() as int, (head.len() + p.len()) as int) =~= p);
    assert(without.subrange(0, head.len() as int) =~= head);
    assert(without.subrange(head.len() as int, without.len() as int) =~= tail);
}

} // verus!
