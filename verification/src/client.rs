//! The client's configuration, the URL of each operation, and the decoding
//! of each operation's outcome.
//!
//! The HTTP transport lives outside the library. A caller builds a `Client`,
//! asks it for the URL of an operation, performs one GET with the `token`
//! header set to the client's token, and hands the outcome — the body text,
//! or the transport's error text — to the operation's `*_response` function,
//! which returns the typed record or the error. A transport failure always
//! comes back as `ClientError::Transport` with the transport's own words,
//! never as a default value.

use vstd::prelude::*;

use crate::decode::decode_epoch_index;
use crate::decode::decode_ping;
use crate::decode::decode_ping_times;
use crate::decode::decode_validator_block_history;
use crate::decode::decode_validator_detail;
use crate::decode::decode_validators;
use crate::decode::spec_decode_epoch_index;
use crate::decode::spec_decode_ping;
use crate::decode::spec_decode_ping_times;
use crate::decode::spec_decode_validator_block_history;
use crate::decode::spec_decode_validator_detail;
use crate::decode::spec_decode_validators;
use crate::error::ClientError;
use crate::error::ClientErrorV;
use crate::error::Field;
use crate::error::ParseError;
use crate::error::ParseErrorV;
use crate::json::parse_json;
use crate::json::spec_parse_json;
use crate::models::EpochIndex;
use crate::models::EpochIndexV;
use crate::models::Network;
use crate::models::Ping;
use crate::models::PingTime;
use crate::models::PingTimeV;
use crate::models::PingV;
use crate::models::ValidatorBlock;
use crate::models::ValidatorBlockV;
use crate::models::ValidatorDetail;
use crate::models::ValidatorDetailV;
use crate::models::ValidatorsOrder;
use crate::text::spec_u64_string;
use crate::text::str_to_chars;
use crate::text::u64_to_string;

verus! {

/// A character that may stand in the `token` header's value: a tab, or any
/// character other than a control character.
pub open spec fn spec_valid_token_char(c: char) -> bool {
    c as u32 == 9 || (32 <= c as u32 && c as u32 != 127)
}

/// A token every character of which may stand in a header value.
pub open spec fn spec_valid_token(s: Seq<char>) -> bool {
    forall|i: int| 0 <= i && i < s.len() ==> spec_valid_token_char(#[trigger] s[i])
}

/// The immutable configuration an operation needs: the service's base
/// endpoint, the network whose data is asked for, and the authentication
/// token that goes into the `token` header of every request. The token is
/// held only to be put on the wire; nothing here prints it.
pub struct Client {
    pub base_url: String,
    pub network: Network,
    pub token: String,
}

impl Client {
    /// A client for the production network.
    ///
    /// Construction fails exactly when the token holds a character that
    /// cannot stand in a header value: a fatal configuration error, raised
    /// here and not at call time.
    pub fn new(token: &str) -> (r: Option<Client>)
        ensures
            match r {
                Some(c) => spec_valid_token(token@) && c.token@ == token@ && c.network
                    == Network::Main && c.base_url@ == "https://www.validators.app/api/v1"@,
                None => !spec_valid_token(token@),
            },
    {
        Self::for_network(Network::Main, token)
    }

    /// A client for the chosen network.
    pub fn for_network(network: Network, token: &str) -> (r: Option<Client>)
        ensures
            match r {
                Some(c) => spec_valid_token(token@) && c.token@ == token@ && c.network == network
                    && c.base_url@ == "https://www.validators.app/api/v1"@,
                None => !spec_valid_token(token@),
            },
    {
        Self::with_base_url("https://www.validators.app/api/v1", network, token)
    }

    fn with_base_url(base_url: &str, network: Network, token: &str) -> (r: Option<Client>)
        ensures
            match r {
                Some(c) => spec_valid_token(token@) && c.token@ == token@ && c.network == network
                    && c.base_url@ == base_url@,
                None => !spec_valid_token(token@),
            },
    {
        let chars = str_to_chars(token);
        let mut i: usize = 0;
        while i < chars.len()
            invariant
                i <= chars@.len(),
                chars@ == token@,
                forall|k: int|
                    0 <= k && k < i ==> spec_valid_token_char(#[trigger] token@[k]),
            decreases chars@.len() - i,
        {
            let c = chars[i];
            let u = c as u32;
            if !(u == 9 || (32 <= u && u != 127)) {
                return None;
            }
            i = i + 1;
        }
        Some(Client { base_url: base_url.to_owned(), network, token: token.to_owned() })
    }

    /// The URL of the liveness probe.
    pub open spec fn spec_ping_url(&self) -> Seq<char> {
        self.base_url@ + "/ping.json"@
    }

    pub fn ping_url(&self) -> (r: String)
        ensures
            r@ == self.spec_ping_url(),
    {
        let s = self.base_url.clone();
        s.concat("/ping.json")
    }

    /// The URL of the latency-sample listing; `limit` is sent only when
    /// present.
    pub open spec fn spec_ping_times_url(&self, limit: Option<usize>) -> Seq<char> {
        let plain = self.base_url@ + "/ping-times/"@ + self.network.spec_segment() + ".json"@;
        match limit {
            None => plain,
            Some(l) => plain + "?limit="@ + spec_u64_string(l as int),
        }
    }

    pub fn ping_times_url(&self, limit: Option<usize>) -> (r: String)
        ensures
            r@ == self.spec_ping_times_url(limit),
    {
        let s = self.base_url.clone();
        let s = s.concat("/ping-times/");
        let s = s.concat(self.network.segment());
        let s = s.concat(".json");
        match limit {
            None => s,
            Some(l) => {
                let s = s.concat("?limit=");
                let n = u64_to_string(l as u64);
                s.concat(n.as_str())
            },
        }
    }

    /// The URL of the validator listing; `order` and `limit` are sent
    /// independently and only when present, and nothing else is ever sent.
    pub open spec fn spec_validators_url(
        &self,
        order: Option<ValidatorsOrder>,
        limit: Option<usize>,
    ) -> Seq<char> {
        let plain = self.base_url@ + "/validators/"@ + self.network.spec_segment() + ".json"@;
        match (order, limit) {
            (None, None) => plain,
            (Some(o), None) => plain + "?order="@ + o.spec_key(),
            (None, Some(l)) => plain + "?limit="@ + spec_u64_string(l as int),
            (Some(o), Some(l)) => plain + "?order="@ + o.spec_key() + "&limit="@
                + spec_u64_string(l as int),
        }
    }

    pub fn validators_url(&self, order: Option<ValidatorsOrder>, limit: Option<usize>) -> (r:
        String)
        ensures
            r@ == self.spec_validators_url(order, limit),
    {
        let s = self.base_url.clone();
        let s = s.concat("/validators/");
        let s = s.concat(self.network.segment());
        let s = s.concat(".json");
        match (order, limit) {
            (None, None) => s,
            (Some(o), None) => {
                let s = s.concat("?order=");
                s.concat(o.key())
            },
            (None, Some(l)) => {
                let s = s.concat("?limit=");
                let n = u64_to_string(l as u64);
                s.concat(n.as_str())
            },
            (Some(o), Some(l)) => {
                let s = s.concat("?order=");
                let s = s.concat(o.key());
                let s = s.concat("&limit=");
                let n = u64_to_string(l as u64);
                s.concat(n.as_str())
            },
        }
    }

    /// The URL of one validator's snapshot; the account identifier is
    /// interpolated into the path.
    pub open spec fn spec_validator_url(&self, account: Seq<char>) -> Seq<char> {
        self.base_url@ + "/validators/"@ + self.network.spec_segment() + "/"@ + account
            + ".json"@
    }

    pub fn validator_url(&self, account: &str) -> (r: String)
        ensures
            r@ == self.spec_validator_url(account@),
    {
        let s = self.base_url.clone();
        let s = s.concat("/validators/");
        let s = s.concat(self.network.segment());
        let s = s.concat("/");
        let s = s.concat(account);
        s.concat(".json")
    }

    /// The URL of one validator's block history; `limit` is sent only when
    /// present.
    pub open spec fn spec_validator_block_history_url(
        &self,
        account: Seq<char>,
        limit: Option<usize>,
    ) -> Seq<char> {
        let plain = self.base_url@ + "/validator_block_history/"@ + self.network.spec_segment()
            + "/"@ + account + ".json"@;
        match limit {
            None => plain,
            Some(l) => plain + "?limit="@ + spec_u64_string(l as int),
        }
    }

    pub fn validator_block_history_url(&self, account: &str, limit: Option<usize>) -> (r: String)
        ensures
            r@ == self.spec_validator_block_history_url(account@, limit),
    {
        let s = self.base_url.clone();
        let s = s.concat("/validator_block_history/");
        let s = s.concat(self.network.segment());
        let s = s.concat("/");
        let s = s.concat(account);
        let s = s.concat(".json");
        match limit {
            None => s,
            Some(l) => {
                let s = s.concat("?limit=");
                let n = u64_to_string(l as u64);
                s.concat(n.as_str())
            },
        }
    }

    /// The URL of the epoch index. The page size is sent under the query
    /// key `per`, and the page number under the query key `limit` — the
    /// service's own naming, reproduced exactly.
    pub open spec fn spec_epochs_url(
        &self,
        items_per_page: Option<usize>,
        page: Option<usize>,
    ) -> Seq<char> {
        let plain = self.base_url@ + "/epochs/"@ + self.network.spec_segment() + ".json"@;
        match (items_per_page, page) {
            (None, None) => plain,
            (Some(p), None) => plain + "?per="@ + spec_u64_string(p as int),
            (None, Some(l)) => plain + "?limit="@ + spec_u64_string(l as int),
            (Some(p), Some(l)) => plain + "?per="@ + spec_u64_string(p as int) + "&limit="@
                + spec_u64_string(l as int),
        }
    }

    pub fn epochs_url(&self, items_per_page: Option<usize>, page: Option<usize>) -> (r: String)
        ensures
            r@ == self.spec_epochs_url(items_per_page, page),
    {
        let s = self.base_url.clone();
        let s = s.concat("/epochs/");
        let s = s.concat(self.network.segment());
        let s = s.concat(".json");
        match (items_per_page, page) {
            (None, None) => s,
            (Some(p), None) => {
                let s = s.concat("?per=");
                let n = u64_to_string(p as u64);
                s.concat(n.as_str())
            },
            (None, Some(l)) => {
                let s = s.concat("?limit=");
                let n = u64_to_string(l as u64);
                s.concat(n.as_str())
            },
            (Some(p), Some(l)) => {
                let s = s.concat("?per=");
                let n = u64_to_string(p as u64);
                let s = s.concat(n.as_str());
                let s = s.concat("&limit=");
                let n2 = u64_to_string(l as u64);
                s.concat(n2.as_str())
            },
        }
    }
}

/// What a liveness probe returns for each transport outcome: a transport
/// error comes back as itself, a body is parsed and decoded.
pub open spec fn spec_ping_response(body: Result<Seq<char>, Seq<char>>) -> Result<
    PingV,
    ClientErrorV,
> {
    match body {
        Err(t) => Err(ClientErrorV::Transport(t)),
        Ok(s) => match spec_parse_json(s) {
            None => Err(
                ClientErrorV::Parse(ParseErrorV { field: Field::Body, value: None }),
            ),
            Some(jv) => match spec_decode_ping(jv) {
                Ok(p) => Ok(p),
                Err(e) => Err(ClientErrorV::Parse(e)),
            },
        },
    }
}

/// Decodes a liveness probe's outcome.
pub fn ping_response(body: Result<String, String>) -> (r: Result<Ping, ClientError>)
    ensures
        match r {
            Ok(v) => spec_ping_response(match body {
                Ok(s) => Ok(s@),
                Err(t) => Err(t@),
            }) == Ok::<PingV, ClientErrorV>(v@),
            Err(e) => spec_ping_response(match body {
                Ok(s) => Ok(s@),
                Err(t) => Err(t@),
            }) == Err::<PingV, ClientErrorV>(e@),
        },
{
    match body {
        Err(t) => Err(ClientError::Transport(t)),
        Ok(s) => match parse_json(s.as_str()) {
            None => Err(
                ClientError::Parse(ParseError { field: Field::Body, value: None }),
            ),
            Some(j) => match decode_ping(&j) {
                Ok(p) => Ok(p),
                Err(e) => Err(ClientError::Parse(e)),
            },
        },
    }
}

/// What the latency-sample listing returns for each transport outcome.
pub open spec fn spec_ping_times_response(body: Result<Seq<char>, Seq<char>>) -> Result<
    Seq<PingTimeV>,
    ClientErrorV,
> {
    match body {
        Err(t) => Err(ClientErrorV::Transport(t)),
        Ok(s) => match spec_parse_json(s) {
            None => Err(
                ClientErrorV::Parse(ParseErrorV { field: Field::Body, value: None }),
            ),
            Some(jv) => match spec_decode_ping_times(jv) {
                Ok(p) => Ok(p),
                Err(e) => Err(ClientErrorV::Parse(e)),
            },
        },
    }
}

/// Decodes a latency-sample listing's outcome.
pub fn ping_times_response(body: Result<String, String>) -> (r: Result<Vec<PingTime>, ClientError>)
    ensures
        match r {
            Ok(v) => spec_ping_times_response(match body {
                Ok(s) => Ok(s@),
                Err(t) => Err(t@),
            }) == Ok::<Seq<PingTimeV>, ClientErrorV>(v.deep_view()),
            Err(e) => spec_ping_times_response(match body {
                Ok(s) => Ok(s@),
                Err(t) => Err(t@),
            }) == Err::<Seq<PingTimeV>, ClientErrorV>(e@),
        },
{
    match body {
        Err(t) => Err(ClientError::Transport(t)),
        Ok(s) => match parse_json(s.as_str()) {
            None => Err(
                ClientError::Parse(ParseError { field: Field::Body, value: None }),
            ),
            Some(j) => match decode_ping_times(&j) {
                Ok(p) => Ok(p),
                Err(e) => Err(ClientError::Parse(e)),
            },
        },
    }
}

/// What the validator listing returns for each transport outcome.
pub open spec fn spec_validators_response(body: Result<Seq<char>, Seq<char>>) -> Result<
    Seq<ValidatorDetailV>,
    ClientErrorV,
> {
    match body {
        Err(t) => Err(ClientErrorV::Transport(t)),
        Ok(s) => match spec_parse_json(s) {
            None => Err(
                ClientErrorV::Parse(ParseErrorV { field: Field::Body, value: None }),
            ),
            Some(jv) => match spec_decode_validators(jv) {
                Ok(p) => Ok(p),
                Err(e) => Err(ClientErrorV::Parse(e)),
            },
        },
    }
}

/// Decodes a validator listing's outcome.
pub fn validators_response(body: Result<String, String>) -> (r: Result<
    Vec<ValidatorDetail>,
    ClientError,
>)
    ensures
        match r {
            Ok(v) => spec_validators_response(match body {
                Ok(s) => Ok(s@),
                Err(t) => Err(t@),
            }) == Ok::<Seq<ValidatorDetailV>, ClientErrorV>(v.deep_view()),
            Err(e) => spec_validators_response(match body {
                Ok(s) => Ok(s@),
                Err(t) => Err(t@),
            }) == Err::<Seq<ValidatorDetailV>, ClientErrorV>(e@),
        },
{
    match body {
        Err(t) => Err(ClientError::Transport(t)),
        Ok(s) => match parse_json(s.as_str()) {
            None => Err(
                ClientError::Parse(ParseError { field: Field::Body, value: None }),
            ),
            Some(j) => match decode_validators(&j) {
                Ok(p) => Ok(p),
                Err(e) => Err(ClientError::Parse(e)),
            },
        },
    }
}

/// What one validator's snapshot returns for each transport outcome.
pub open spec fn spec_validator_response(body: Result<Seq<char>, Seq<char>>) -> Result<
    ValidatorDetailV,
    ClientErrorV,
> {
    match body {
        Err(t) => Err(ClientErrorV::Transport(t)),
        Ok(s) => match spec_parse_json(s) {
            None => Err(
                ClientErrorV::Parse(ParseErrorV { field: Field::Body, value: None }),
            ),
            Some(jv) => match spec_decode_validator_detail(jv) {
                Ok(p) => Ok(p),
                Err(e) => Err(ClientErrorV::Parse(e)),
            },
        },
    }
}

/// Decodes one validator snapshot's outcome.
pub fn validator_response(body: Result<String, String>) -> (r: Result<
    ValidatorDetail,
    ClientError,
>)
    ensures
        match r {
            Ok(v) => spec_validator_response(match body {
                Ok(s) => Ok(s@),
                Err(t) => Err(t@),
            }) == Ok::<ValidatorDetailV, ClientErrorV>(v@),
            Err(e) => spec_validator_response(match body {
                Ok(s) => Ok(s@),
                Err(t) => Err(t@),
            }) == Err::<ValidatorDetailV, ClientErrorV>(e@),
        },
{
    match body {
        Err(t) => Err(ClientError::Transport(t)),
        Ok(s) => match parse_json(s.as_str()) {
            None => Err(
                ClientError::Parse(ParseError { field: Field::Body, value: None }),
            ),
            Some(j) => match decode_validator_detail(&j) {
                Ok(p) => Ok(p),
                Err(e) => Err(ClientError::Parse(e)),
            },
        },
    }
}

/// What a block-history listing returns for each transport outcome.
pub open spec fn spec_validator_block_history_response(
    body: Result<Seq<char>, Seq<char>>,
) -> Result<Seq<ValidatorBlockV>, ClientErrorV> {
    match body {
        Err(t) => Err(ClientErrorV::Transport(t)),
        Ok(s) => match spec_parse_json(s) {
            None => Err(
                ClientErrorV::Parse(ParseErrorV { field: Field::Body, value: None }),
            ),
            Some(jv) => match spec_decode_validator_block_history(jv) {
                Ok(p) => Ok(p),
                Err(e) => Err(ClientErrorV::Parse(e)),
            },
        },
    }
}

/// Decodes a block-history listing's outcome.
pub fn validator_block_history_response(body: Result<String, String>) -> (r: Result<
    Vec<ValidatorBlock>,
    ClientError,
>)
    ensures
        match r {
            Ok(v) => spec_validator_block_history_response(match body {
                Ok(s) => Ok(s@),
                Err(t) => Err(t@),
            }) == Ok::<Seq<ValidatorBlockV>, ClientErrorV>(v.deep_view()),
            Err(e) => spec_validator_block_history_response(match body {
                Ok(s) => Ok(s@),
                Err(t) => Err(t@),
            }) == Err::<Seq<ValidatorBlockV>, ClientErrorV>(e@),
        },
{
    match body {
        Err(t) => Err(ClientError::Transport(t)),
        Ok(s) => match parse_json(s.as_str()) {
            None => Err(
                ClientError::Parse(ParseError { field: Field::Body, value: None }),
            ),
            Some(j) => match decode_validator_block_history(&j) {
                Ok(p) => Ok(p),
                Err(e) => Err(ClientError::Parse(e)),
            },
        },
    }
}

/// What the epoch index returns for each transport outcome.
pub open spec fn spec_epochs_response(body: Result<Seq<char>, Seq<char>>) -> Result<
    EpochIndexV,
    ClientErrorV,
> {
    match body {
        Err(t) => Err(ClientErrorV::Transport(t)),
        Ok(s) => match spec_parse_json(s) {
            None => Err(
                ClientErrorV::Parse(ParseErrorV { field: Field::Body, value: None }),
            ),
            Some(jv) => match spec_decode_epoch_index(jv) {
                Ok(p) => Ok(p),
                Err(e) => Err(ClientErrorV::Parse(e)),
            },
        },
    }
}

/// Decodes the epoch index's outcome.
pub fn epochs_response(body: Result<String, String>) -> (r: Result<EpochIndex, ClientError>)
    ensures
        match r {
            Ok(v) => spec_epochs_response(match body {
                Ok(s) => Ok(s@),
                Err(t) => Err(t@),
            }) == Ok::<EpochIndexV, ClientErrorV>(v@),
            Err(e) => spec_epochs_response(match body {
                Ok(s) => Ok(s@),
                Err(t) => Err(t@),
            }) == Err::<EpochIndexV, ClientErrorV>(e@),
        },
{
    match body {
        Err(t) => Err(ClientError::Transport(t)),
        Ok(s) => match parse_json(s.as_str()) {
            None => Err(
                ClientError::Parse(ParseError { field: Field::Body, value: None }),
            ),
            Some(j) => match decode_epoch_index(&j) {
                Ok(p) => Ok(p),
                Err(e) => Err(ClientError::Parse(e)),
            },
        },
    }
}

} // verus!
