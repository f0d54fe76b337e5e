//! Client for the JSON-RPC interface of a `zcashd` node.
//!
//! The client holds where the node is and how to authenticate, and builds
//! the calls of the Zcash Payment API. Sending a call is left to the caller.

use vstd::prelude::*;
use vstd::string::StringExecFns;
use base64::Engine;
use crate::error::Error;
use crate::rpc::{Payment, RpcCall, RpcCallView, RpcError, RpcParam, RpcParamView};
use crate::types::utils::{push_signed_decimal, signed_decimal};

verus! {

/// The text that the standard base64 alphabet, with padding, encodes a byte
/// string to.
pub uninterp spec fn base64_standard(bytes: Seq<u8>) -> Seq<char>;

/// Largest input, in bytes, whose base64 encoding is certain to fit a
/// buffer: half the address space.
pub open spec fn max_base64_input() -> int {
    (usize::MAX / 2) as int
}

/// Encodes the bytes of `input` in base64.
///
/// Calls `base64::Engine::encode` on `base64::engine::general_purpose::STANDARD`.
/// The call panics where the size of the output overflows `usize`; the
/// precondition keeps the input well below that.
#[verifier::external_body]
fn base64_encode(input: &str) -> (encoded: String)
    requires
        vstd::utf8::encode_utf8(input@).len() <= max_base64_input(),
    ensures
        encoded@ == base64_standard(vstd::utf8::encode_utf8(input@)),
{
    base64::engine::general_purpose::STANDARD.encode(input)
}

/// The HTTP basic-authentication credentials for a user and a password: the
/// base64 encoding of the two, joined by a colon.
pub open spec fn basic_credentials(username: Seq<char>, password: Seq<char>) -> Seq<char> {
    base64_standard(vstd::utf8::encode_utf8(username + ":"@ + password))
}

/// RPC client for connecting to `zcashd` nodes.
#[derive(Debug, Clone, PartialEq, Eq)]
pub struct RpcClient {
    /// URL of the node's RPC endpoint.
    pub endpoint: String,
    /// Encoded credentials for HTTP basic authentication, if any.
    pub auth: Option<String>,
}

impl RpcClient {
    /// Create a new RPC client without authentication.
    pub fn new(endpoint: String) -> (client: RpcClient)
        ensures
            client.endpoint == endpoint,
            client.auth is None,
    {
        RpcClient { endpoint, auth: None }
    }

    /// Create a new RPC client with HTTP basic authentication.
    pub fn with_auth(endpoint: String, username: String, password: String) -> (client: RpcClient)
        requires
            vstd::utf8::encode_utf8(username@ + ":"@ + password@).len() <= max_base64_input(),
        ensures
            client.endpoint == endpoint,
            client.auth is Some,
            client.auth->Some_0@ == basic_credentials(username@, password@),
    {
        let credentials = username.concat(":").concat(password.as_str());
        let encoded = base64_encode(credentials.as_str());
        RpcClient { endpoint, auth: Some(encoded) }
    }
}

/// A call of `method` with the given parameters.
fn call_of(method: &str, params: Vec<RpcParam>) -> (call: RpcCall)
    ensures
        call@.method == method@,
        call@.params == Seq::new(params@.len(), |i: int| params@[i]@),
        call.params == params,
{
    RpcCall { method: String::from_str(method), params }
}

/// A text parameter.
fn text_param(text: &str) -> (param: RpcParam)
    ensures
        param@ == RpcParamView::Text(text@),
{
    RpcParam::Text(String::from_str(text))
}

/// The parameters of a call about one address: the address, then the
/// minimum confirmations where they are given.
pub open spec fn address_params(address: Seq<char>, minconf: Option<u32>) -> Seq<RpcParamView> {
    match minconf {
        Some(confirmations) => seq![RpcParamView::Text(address), RpcParamView::Number(confirmations as u64)],
        None => seq![RpcParamView::Text(address)],
    }
}

/// The parameters of `z_getnewaddress`: the account, then the address type.
/// An address type without an account is sent with the empty account.
pub open spec fn new_address_params(account: Option<Seq<char>>, address_type: Option<Seq<char>>) -> Seq<RpcParamView> {
    match (account, address_type) {
        (Some(name), Some(kind)) => seq![RpcParamView::Text(name), RpcParamView::Text(kind)],
        (Some(name), None) => seq![RpcParamView::Text(name)],
        (None, Some(kind)) => seq![RpcParamView::Text(Seq::<char>::empty()), RpcParamView::Text(kind)],
        (None, None) => Seq::<RpcParamView>::empty(),
    }
}

/// The parameters of `z_gettotalbalance`: the minimum confirmations, then
/// whether watch-only addresses count. The second is sent only after the
/// first.
pub open spec fn total_balance_params(minconf: Option<u32>, include_watchonly: Option<bool>) -> Seq<RpcParamView> {
    match (minconf, include_watchonly) {
        (Some(confirmations), Some(watchonly)) => seq![
            RpcParamView::Number(confirmations as u64),
            RpcParamView::Flag(watchonly),
        ],
        (Some(confirmations), None) => seq![RpcParamView::Number(confirmations as u64)],
        (None, _) => Seq::<RpcParamView>::empty(),
    }
}

/// The parameters of `z_sendmany`: the source address and the payments,
/// then the minimum confirmations, then the fee. A fee without minimum
/// confirmations is sent after the default of one confirmation.
pub open spec fn send_many_params(
    from_address: Seq<char>,
    payments: Seq<Payment>,
    minconf: Option<u32>,
    fee: Option<u64>,
) -> Seq<RpcParamView> {
    let head = seq![RpcParamView::Text(from_address), RpcParamView::Payments(payments)];
    match (minconf, fee) {
        (Some(confirmations), Some(zatoshis)) => head.push(RpcParamView::Number(confirmations as u64)).push(
            RpcParamView::Amount(zatoshis),
        ),
        (Some(confirmations), None) => head.push(RpcParamView::Number(confirmations as u64)),
        (None, Some(zatoshis)) => head.push(RpcParamView::Number(1)).push(RpcParamView::Amount(zatoshis)),
        (None, None) => head,
    }
}

/// The parameters of a call about one operation: the list of that one
/// operation identifier.
pub open spec fn operation_params(operation_id: Seq<char>) -> Seq<RpcParamView> {
    seq![RpcParamView::TextList(seq![operation_id])]
}

/// Message of the error for an HTTP status that is not a success.
pub open spec fn http_failure_text(status: Seq<char>) -> Seq<char> {
    "RPC request failed with status: "@ + status
}

/// Message of the error for a response that carries an error object.
pub open spec fn rpc_error_text(code: i32, message: Seq<char>) -> Seq<char> {
    "RPC error "@ + signed_decimal(code as int) + ": "@ + message
}

/// Check the HTTP status of a response before its body is read.
pub fn check_http_status(success: bool, status: &str) -> (checked: std::result::Result<(), Error>)
    ensures
        success ==> checked is Ok,
        !success ==> (checked matches Err(Error::Rpc(message)) && message@ == http_failure_text(status@)),
{
    if success {
        Ok(())
    } else {
        Err(Error::Rpc(String::from_str("RPC request failed with status: ").concat(status)))
    }
}

/// The result of a JSON-RPC response: its error object where it has one,
/// else its result, else an error for the missing result.
pub fn unwrap_response<T>(error: Option<RpcError>, result: Option<T>) -> (unwrapped: std::result::Result<T, Error>)
    ensures
        match (error, result) {
            (Some(e), _) => unwrapped matches Err(Error::Rpc(message)) && message@ == rpc_error_text(
                e.code,
                e.message@,
            ),
            (None, Some(value)) => unwrapped == Ok::<T, Error>(value),
            (None, None) => unwrapped matches Err(Error::Rpc(message)) && message@
                == "RPC response missing result"@,
        },
{
    match error {
        Some(e) => {
            let mut message = String::from_str("RPC error ");
            push_signed_decimal(&mut message, e.code as i64);
            message.append(": ");
            message.append(e.message.as_str());
            Err(Error::Rpc(message))
        },
        None => match result {
            Some(value) => Ok(value),
            None => Err(Error::Rpc(String::from_str("RPC response missing result"))),
        },
    }
}

impl RpcClient {
    /// The value of the `Authorization` header of a request, where the
    /// client authenticates.
    pub fn authorization(&self) -> (header: Option<String>)
        ensures
            match self.auth {
                Some(credentials) => header is Some && header->Some_0@ == "Basic "@ + credentials@,
                None => header is None,
            },
    {
        match &self.auth {
            Some(credentials) => Some(String::from_str("Basic ").concat(credentials.as_str())),
            None => None,
        }
    }

    /// Get blockchain information (Bitcoin-compatible).
    pub fn get_blockchain_info(&self) -> (call: RpcCall)
        ensures
            call@ == (RpcCallView { method: "getblockchaininfo"@, params: Seq::<RpcParamView>::empty() }),
    {
        let call = call_of("getblockchaininfo", Vec::new());
        assert(call@.params =~= Seq::<RpcParamView>::empty());
        call
    }

    /// Get the raw blockchain info.
    pub fn get_blockchain_info_raw(&self) -> (call: RpcCall)
        ensures
            call@ == (RpcCallView { method: "getblockchaininfo"@, params: Seq::<RpcParamView>::empty() }),
    {
        self.get_blockchain_info()
    }

    /// Get block hash for a given block height.
    pub fn get_block_hash(&self, height: u64) -> (call: RpcCall)
        ensures
            call@ == (RpcCallView { method: "getblockhash"@, params: seq![RpcParamView::Number(height)] }),
    {
        let mut params: Vec<RpcParam> = Vec::new();
        params.push(RpcParam::Number(height));
        let call = call_of("getblockhash", params);
        assert(call@.params =~= seq![RpcParamView::Number(height)]);
        call
    }

    /// Get block information by hash.
    pub fn get_block(&self, hash: &str) -> (call: RpcCall)
        ensures
            call@ == (RpcCallView { method: "getblock"@, params: seq![RpcParamView::Text(hash@)] }),
    {
        let mut params: Vec<RpcParam> = Vec::new();
        params.push(text_param(hash));
        let call = call_of("getblock", params);
        assert(call@.params =~= seq![RpcParamView::Text(hash@)]);
        call
    }

    /// Get the current block count.
    pub fn get_block_count(&self) -> (call: RpcCall)
        ensures
            call@ == (RpcCallView { method: "getblockcount"@, params: Seq::<RpcParamView>::empty() }),
    {
        let call = call_of("getblockcount", Vec::new());
        assert(call@.params =~= Seq::<RpcParamView>::empty());
        call
    }

    /// Get network information.
    pub fn get_network_info(&self) -> (call: RpcCall)
        ensures
            call@ == (RpcCallView { method: "getnetworkinfo"@, params: Seq::<RpcParamView>::empty() }),
    {
        let call = call_of("getnetworkinfo", Vec::new());
        assert(call@.params =~= Seq::<RpcParamView>::empty());
        call
    }

    /// Get a new address of the given account and type.
    pub fn z_getnewaddress(&self, account: Option<&str>, address_type: Option<&str>) -> (call: RpcCall)
        ensures
            call@ == (RpcCallView {
                method: "z_getnewaddress"@,
                params: new_address_params(
                    match account {
                        Some(name) => Some(name@),
                        None => None,
                    },
                    match address_type {
                        Some(kind) => Some(kind@),
                        None => None,
                    },
                ),
            }),
    {
        proof {
            reveal_strlit("");
            assert(""@ =~= Seq::<char>::empty());
        }
        let mut params: Vec<RpcParam> = Vec::new();
        match account {
            Some(name) => {
                params.push(text_param(name));
                match address_type {
                    Some(kind) => {
                        params.push(text_param(kind));
                    },
                    None => {},
                }
            },
            None => match address_type {
                Some(kind) => {
                    params.push(text_param(""));
                    params.push(text_param(kind));
                },
                None => {},
            },
        }
        let call = call_of("z_getnewaddress", params);
        assert(call@.params =~= new_address_params(
            match account {
                Some(name) => Some(name@),
                None => None,
            },
            match address_type {
                Some(kind) => Some(kind@),
                None => None,
            },
        ));
        call
    }

    /// A call of `method` about one address.
    fn address_call(method: &str, address: &str, minconf: Option<u32>) -> (call: RpcCall)
        ensures
            call@ == (RpcCallView { method: method@, params: address_params(address@, minconf) }),
    {
        let mut params: Vec<RpcParam> = Vec::new();
        params.push(text_param(address));
        match minconf {
            Some(confirmations) => {
                params.push(RpcParam::Number(confirmations as u64));
            },
            None => {},
        }
        let call = call_of(method, params);
        assert(call@.params =~= address_params(address@, minconf));
        call
    }

    /// Get the balance for a shielded address.
    pub fn z_getbalance(&self, address: &str, minconf: Option<u32>) -> (call: RpcCall)
        ensures
            call@ == (RpcCallView { method: "z_getbalance"@, params: address_params(address@, minconf) }),
    {
        Self::address_call("z_getbalance", address, minconf)
    }

    /// Get the total balance for all addresses in the wallet.
    pub fn z_gettotalbalance(&self, minconf: Option<u32>, include_watchonly: Option<bool>) -> (call: RpcCall)
        ensures
            call@ == (RpcCallView {
                method: "z_gettotalbalance"@,
                params: total_balance_params(minconf, include_watchonly),
            }),
    {
        let mut params: Vec<RpcParam> = Vec::new();
        match minconf {
            Some(confirmations) => {
                params.push(RpcParam::Number(confirmations as u64));
                match include_watchonly {
                    Some(watchonly) => {
                        params.push(RpcParam::Flag(watchonly));
                    },
                    None => {},
                }
            },
            None => {},
        }
        let call = call_of("z_gettotalbalance", params);
        assert(call@.params =~= total_balance_params(minconf, include_watchonly));
        call
    }

    /// List all addresses in the wallet.
    pub fn z_listaddresses(&self) -> (call: RpcCall)
        ensures
            call@ == (RpcCallView { method: "z_listaddresses"@, params: Seq::<RpcParamView>::empty() }),
    {
        let call = call_of("z_listaddresses", Vec::new());
        assert(call@.params =~= Seq::<RpcParamView>::empty());
        call
    }

    /// View transaction details.
    pub fn z_viewtransaction(&self, txid: &str) -> (call: RpcCall)
        ensures
            call@ == (RpcCallView { method: "z_viewtransaction"@, params: seq![RpcParamView::Text(txid@)] }),
    {
        let mut params: Vec<RpcParam> = Vec::new();
        params.push(text_param(txid));
        let call = call_of("z_viewtransaction", params);
        assert(call@.params =~= seq![RpcParamView::Text(txid@)]);
        call
    }

    /// Send funds to multiple recipients (Zcash Payment API).
    pub fn z_sendmany(&self, from_address: &str, payments: Vec<Payment>, minconf: Option<u32>, fee: Option<u64>) -> (call:
        RpcCall)
        ensures
            call@ == (RpcCallView {
                method: "z_sendmany"@,
                params: send_many_params(from_address@, payments@, minconf, fee),
            }),
    {
        let ghost batch = payments@;
        let mut params: Vec<RpcParam> = Vec::new();
        params.push(text_param(from_address));
        params.push(RpcParam::Payments(payments));
        match minconf {
            Some(confirmations) => {
                params.push(RpcParam::Number(confirmations as u64));
                match fee {
                    Some(zatoshis) => {
                        params.push(RpcParam::Amount(zatoshis));
                    },
                    None => {},
                }
            },
            None => match fee {
                Some(zatoshis) => {
                    params.push(RpcParam::Number(1));
                    params.push(RpcParam::Amount(zatoshis));
                },
                None => {},
            },
        }
        let call = call_of("z_sendmany", params);
        assert(call@.params =~= send_many_params(from_address@, batch, minconf, fee));
        call
    }

    /// A call of `method` about one operation.
    fn operation_call(method: &str, operation_id: &str) -> (call: RpcCall)
        ensures
            call@ == (RpcCallView { method: method@, params: operation_params(operation_id@) }),
    {
        let mut ids: Vec<String> = Vec::new();
        ids.push(String::from_str(operation_id));
        let param = RpcParam::TextList(ids);
        assert(param@ == RpcParamView::TextList(seq![operation_id@])) by {
            assert(Seq::new(ids@.len(), |i: int| ids@[i]@) =~= seq![operation_id@]);
        }
        let mut params: Vec<RpcParam> = Vec::new();
        params.push(param);
        let call = call_of(method, params);
        assert(call@.params =~= operation_params(operation_id@));
        call
    }

    /// Get the status of a z_sendmany operation.
    pub fn z_getoperationstatus(&self, operation_id: &str) -> (call: RpcCall)
        ensures
            call@ == (RpcCallView { method: "z_getoperationstatus"@, params: operation_params(operation_id@) }),
    {
        Self::operation_call("z_getoperationstatus", operation_id)
    }

    /// Get the result of a z_sendmany operation.
    pub fn z_getoperationresult(&self, operation_id: &str) -> (call: RpcCall)
        ensures
            call@ == (RpcCallView { method: "z_getoperationresult"@, params: operation_params(operation_id@) }),
    {
        Self::operation_call("z_getoperationresult", operation_id)
    }

    /// List all pending z_sendmany operations.
    pub fn z_listoperationids(&self) -> (call: RpcCall)
        ensures
            call@ == (RpcCallView { method: "z_listoperationids"@, params: Seq::<RpcParamView>::empty() }),
    {
        let call = call_of("z_listoperationids", Vec::new());
        assert(call@.params =~= Seq::<RpcParamView>::empty());
        call
    }

    /// Get notes for a shielded address.
    pub fn z_listnotes(&self, address: &str, minconf: Option<u32>) -> (call: RpcCall)
        ensures
            call@ == (RpcCallView { method: "z_listnotes"@, params: address_params(address@, minconf) }),
    {
        Self::address_call("z_listnotes", address, minconf)
    }

    /// Get received notes for a shielded address.
    pub fn z_listreceivedbyaddress(&self, address: &str, minconf: Option<u32>) -> (call: RpcCall)
        ensures
            call@ == (RpcCallView { method: "z_listreceivedbyaddress"@, params: address_params(address@, minconf) }),
    {
        Self::address_call("z_listreceivedbyaddress", address, minconf)
    }

    /// Retrieve the shielded balance for an address with the node's default
    /// minimum confirmations.
    pub fn get_balance(&self, address: &str) -> (call: RpcCall)
        ensures
            call@ == (RpcCallView { method: "z_getbalance"@, params: address_params(address@, None) }),
    {
        self.z_getbalance(address, None)
    }
}

} // verus!
