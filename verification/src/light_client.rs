//! Light client: the endpoint of a lightwalletd server, the requests that a
//! client makes of it, and the engine that synchronises a wallet against it.

use vstd::prelude::*;
use vstd::string::StringExecFns;
use crate::error::Error;
use crate::light_client::sync::{
    sync_next, sync_step, HeightRange, SyncAction, SyncError, SyncEvent, SyncState, SyncStateView,
};
use crate::types::utils::{decimal, push_decimal, push_signed_decimal, signed_decimal};
use crate::types::Network;

pub mod sync;

verus! {

/// Why `http::Uri` refuses a string, as text; `None` where it accepts it.
pub uninterp spec fn uri_rejection(text: Seq<char>) -> Option<Seq<char>>;

/// Checks that a string is a URI.
///
/// Calls `<http::Uri as FromStr>::from_str` (the type is re-exported as
/// `tonic::transport::Uri`) and keeps only the `Display` text of the error.
/// The contract only names the outcome: the same string is always accepted,
/// or always refused with the same text.
#[verifier::external_body]
fn uri_parse_error(text: &str) -> (rejection: Option<String>)
    ensures
        match rejection {
            Some(reason) => uri_rejection(text@) == Some(reason@),
            None => uri_rejection(text@) is None,
        },
{
    match text.parse::<tonic::transport::Uri>() {
        Ok(_) => None,
        Err(e) => Some(e.to_string()),
    }
}

/// The value of a hexadecimal digit in either case, if the byte is one.
pub open spec fn hex_digit(byte: u8) -> Option<u8> {
    if 0x30 <= byte <= 0x39 {
        Some((byte - 0x30) as u8)
    } else if 0x61 <= byte <= 0x66 {
        Some((byte - 0x61 + 10) as u8)
    } else if 0x41 <= byte <= 0x46 {
        Some((byte - 0x41 + 10) as u8)
    } else {
        None
    }
}

/// The text is an even number of hexadecimal digits.
pub open spec fn is_hex(text: Seq<u8>) -> bool {
    text.len() % 2 == 0 && forall|i: int| 0 <= i < text.len() ==> (#[trigger] hex_digit(text[i])) is Some
}

/// The bytes that a hexadecimal text writes down, two digits to the byte,
/// the high digit first.
pub open spec fn hex_bytes(text: Seq<u8>) -> Seq<u8> {
    Seq::new(
        (text.len() / 2) as nat,
        |i: int| (16 * hex_digit(text[2 * i])->Some_0 + hex_digit(text[2 * i + 1])->Some_0) as u8,
    )
}

/// What `hex` says of a text that is not hexadecimal.
pub uninterp spec fn hex_error_text(text: Seq<u8>) -> Seq<char>;

/// Decodes hexadecimal text.
///
/// Calls `hex::decode`: a text of an even number of hexadecimal digits, of
/// either case, gives the bytes that it writes down; any other text gives an
/// error, of which only the `Display` text is kept, under a name.
#[verifier::external_body]
fn hex_decode(text: &str) -> (decoded: std::result::Result<Vec<u8>, String>)
    ensures
        match decoded {
            Ok(bytes) => is_hex(vstd::utf8::encode_utf8(text@)) && bytes@ == hex_bytes(vstd::utf8::encode_utf8(text@)),
            Err(reason) => !is_hex(vstd::utf8::encode_utf8(text@)) && reason@ == hex_error_text(
                vstd::utf8::encode_utf8(text@),
            ),
        },
{
    match hex::decode(text) {
        Ok(bytes) => Ok(bytes),
        Err(e) => Err(e.to_string()),
    }
}

/// Light client for a lightwalletd server.
#[derive(Debug, Clone, PartialEq, Eq)]
pub struct LightClient {
    /// gRPC endpoint URL.
    endpoint: String,
    /// Network (mainnet/testnet/regtest).
    network: Network,
}

/// The request for one transaction of the remote service.
#[derive(Debug, Clone, PartialEq, Eq)]
pub struct TransactionFilter {
    /// The transaction identifier, as bytes.
    pub hash: Vec<u8>,
    /// Position in the block; unused when asking by identifier.
    pub index: u64,
}

/// Message of the error that stands for the tip of the chain.
pub open spec fn tip_unavailable_text() -> Seq<char> {
    "get_tip not yet implemented. See zcash_client_backend::proto for API details."@
}

/// Message of the error for an endpoint that is not a URI.
pub open spec fn invalid_endpoint_text(reason: Seq<char>) -> Seq<char> {
    "Invalid endpoint URL: "@ + reason
}

/// Message of the error for a transaction identifier that is not
/// hexadecimal.
pub open spec fn invalid_txid_text(reason: Seq<char>) -> Seq<char> {
    "Invalid txid hex: "@ + reason
}

impl LightClient {
    /// The endpoint URL of this client.
    pub closed spec fn spec_endpoint(&self) -> Seq<char> {
        self.endpoint@
    }

    /// The network of this client.
    pub closed spec fn spec_network(&self) -> Network {
        self.network
    }

    /// Create a light client for a lightwalletd server. The endpoint must be
    /// a URI; nothing is sent to it yet.
    pub fn connect(endpoint: String, network: Network) -> (client: std::result::Result<LightClient, Error>)
        ensures
            match client {
                Ok(c) => uri_rejection(endpoint@) is None && c.spec_endpoint() == endpoint@ && c.spec_network()
                    == network,
                Err(Error::InvalidParameter(message)) => uri_rejection(endpoint@) is Some && message@
                    == invalid_endpoint_text(uri_rejection(endpoint@)->Some_0),
                Err(_) => false,
            },
    {
        match uri_parse_error(endpoint.as_str()) {
            None => Ok(LightClient { endpoint, network }),
            Some(reason) => {
                let message = String::from_str("Invalid endpoint URL: ").concat(reason.as_str());
                Err(Error::InvalidParameter(message))
            },
        }
    }

    /// Get the current network.
    pub fn network(&self) -> (network: Network)
        ensures
            network == self.spec_network(),
    {
        self.network
    }

    /// Get the endpoint URL.
    pub fn endpoint(&self) -> (endpoint: &str)
        ensures
            endpoint@ == self.spec_endpoint(),
    {
        self.endpoint.as_str()
    }

    /// Begin a sync of the heights from `start_height` to `end_height`, or to
    /// the latest height of the remote service where no end is given.
    /// Returns the state of the session and the first action to perform; the
    /// session goes on with `sync_step`.
    pub fn sync(&self, start_height: u64, end_height: Option<u64>) -> (first: (SyncState, SyncAction))
        ensures
            (first.0@, first.1) == sync_next(SyncStateView::Idle, SyncEvent::Start { start_height, end_height }),
    {
        sync_step(SyncState::Idle, SyncEvent::Start { start_height, end_height })
    }

    /// The request for the transaction with the hexadecimal identifier
    /// `txid_hex`.
    pub fn get_transaction(&self, txid_hex: &str) -> (filter: std::result::Result<TransactionFilter, Error>)
        ensures
            match filter {
                Ok(f) => {
                    &&& is_hex(vstd::utf8::encode_utf8(txid_hex@))
                    &&& f.hash@ == hex_bytes(vstd::utf8::encode_utf8(txid_hex@))
                    &&& f.index == 0
                },
                Err(Error::InvalidParameter(message)) => {
                    &&& !is_hex(vstd::utf8::encode_utf8(txid_hex@))
                    &&& message@ == invalid_txid_text(hex_error_text(vstd::utf8::encode_utf8(txid_hex@)))
                },
                Err(_) => false,
            },
    {
        match hex_decode(txid_hex) {
            Ok(hash) => Ok(TransactionFilter { hash, index: 0 }),
            Err(reason) => {
                let message = String::from_str("Invalid txid hex: ").concat(reason.as_str());
                Err(Error::InvalidParameter(message))
            },
        }
    }

    /// Get the tip (latest block) information. This client does not offer
    /// it: the result is always the same error.
    pub fn get_tip(&self) -> (tip: std::result::Result<(u64, Vec<u8>), Error>)
        ensures
            tip matches Err(Error::Rpc(message)) && message@ == tip_unavailable_text(),
    {
        let message = String::from_str(
            "get_tip not yet implemented. See zcash_client_backend::proto for API details.",
        );
        Err(Error::Rpc(message))
    }
}

/// A raw transaction as it is handed to the remote service.
#[derive(Debug, Clone, PartialEq, Eq)]
pub struct RawTransaction {
    /// The serialised transaction.
    pub data: Vec<u8>,
    /// The height at which it was mined; zero for one that is to be sent.
    pub height: u64,
}

impl LightClient {
    /// The request that submits a raw transaction to the network.
    pub fn submit_transaction(&self, raw_tx: &[u8]) -> (request: RawTransaction)
        ensures
            request.data@ == raw_tx@,
            request.height == 0,
    {
        RawTransaction { data: vstd::slice::slice_to_vec(raw_tx), height: 0 }
    }
}

/// The status text of a submission reply.
pub open spec fn submission_text(error_code: i32, error_message: Seq<char>) -> Seq<char> {
    "code:"@ + signed_decimal(error_code as int) + " message:"@ + error_message
}

/// The status text of the remote service's reply to a submission: its error
/// code and its message.
pub fn submission_report(error_code: i32, error_message: &str) -> (report: String)
    ensures
        report@ == submission_text(error_code, error_message@),
{
    let mut report = String::from_str("code:");
    push_signed_decimal(&mut report, error_code as i64);
    report.append(" message:");
    report.append(error_message);
    report
}

/// The raw transaction of a reply of the remote service: none where the
/// reply is empty.
pub fn transaction_from_reply(data: Vec<u8>) -> (found: Option<Vec<u8>>)
    ensures
        data@.len() == 0 ==> found is None,
        data@.len() > 0 ==> found == Some(data),
{
    if data.len() == 0 {
        None
    } else {
        Some(data)
    }
}

/// Message of the range error of a sync.
pub open spec fn invalid_range_text(start: u64, end: u64) -> Seq<char> {
    "Start height "@ + decimal(start as nat) + " is greater than end height "@ + decimal(end as nat)
}

/// Message of the error for a batch that could not be fetched.
pub open spec fn fetch_failure_text(batch: HeightRange, detail: Seq<char>) -> Seq<char> {
    "Failed to fetch blocks "@ + decimal(batch.start as nat) + " to "@ + decimal(batch.end as nat) + ": "@ + detail
}

impl SyncError {
    /// The SDK error that a failed sync is reported with: an invalid
    /// parameter for a range error, an RPC error for an unreachable remote
    /// service, which names the batch where one was being fetched, and a
    /// database error for a failed account import.
    pub fn into_error(self) -> (error: Error)
        ensures
            match self {
                SyncError::InvalidRange { start, end } => error matches Error::InvalidParameter(message) && message@
                    == invalid_range_text(start, end),
                SyncError::RemoteUnavailable { batch: None, detail } => error == Error::Rpc(detail),
                SyncError::RemoteUnavailable { batch: Some(range), detail } => error matches Error::Rpc(message)
                    && message@ == fetch_failure_text(range, detail@),
                SyncError::AccountImportFailed { detail } => error == Error::Database(detail),
            },
    {
        match self {
            SyncError::InvalidRange { start, end } => {
                let mut message = String::from_str("Start height ");
                push_decimal(&mut message, start);
                message.append(" is greater than end height ");
                push_decimal(&mut message, end);
                Error::InvalidParameter(message)
            },
            SyncError::RemoteUnavailable { batch: None, detail } => Error::Rpc(detail),
            SyncError::RemoteUnavailable { batch: Some(range), detail } => {
                let mut message = String::from_str("Failed to fetch blocks ");
                push_decimal(&mut message, range.start);
                message.append(" to ");
                push_decimal(&mut message, range.end);
                message.append(": ");
                message.append(detail.as_str());
                Error::Rpc(message)
            },
            SyncError::AccountImportFailed { detail } => Error::Database(detail),
        }
    }
}

/// The public lightwalletd endpoints of a network, in order of preference.
pub open spec fn endpoints_of(network: Network) -> Seq<Seq<char>> {
    match network {
        Network::Mainnet => seq!["https://mainnet.lightwalletd.com:9067"@, "https://lwd1.zcash-infra.com:9067"@],
        Network::Testnet => seq!["https://testnet.lightwalletd.com:9067"@],
        Network::Regtest => seq!["http://localhost:9067"@],
    }
}

/// Default lightwalletd endpoints for a network.
pub fn default_endpoints(network: Network) -> (endpoints: Vec<String>)
    ensures
        endpoints@.len() == endpoints_of(network).len(),
        forall|i: int| 0 <= i < endpoints@.len() ==> (#[trigger] endpoints@[i])@ == endpoints_of(network)[i],
{
    let mut endpoints: Vec<String> = Vec::new();
    match network {
        Network::Mainnet => {
            endpoints.push(String::from_str("https://mainnet.lightwalletd.com:9067"));
            endpoints.push(String::from_str("https://lwd1.zcash-infra.com:9067"));
        },
        Network::Testnet => {
            endpoints.push(String::from_str("https://testnet.lightwalletd.com:9067"));
        },
        Network::Regtest => {
            endpoints.push(String::from_str("http://localhost:9067"));
        },
    }
    endpoints
}

} // verus!
