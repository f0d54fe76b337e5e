//! Values exchanged with the remote transaction processor.

use vstd::prelude::*;

verus! {

/// One payment of a `z_sendmany` batch.
#[derive(Debug, Clone, PartialEq, Eq)]
pub struct Payment {
    /// Recipient address.
    pub address: String,
    /// Amount in zatoshis. Signed, so that a non-positive amount can be
    /// written down and refused.
    pub amount: i64,
    /// Optional memo (for shielded addresses), as the bytes that are sent.
    pub memo: Option<Vec<u8>>,
}

/// Size in bytes of an optional memo.
pub open spec fn memo_size_of(memo: Option<Vec<u8>>) -> Option<nat> {
    match memo {
        Some(bytes) => Some(bytes@.len()),
        None => None,
    }
}

impl Payment {
    /// Size of the memo in bytes, where there is one.
    pub open spec fn memo_size(self) -> Option<nat> {
        memo_size_of(self.memo)
    }
}

/// One positional parameter of a JSON-RPC call.
#[derive(Debug, Clone, PartialEq, Eq)]
pub enum RpcParam {
    /// A string.
    Text(String),
    /// An unsigned integer.
    Number(u64),
    /// A boolean.
    Flag(bool),
    /// An amount in zatoshis, which the wire carries in ZEC.
    Amount(u64),
    /// The payments of a batch, each an object of address, amount and memo.
    Payments(Vec<Payment>),
    /// A list of strings.
    TextList(Vec<String>),
}

/// Mathematical model of an `RpcParam`.
pub enum RpcParamView {
    Text(Seq<char>),
    Number(u64),
    Flag(bool),
    Amount(u64),
    Payments(Seq<Payment>),
    TextList(Seq<Seq<char>>),
}

impl View for RpcParam {
    type V = RpcParamView;

    open spec fn view(&self) -> RpcParamView {
        match *self {
            RpcParam::Text(text) => RpcParamView::Text(text@),
            RpcParam::Number(number) => RpcParamView::Number(number),
            RpcParam::Flag(flag) => RpcParamView::Flag(flag),
            RpcParam::Amount(zatoshis) => RpcParamView::Amount(zatoshis),
            RpcParam::Payments(payments) => RpcParamView::Payments(payments@),
            RpcParam::TextList(texts) => RpcParamView::TextList(Seq::new(texts@.len(), |i: int| texts@[i]@)),
        }
    }
}

/// A JSON-RPC call: the method and its positional parameters.
#[derive(Debug, Clone, PartialEq, Eq)]
pub struct RpcCall {
    pub method: String,
    pub params: Vec<RpcParam>,
}

/// Mathematical model of an `RpcCall`.
pub struct RpcCallView {
    pub method: Seq<char>,
    pub params: Seq<RpcParamView>,
}

impl View for RpcCall {
    type V = RpcCallView;

    open spec fn view(&self) -> RpcCallView {
        RpcCallView { method: self.method@, params: Seq::new(self.params@.len(), |i: int| self.params@[i]@) }
    }
}

/// The error object of a JSON-RPC response.
#[derive(Debug, Clone, PartialEq, Eq)]
pub struct RpcError {
    pub code: i32,
    pub message: String,
}

} // verus!
