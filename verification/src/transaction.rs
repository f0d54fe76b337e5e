//! Payment validation and the submission pipeline.
//!
//! Every function here decides; none performs a remote call. A submission
//! function returns the request that is to be forwarded to the remote
//! processor, and waiting for an operation is decided round by round.

use vstd::prelude::*;
use vstd::string::{StrSliceExecFns, StringExecFns};
use crate::address::{
    address_decoding, address_is_shielded, address_is_valid, decode_checked, is_shielded_address, parse_address,
    parse_address_spec, Receivers,
};
use crate::client::{operation_params, RpcClient};
use crate::error::{Error, ValidationError};
use crate::fees::{calculate_fee_from_payments, estimated_fee, saturate};
use crate::rpc::{Payment, RpcCall, RpcCallView};
use crate::transaction::poller::{is_report_of, wait_budget, wait_outcome, OperationPoller, Poll, WaitOutcome};
use crate::types::Network;

pub mod poller;
pub mod requests;

verus! {

/// Maximum memo size in bytes (Zcash protocol limit).
pub const MAX_MEMO_SIZE: usize = 512;

/// Maximum amount of one payment, in zatoshis: the total supply of
/// 21 million ZEC.
pub const MAX_AMOUNT_ZATOSHIS: i64 = 2_100_000_000_000_000;

/// An amount is acceptable when it is positive and within the total supply.
pub open spec fn amount_is_valid(amount: int) -> bool {
    0 < amount <= 2_100_000_000_000_000
}

/// The rule that a payment breaks, given its recipient, the active network,
/// its amount, the size of its memo where it has one, and its position in
/// the batch; `None` where it breaks none. The rules are tried in this order:
/// the amount, the size of the memo, a memo to a recipient that is not
/// shielded, and the recipient address itself, which must be an address of
/// the active network.
pub open spec fn rule_violation(
    address: Seq<char>,
    network: Network,
    amount: int,
    memo_size: Option<nat>,
    index: usize,
) -> Option<ValidationError> {
    if !amount_is_valid(amount) {
        Some(ValidationError::InvalidAmount { index })
    } else if memo_size is Some && memo_size->Some_0 > 512 {
        Some(ValidationError::MemoTooLarge { index, length: memo_size->Some_0 as usize })
    } else {
        match address_decoding(address, network) {
            Ok(receivers) => if memo_size is Some && !receivers.is_shielded() {
                Some(ValidationError::MemoOnTransparentAddress { index })
            } else {
                None
            },
            Err(_) => Some(ValidationError::InvalidAddress { index }),
        }
    }
}

/// The rule that a payment at position `index` of a batch breaks, or `None`
/// where it breaks none.
pub open spec fn payment_violation(payment: Payment, network: Network, index: usize) -> Option<ValidationError> {
    rule_violation(payment.address@, network, payment.amount as int, payment.memo_size(), index)
}

/// No payment among the first `count` of the batch breaks a rule.
pub open spec fn valid_up_to(payments: Seq<Payment>, network: Network, count: int) -> bool {
    forall|i: int| 0 <= i < count && i < payments.len() ==> (#[trigger] payment_violation(payments[i], network, i as usize)) is None
}

/// Every payment of the batch passes validation.
pub open spec fn batch_is_valid(payments: Seq<Payment>, network: Network) -> bool {
    valid_up_to(payments, network, payments.len() as int)
}

/// `violation` is what the first offending payment of the batch breaks.
pub open spec fn is_first_violation(payments: Seq<Payment>, network: Network, violation: ValidationError) -> bool {
    &&& violation.spec_index() < payments.len()
    &&& valid_up_to(payments, network, violation.spec_index() as int)
    &&& payment_violation(payments[violation.spec_index() as int], network, violation.spec_index()) == Some(
        violation,
    )
}

/// Validate one payment of a batch, given its position.
pub fn validate_payment(payment: &Payment, index: usize, network: Network) -> (verdict: std::result::Result<(), ValidationError>)
    ensures
        match verdict {
            Ok(()) => payment_violation(*payment, network, index) is None,
            Err(violation) => payment_violation(*payment, network, index) == Some(violation),
        },
{
    if payment.amount <= 0 || payment.amount > MAX_AMOUNT_ZATOSHIS {
        return Err(ValidationError::InvalidAmount { index });
    }
    let has_memo = match &payment.memo {
        Some(memo) => {
            let length = memo.len();
            if length > MAX_MEMO_SIZE {
                return Err(ValidationError::MemoTooLarge { index, length });
            }
            true
        },
        None => false,
    };
    assert(has_memo == (payment.memo is Some));
    assert(payment.memo_size() is Some ==> payment.memo_size()->Some_0 <= 512);
    match decode_checked(payment.address.as_str(), network) {
        Some(receivers) => {
            if has_memo && !(receivers.sapling || receivers.orchard) {
                Err(ValidationError::MemoOnTransparentAddress { index })
            } else {
                Ok(())
            }
        },
        None => Err(ValidationError::InvalidAddress { index }),
    }
}

/// Validate every payment of a batch and report the first violation.
pub fn validate_payments(payments: &[Payment], network: Network) -> (verdict: std::result::Result<(), ValidationError>)
    ensures
        match verdict {
            Ok(()) => batch_is_valid(payments@, network),
            Err(violation) => is_first_violation(payments@, network, violation),
        },
{
    let mut i: usize = 0;
    while i < payments.len()
        invariant
            i <= payments@.len(),
            valid_up_to(payments@, network, i as int),
        decreases payments@.len() - i,
    {
        match validate_payment(&payments[i], i, network) {
            Ok(()) => {},
            Err(violation) => {
                return Err(violation);
            },
        }
        i = i + 1;
    }
    Ok(())
}

/// The violations of a batch as a sequence: those of the first `count`
/// payments, in the order of the payments.
pub open spec fn violations_of(payments: Seq<Payment>, network: Network, count: nat) -> Seq<ValidationError>
    decreases count,
{
    if count == 0 || count > payments.len() {
        Seq::<ValidationError>::empty()
    } else {
        let before = violations_of(payments, network, (count - 1) as nat);
        match payment_violation(payments[count - 1], network, (count - 1) as usize) {
            Some(violation) => before.push(violation),
            None => before,
        }
    }
}

/// Validate every payment of a batch and report all violations, in the
/// order of the payments.
pub fn collect_violations(payments: &[Payment], network: Network) -> (violations: Vec<ValidationError>)
    ensures
        violations@ == violations_of(payments@, network, payments@.len()),
{
    let mut violations: Vec<ValidationError> = Vec::new();
    let mut i: usize = 0;
    while i < payments.len()
        invariant
            i <= payments@.len(),
            violations@ == violations_of(payments@, network, i as nat),
        decreases payments@.len() - i,
    {
        match validate_payment(&payments[i], i, network) {
            Ok(()) => {},
            Err(violation) => {
                violations.push(violation);
            },
        }
        i = i + 1;
    }
    violations
}

/// An amount that is not positive, or that exceeds the total supply, is
/// refused as an invalid amount whatever else the payment holds; any other
/// amount is never the reason for a refusal.
pub proof fn lemma_amount_rule(payment: Payment, network: Network, index: usize)
    ensures
        payment.amount <= 0 || payment.amount > 2_100_000_000_000_000 ==> payment_violation(payment, network, index)
            == Some(ValidationError::InvalidAmount { index }),
        0 < payment.amount <= 2_100_000_000_000_000 ==> payment_violation(payment, network, index) != Some(
            ValidationError::InvalidAmount { index },
        ),
{
}

/// With an acceptable amount, a memo of more than 512 bytes is refused as
/// too large, whatever the recipient address and the network are.
pub proof fn lemma_memo_size_rule(payment: Payment, network: Network, index: usize)
    requires
        amount_is_valid(payment.amount as int),
        payment.memo is Some,
        payment.memo->Some_0@.len() > 512,
    ensures
        payment_violation(payment, network, index) == Some(
            ValidationError::MemoTooLarge { index, length: payment.memo->Some_0@.len() as usize },
        ),
{
}

/// With an acceptable amount and a memo of acceptable size, a payment that
/// carries a memo to an address without a shielded receiver is refused.
pub proof fn lemma_memo_on_transparent_rule(payment: Payment, network: Network, index: usize, receivers: Receivers)
    requires
        amount_is_valid(payment.amount as int),
        payment.memo is Some,
        payment.memo->Some_0@.len() <= 512,
        address_decoding(payment.address@, network) == Ok::<Receivers, Seq<char>>(receivers),
        !receivers.sapling && !receivers.orchard,
    ensures
        payment_violation(payment, network, index) == Some(ValidationError::MemoOnTransparentAddress { index }),
{
}

/// With an acceptable amount and a memo of acceptable size, a payment to a
/// string that is no address, or to an address of another network than the
/// active one, is refused as an invalid address.
pub proof fn lemma_address_rule(payment: Payment, network: Network, index: usize)
    requires
        amount_is_valid(payment.amount as int),
        payment.memo is Some ==> payment.memo->Some_0@.len() <= 512,
        !address_is_valid(payment.address@, network),
    ensures
        payment_violation(payment, network, index) == Some(ValidationError::InvalidAddress { index }),
        crate::address::address_parse(payment.address@) is Err || crate::address::network_mismatch(
            payment.address@,
            network.spec_consensus_network(),
        ) is Some,
{
}

/// A batch passes validation exactly when it has no violation to report.
pub proof fn lemma_valid_batch_has_no_violations(payments: Seq<Payment>, network: Network)
    ensures
        batch_is_valid(payments, network) <==> violations_of(payments, network, payments.len()).len() == 0,
{
    lemma_violations_prefix(payments, network, payments.len());
}

/// The first `count` payments are all valid exactly when they contribute no
/// violation.
pub proof fn lemma_violations_prefix(payments: Seq<Payment>, network: Network, count: nat)
    requires
        count <= payments.len(),
    ensures
        valid_up_to(payments, network, count as int) <==> violations_of(payments, network, count).len() == 0,
    decreases count,
{
    if count > 0 {
        lemma_violations_prefix(payments, network, (count - 1) as nat);
        let last = payment_violation(payments[count - 1], network, (count - 1) as usize);
        if valid_up_to(payments, network, count as int) {
            assert(last is None);
            assert(valid_up_to(payments, network, count - 1));
        }
        if violations_of(payments, network, count).len() == 0 {
            assert(last is None);
            assert(valid_up_to(payments, network, count - 1));
            assert forall|i: int| 0 <= i < count && i < payments.len() implies (#[trigger] payment_violation(
                payments[i],
                network,
                i as usize,
            )) is None by {
                if i < count - 1 {
                } else {
                    assert(i == count - 1);
                }
            }
        }
    }
}

/// A validated batch, ready to be forwarded to the remote processor.
#[derive(Debug, Clone, PartialEq, Eq)]
pub struct SendManyRequest {
    /// Source address.
    pub from_address: String,
    /// The payments, as the caller gave them.
    pub payments: Vec<Payment>,
    /// Minimum confirmations for the source funds; the processor's default
    /// is 1.
    pub minconf: Option<u32>,
    /// Explicit fee in zatoshis, overriding the processor's own.
    pub fee: Option<u64>,
}

/// Transaction builder for creating and sending Zcash transactions through
/// the Payment API of a `zcashd` node.
#[derive(Debug, Clone, PartialEq, Eq)]
pub struct TransactionBuilder {
    /// The network whose addresses the builder accepts.
    pub network: Network,
    /// The node that transactions are sent to, once it is known.
    pub rpc_client: Option<RpcClient>,
}

/// Message of the error for a builder without a node to send to.
pub open spec fn not_configured_text() -> Seq<char> {
    "RPC client not configured"@
}

/// What a submission owes for one source address and a batch described by
/// `first_violation`, the rule that its first offending payment breaks if any
/// does: the error for a builder without a node, else the error for a source
/// address that does not parse, else that violation, else success.
pub open spec fn is_submission_result<T>(
    configured: bool,
    from_address: Seq<char>,
    network: Network,
    first_violation: Option<ValidationError>,
    result: std::result::Result<T, Error>,
) -> bool {
    match result {
        Ok(_) => configured && address_is_valid(from_address, network) && first_violation is None,
        Err(Error::Transaction(message)) => !configured && message@ == not_configured_text(),
        Err(Error::Address(message)) => configured && parse_address_spec(from_address, network) == Err::<
            Receivers,
            Seq<char>,
        >(message@),
        Err(Error::Validation(violation)) => configured && address_is_valid(from_address, network)
            && first_violation == Some(violation),
        Err(_) => false,
    }
}

/// The bytes of an optional memo given as text.
pub open spec fn memo_bytes_of(memo: Option<String>) -> Option<Seq<u8>> {
    match memo {
        Some(text) => Some(vstd::utf8::encode_utf8(text@)),
        None => None,
    }
}

/// The size in bytes of an optional memo given as text.
pub open spec fn text_memo_size(memo: Option<String>) -> Option<nat> {
    match memo {
        Some(text) => Some(vstd::utf8::encode_utf8(text@).len()),
        None => None,
    }
}

/// The bytes of an optional memo, as a mathematical value.
pub open spec fn memo_view(memo: Option<Vec<u8>>) -> Option<Seq<u8>> {
    match memo {
        Some(bytes) => Some(bytes@),
        None => None,
    }
}

impl TransactionBuilder {
    /// Create a new transaction builder for a network. Transactions can be
    /// checked but not sent until an RPC client is set.
    pub fn new(network: Network) -> (builder: TransactionBuilder)
        ensures
            builder.network == network,
            builder.rpc_client is None,
    {
        TransactionBuilder { network, rpc_client: None }
    }

    /// Create a new transaction builder with an RPC client.
    pub fn with_rpc_client(network: Network, rpc_client: RpcClient) -> (builder: TransactionBuilder)
        ensures
            builder.network == network,
            builder.rpc_client == Some(rpc_client),
    {
        TransactionBuilder { network, rpc_client: Some(rpc_client) }
    }

    /// Set the RPC client for sending transactions.
    pub fn set_rpc_client(&mut self, rpc_client: RpcClient)
        ensures
            final(self).network == old(self).network,
            final(self).rpc_client == Some(rpc_client),
    {
        self.rpc_client = Some(rpc_client);
    }

    /// Estimate the ZIP-317 fee, in zatoshis, for a batch sent from
    /// `from_address`. The estimate saturates at `u64::MAX`.
    pub fn estimate_fee(&self, payments: &[Payment], from_address: &str) -> (fee: std::result::Result<u64, Error>)
        ensures
            match fee {
                Ok(zatoshis) => {
                    &&& address_is_valid(from_address@, self.network)
                    &&& zatoshis == saturate(
                        estimated_fee(payments@.len(), address_is_shielded(from_address@, self.network)),
                    )
                },
                Err(Error::Address(message)) => parse_address_spec(from_address@, self.network) == Err::<
                    Receivers,
                    Seq<char>,
                >(message@),
                Err(_) => false,
            },
    {
        match is_shielded_address(from_address, self.network) {
            Ok(has_shielded_input) => Ok(calculate_fee_from_payments(payments, has_shielded_input)),
            Err(e) => Err(e),
        }
    }

    /// Check a batch of payments and build the request that sends it.
    ///
    /// Fails, in this order, where the builder has no RPC client, where the
    /// source is not an address of the builder's network, and where a payment
    /// breaks a rule: then with the violation of the first such payment. Otherwise the request
    /// holds the arguments unchanged; nothing of a refused batch is sent.
    pub fn send_many(&self, from_address: &str, payments: Vec<Payment>, minconf: Option<u32>, fee: Option<u64>) -> (result:
        std::result::Result<SendManyRequest, Error>)
        ensures
            match result {
                Ok(request) => {
                    &&& self.rpc_client is Some
                    &&& address_is_valid(from_address@, self.network)
                    &&& batch_is_valid(payments@, self.network)
                    &&& request.from_address@ == from_address@
                    &&& request.payments == payments
                    &&& request.minconf == minconf
                    &&& request.fee == fee
                },
                Err(Error::Transaction(message)) => self.rpc_client is None && message@ == not_configured_text(),
                Err(Error::Address(message)) => self.rpc_client is Some && parse_address_spec(
                    from_address@,
                    self.network,
                ) == Err::<Receivers, Seq<char>>(message@),
                Err(Error::Validation(violation)) => {
                    &&& self.rpc_client is Some
                    &&& address_is_valid(from_address@, self.network)
                    &&& is_first_violation(payments@, self.network, violation)
                },
                Err(_) => false,
            },
    {
        if self.rpc_client.is_none() {
            return Err(Error::Transaction(String::from_str("RPC client not configured")));
        }
        match parse_address(from_address, self.network) {
            Ok(_) => {},
            Err(e) => {
                return Err(e);
            },
        }
        match validate_payments(payments.as_slice(), self.network) {
            Ok(()) => {},
            Err(violation) => {
                return Err(Error::Validation(violation));
            },
        }
        Ok(SendManyRequest { from_address: String::from_str(from_address), payments, minconf, fee })
    }

    /// Send a simple payment to a single address: builds the batch of that
    /// one payment and checks it as `send_many` does.
    pub fn send_to_address(
        &self,
        from_address: &str,
        to_address: &str,
        amount: i64,
        memo: Option<String>,
        minconf: Option<u32>,
        fee: Option<u64>,
    ) -> (result: std::result::Result<SendManyRequest, Error>)
        ensures
            is_submission_result(
                self.rpc_client is Some,
                from_address@,
                self.network,
                rule_violation(to_address@, self.network, amount as int, text_memo_size(memo), 0),
                result,
            ),
            result matches Ok(request) ==> {
                &&& request.from_address@ == from_address@
                &&& request.payments@.len() == 1
                &&& request.payments@[0].address@ == to_address@
                &&& request.payments@[0].amount == amount
                &&& memo_view(request.payments@[0].memo) == memo_bytes_of(memo)
                &&& request.minconf == minconf
                &&& request.fee == fee
            },
    {
        let bytes = match &memo {
            Some(text) => Some(text.as_str().as_bytes_vec()),
            None => None,
        };
        let payment = Payment { address: String::from_str(to_address), amount, memo: bytes };
        let ghost only = payment;
        let mut payments: Vec<Payment> = Vec::new();
        payments.push(payment);
        let ghost batch = payments@;
        let result = self.send_many(from_address, payments, minconf, fee);
        proof {
            assert(batch.len() == 1 && batch[0] == only);
            assert(payment_violation(only, self.network, 0) == rule_violation(
                to_address@,
                self.network,
                amount as int,
                text_memo_size(memo),
                0,
            ));
            match result {
                Ok(_) => {
                    assert(payment_violation(batch[0int], self.network, 0int as usize) is None);
                },
                Err(Error::Validation(violation)) => {
                    assert(violation.spec_index() == 0);
                },
                _ => {},
            }
        }
        result
    }
}

impl TransactionBuilder {
    /// The call that asks the node for the status of a transaction
    /// operation; an error where the builder has no RPC client.
    pub fn get_operation_status(&self, operation_id: &str) -> (call: std::result::Result<RpcCall, Error>)
        ensures
            match call {
                Ok(c) => self.rpc_client is Some && c@ == (RpcCallView {
                    method: "z_getoperationstatus"@,
                    params: operation_params(operation_id@),
                }),
                Err(Error::Transaction(message)) => self.rpc_client is None && message@ == not_configured_text(),
                Err(_) => false,
            },
    {
        match &self.rpc_client {
            Some(client) => Ok(client.z_getoperationstatus(operation_id)),
            None => Err(Error::Transaction(String::from_str("RPC client not configured"))),
        }
    }

    /// The call that asks the node for the result of a transaction
    /// operation; an error where the builder has no RPC client.
    pub fn get_operation_result(&self, operation_id: &str) -> (call: std::result::Result<RpcCall, Error>)
        ensures
            match call {
                Ok(c) => self.rpc_client is Some && c@ == (RpcCallView {
                    method: "z_getoperationresult"@,
                    params: operation_params(operation_id@),
                }),
                Err(Error::Transaction(message)) => self.rpc_client is None && message@ == not_configured_text(),
                Err(_) => false,
            },
    {
        match &self.rpc_client {
            Some(client) => Ok(client.z_getoperationresult(operation_id)),
            None => Err(Error::Transaction(String::from_str("RPC client not configured"))),
        }
    }

    /// Wait for a transaction operation to complete, over recorded rounds of
    /// polling: each round holds the clock reading taken before the status
    /// request and the records that the request returned.
    ///
    /// Returns the result identifier of the first success, the remote reason
    /// of the first failure, the error of the first status request that
    /// failed, or a timeout once a clock reading exceeds `max_wait_seconds`
    /// (300 where none is given); `None` where the rounds end with the
    /// operation still pending. A builder without an RPC client
    /// cannot ask for the status: its first round ends the wait with an error
    /// unless the clock has already passed the budget.
    pub fn wait_for_operation(&self, operation_id: &str, max_wait_seconds: Option<u64>, polls: &[Poll]) -> (result: Option<
        std::result::Result<String, Error>,
    >)
        ensures
            self.rpc_client is Some ==> is_report_of(
                wait_outcome(wait_budget(max_wait_seconds), polls@, 0),
                operation_id@,
                result,
            ),
            self.rpc_client is None && polls@.len() == 0 ==> result is None,
            self.rpc_client is None && polls@.len() > 0 && polls@[0].elapsed_seconds > wait_budget(max_wait_seconds)
                ==> is_report_of(
                WaitOutcome::TimedOut { waited_seconds: wait_budget(max_wait_seconds) },
                operation_id@,
                result,
            ),
            self.rpc_client is None && polls@.len() > 0 && polls@[0].elapsed_seconds <= wait_budget(max_wait_seconds)
                ==> {
                &&& result matches Some(Err(Error::Transaction(message)))
                &&& message@ == not_configured_text()
            },
    {
        let poller = OperationPoller::new(String::from_str(operation_id), max_wait_seconds);
        if self.rpc_client.is_none() {
            if polls.len() == 0 {
                return None;
            }
            if polls[0].elapsed_seconds > poller.max_wait_seconds {
                let outcome = WaitOutcome::TimedOut { waited_seconds: poller.max_wait_seconds };
                return outcome.into_result(operation_id);
            }
            return Some(Err(Error::Transaction(String::from_str("RPC client not configured"))));
        }
        poller.replay(polls).into_result(operation_id)
    }
}

} // verus!
