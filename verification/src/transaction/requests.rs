//! Structured payment requests (ZIP 321) and their conversion into the
//! payments of a batch.

use vstd::prelude::*;
use crate::address::{address_is_valid, decode_checked, parse_address_spec, Receivers};
use crate::error::{Error, ValidationError};
use crate::rpc::{memo_size_of, Payment};
use crate::transaction::{
    amount_is_valid, memo_view, not_configured_text, payment_violation, rule_violation, SendManyRequest,
    TransactionBuilder, MAX_AMOUNT_ZATOSHIS, MAX_MEMO_SIZE,
};
use crate::types::Network;
use zip321::Payment as Zip321Payment;

verus! {

/// A payment of a ZIP 321 transaction request, as the `zip321` crate holds it.
#[verifier::external_type_specification]
#[verifier::external_body]
pub struct ExZip321Payment(Zip321Payment);

/// The parts of a structured payment request that a payment is made from.
#[derive(Debug, Clone, PartialEq, Eq)]
pub struct PaymentRequest {
    /// The encoded recipient address.
    pub address: String,
    /// The requested amount in zatoshis, where the request names one.
    pub amount: Option<u64>,
    /// The raw memo, where the request carries one.
    pub memo: Option<Vec<u8>>,
}

/// The encoding of the recipient address of a ZIP 321 payment.
pub uninterp spec fn zip321_address_text(payment: Zip321Payment) -> Seq<char>;

/// The amount that a ZIP 321 payment asks for, in zatoshis, where it names
/// one.
pub uninterp spec fn zip321_requested_amount(payment: Zip321Payment) -> Option<u64>;

/// The memo of a ZIP 321 payment, where it carries one: the whole array of
/// the memo field, padding included.
pub uninterp spec fn zip321_memo_bytes(payment: Zip321Payment) -> Option<Seq<u8>>;

/// The encoded recipient address of a ZIP 321 payment.
///
/// Calls `zip321::Payment::recipient_address` and `ZcashAddress::encode` on
/// what it returns. The contract only names the text, which depends on the
/// payment alone.
#[verifier::external_body]
fn zip321_recipient(payment: &Zip321Payment) -> (address: String)
    ensures
        address@ == zip321_address_text(*payment),
{
    payment.recipient_address().encode()
}

/// The amount of a ZIP 321 payment in zatoshis, where it names one.
///
/// Calls `zip321::Payment::amount` and converts the `Zatoshis` to `u64`. The
/// contract only names the value, which depends on the payment alone.
#[verifier::external_body]
fn zip321_amount(payment: &Zip321Payment) -> (amount: Option<u64>)
    ensures
        amount == zip321_requested_amount(*payment),
{
    payment.amount().map(u64::from)
}

/// The memo of a ZIP 321 payment, where it carries one.
///
/// Calls `zip321::Payment::memo` and `MemoBytes::as_array`, which hands out
/// the memo's fixed array of 512 bytes, padding included. The contract names
/// the bytes, which depend on the payment alone, and states their number.
#[verifier::external_body]
fn zip321_memo(payment: &Zip321Payment) -> (memo: Option<Vec<u8>>)
    ensures
        memo_view(memo) == zip321_memo_bytes(*payment),
        memo matches Some(bytes) ==> bytes@.len() == 512,
{
    payment.memo().map(|m| m.as_array().to_vec())
}

/// The rule that keeps a request at position `index` from becoming a
/// payment, or `None`. The rules are tried in this order: the recipient must
/// be an address of the active network, the memo must fit 512 bytes, and the
/// amount must be named, positive and within the total supply.
pub open spec fn conversion_violation(request: PaymentRequest, network: Network, index: usize) -> Option<
    ValidationError,
> {
    if !address_is_valid(request.address@, network) {
        Some(ValidationError::InvalidAddress { index })
    } else if request.memo is Some && request.memo->Some_0@.len() > 512 {
        Some(ValidationError::MemoTooLarge { index, length: request.memo->Some_0@.len() as usize })
    } else if request.amount is None || !amount_is_valid(request.amount->Some_0 as int) {
        Some(ValidationError::InvalidAmount { index })
    } else {
        None
    }
}

/// Whether `payment` is what a request converts to: the same recipient, the
/// same amount, and the same memo, byte for byte.
pub open spec fn is_conversion_of(payment: Payment, request: PaymentRequest) -> bool {
    &&& payment.address@ == request.address@
    &&& request.amount == Some(payment.amount as u64)
    &&& payment.amount > 0
    &&& memo_view(payment.memo) == memo_view(request.memo)
}

/// Convert a structured payment request at position `index` into a payment.
/// The memo is carried over as it is.
pub fn convert_payment_request(request: &PaymentRequest, network: Network, index: usize) -> (converted:
    std::result::Result<Payment, ValidationError>)
    ensures
        match converted {
            Ok(payment) => conversion_violation(*request, network, index) is None && is_conversion_of(
                payment,
                *request,
            ),
            Err(violation) => conversion_violation(*request, network, index) == Some(violation),
        },
{
    if decode_checked(request.address.as_str(), network).is_none() {
        return Err(ValidationError::InvalidAddress { index });
    }
    let memo = match &request.memo {
        Some(bytes) => {
            let length = bytes.len();
            if length > MAX_MEMO_SIZE {
                return Err(ValidationError::MemoTooLarge { index, length });
            }
            Some(bytes.clone())
        },
        None => None,
    };
    match request.amount {
        Some(zatoshis) => {
            if zatoshis == 0 || zatoshis > MAX_AMOUNT_ZATOSHIS as u64 {
                Err(ValidationError::InvalidAmount { index })
            } else {
                Ok(Payment { address: request.address.clone(), amount: zatoshis as i64, memo })
            }
        },
        None => Err(ValidationError::InvalidAmount { index }),
    }
}

/// The rule that the payment made from a request breaks, or `None`.
pub open spec fn converted_violation(request: PaymentRequest, network: Network, index: usize) -> Option<
    ValidationError,
> {
    rule_violation(request.address@, network, request.amount->Some_0 as int, memo_size_of(request.memo), index)
}

/// Each of the first `count` requests converts into a payment.
pub open spec fn convertible_up_to(requests: Seq<PaymentRequest>, network: Network, count: int) -> bool {
    forall|i: int|
        0 <= i < count && i < requests.len() ==> (#[trigger] conversion_violation(requests[i], network, i as usize))
            is None
}

/// None of the payments made from the first `count` requests breaks a rule.
pub open spec fn converted_valid_up_to(requests: Seq<PaymentRequest>, network: Network, count: int) -> bool {
    forall|i: int|
        0 <= i < count && i < requests.len() ==> (#[trigger] converted_violation(requests[i], network, i as usize))
            is None
}

/// `violation` is what keeps the first request that does not convert from
/// becoming a payment.
pub open spec fn is_first_conversion_violation(
    requests: Seq<PaymentRequest>,
    network: Network,
    violation: ValidationError,
) -> bool {
    &&& violation.spec_index() < requests.len()
    &&& convertible_up_to(requests, network, violation.spec_index() as int)
    &&& conversion_violation(requests[violation.spec_index() as int], network, violation.spec_index()) == Some(
        violation,
    )
}

/// Every request converts, and `violation` is what the first offending
/// payment among the converted ones breaks.
pub open spec fn is_first_converted_violation(
    requests: Seq<PaymentRequest>,
    network: Network,
    violation: ValidationError,
) -> bool {
    &&& convertible_up_to(requests, network, requests.len() as int)
    &&& violation.spec_index() < requests.len()
    &&& converted_valid_up_to(requests, network, violation.spec_index() as int)
    &&& converted_violation(requests[violation.spec_index() as int], network, violation.spec_index()) == Some(
        violation,
    )
}

/// What a submission of structured requests owes. Conversion comes first:
/// the first request that does not convert decides. Then the batch of
/// converted payments is treated as `send_many` treats any batch.
pub open spec fn is_request_submission_result(
    configured: bool,
    from_address: Seq<char>,
    network: Network,
    requests: Seq<PaymentRequest>,
    minconf: Option<u32>,
    fee: Option<u64>,
    result: std::result::Result<SendManyRequest, Error>,
) -> bool {
    match result {
        Ok(request) => {
            &&& convertible_up_to(requests, network, requests.len() as int)
            &&& configured
            &&& address_is_valid(from_address, network)
            &&& converted_valid_up_to(requests, network, requests.len() as int)
            &&& request.from_address@ == from_address
            &&& request.payments@.len() == requests.len()
            &&& forall|i: int| 0 <= i < requests.len() ==> is_conversion_of(#[trigger] request.payments@[i], requests[i])
            &&& request.minconf == minconf
            &&& request.fee == fee
        },
        Err(Error::Validation(violation)) => {
            ||| is_first_conversion_violation(requests, network, violation)
            ||| (configured && address_is_valid(from_address, network) && is_first_converted_violation(
                requests,
                network,
                violation,
            ))
        },
        Err(Error::Transaction(message)) => {
            &&& convertible_up_to(requests, network, requests.len() as int)
            &&& !configured
            &&& message@ == not_configured_text()
        },
        Err(Error::Address(message)) => {
            &&& convertible_up_to(requests, network, requests.len() as int)
            &&& configured
            &&& parse_address_spec(from_address, network) == Err::<Receivers, Seq<char>>(message@)
        },
        Err(_) => false,
    }
}

/// A payment made from a request breaks exactly the rule that
/// `converted_violation` names for the request.
pub proof fn lemma_converted_payment(payment: Payment, request: PaymentRequest, network: Network, index: usize)
    requires
        is_conversion_of(payment, request),
    ensures
        payment_violation(payment, network, index) == converted_violation(request, network, index),
{
}

/// Whether `request` holds what a ZIP 321 payment says: its recipient, its
/// amount and its memo.
pub open spec fn is_reading_of(request: PaymentRequest, payment: Zip321Payment) -> bool {
    &&& request.address@ == zip321_address_text(payment)
    &&& request.amount == zip321_requested_amount(payment)
    &&& memo_view(request.memo) == zip321_memo_bytes(payment)
}

/// Whether `read` holds, position by position, what the ZIP 321 payments
/// say.
pub open spec fn reads_all(read: Seq<PaymentRequest>, payments: Seq<Zip321Payment>) -> bool {
    &&& read.len() == payments.len()
    &&& forall|k: int| 0 <= k < read.len() ==> is_reading_of(#[trigger] read[k], payments[k])
}

impl TransactionBuilder {
    /// Convert structured payment requests into payments and check the batch
    /// as `send_many` does. A request that does not convert fails the whole
    /// submission with its violation, tagged by its position.
    pub fn send_payment_requests(
        &self,
        from_address: &str,
        requests: &[PaymentRequest],
        minconf: Option<u32>,
        fee: Option<u64>,
    ) -> (result: std::result::Result<SendManyRequest, Error>)
        ensures
            is_request_submission_result(
                self.rpc_client is Some,
                from_address@,
                self.network,
                requests@,
                minconf,
                fee,
                result,
            ),
    {
        let mut payments: Vec<Payment> = Vec::new();
        let mut i: usize = 0;
        while i < requests.len()
            invariant
                i <= requests@.len(),
                payments@.len() == i,
                convertible_up_to(requests@, self.network, i as int),
                forall|j: int| 0 <= j < i ==> is_conversion_of(#[trigger] payments@[j], requests@[j]),
            decreases requests@.len() - i,
        {
            match convert_payment_request(&requests[i], self.network, i) {
                Ok(payment) => {
                    payments.push(payment);
                },
                Err(violation) => {
                    return Err(Error::Validation(violation));
                },
            }
            i = i + 1;
        }
        let ghost batch = payments@;
        proof {
            assert forall|j: int| 0 <= j < batch.len() implies payment_violation(
                #[trigger] batch[j],
                self.network,
                j as usize,
            ) == converted_violation(requests@[j], self.network, j as usize) by {
                lemma_converted_payment(batch[j], requests@[j], self.network, j as usize);
            }
        }
        let result = self.send_many(from_address, payments, minconf, fee);
        proof {
            match &result {
                Ok(request) => {
                    assert(request.payments@ == batch);
                    assert forall|j: int| 0 <= j < requests@.len() implies (#[trigger] converted_violation(
                        requests@[j],
                        self.network,
                        j as usize,
                    )) is None by {
                        assert(payment_violation(batch[j], self.network, j as usize) is None);
                    }
                },
                Err(Error::Validation(violation)) => {
                    let k = (*violation).spec_index() as int;
                    assert forall|j: int| 0 <= j < k implies (#[trigger] converted_violation(
                        requests@[j],
                        self.network,
                        j as usize,
                    )) is None by {
                        assert(payment_violation(batch[j], self.network, j as usize) is None);
                    }
                    assert(payment_violation(batch[k], self.network, k as usize) == converted_violation(
                        requests@[k],
                        self.network,
                        k as usize,
                    ));
                },
                _ => {},
            }
        }
        result
    }

    /// Build and check a transaction from ZIP 321 payments: reads the
    /// recipient, the amount and the memo of each and treats what it read
    /// as `send_payment_requests` treats its requests.
    pub fn send_zip321(
        &self,
        from_address: &str,
        payments: Vec<Zip321Payment>,
        minconf: Option<u32>,
        fee: Option<u64>,
    ) -> (result: std::result::Result<SendManyRequest, Error>)
        ensures
            exists|read: Seq<PaymentRequest>| #[trigger]
                reads_all(read, payments@) && is_request_submission_result(
                    self.rpc_client is Some,
                    from_address@,
                    self.network,
                    read,
                    minconf,
                    fee,
                    result,
                ),
    {
        let mut requests: Vec<PaymentRequest> = Vec::new();
        let mut i: usize = 0;
        while i < payments.len()
            invariant
                i <= payments@.len(),
                requests@.len() == i,
                forall|k: int| 0 <= k < i ==> is_reading_of(#[trigger] requests@[k], payments@[k]),
            decreases payments@.len() - i,
        {
            let payment = &payments[i];
            requests.push(
                PaymentRequest {
                    address: zip321_recipient(payment),
                    amount: zip321_amount(payment),
                    memo: zip321_memo(payment),
                },
            );
            i = i + 1;
        }
        let result = self.send_payment_requests(from_address, requests.as_slice(), minconf, fee);
        assert(reads_all(requests@, payments@));
        result
    }
}

} // verus!
