//! Compliance and reporting helpers: redaction for safe display and CSV
//! export for audits.

use vstd::prelude::*;
use vstd::string::StringExecFns;
use vstd::utf8::{decode_utf8, encode_utf8, is_char_boundary};
use crate::types::utils::{decimal, magnitude_of, push_decimal, push_zec, zec_decimal};
use crate::types::{Transaction, TransactionStatus};

verus! {

/// A unified full viewing key and the component keys exported with it.
#[derive(Debug, Clone, PartialEq, Eq)]
pub struct ExportedViewingKeys {
    /// Unified Full Viewing Key (encoded).
    pub ufvk: String,
    /// Address of the Sapling viewing key (encoded), if present.
    pub sapling_fvk: Option<String>,
    /// Default address of the transparent external viewing key (encoded), if
    /// present.
    pub transparent_ivk: Option<String>,
}

/// Whether a text of `length` bytes is short enough to be shown whole when
/// `keep_start` and `keep_end` bytes are to stay visible.
pub open spec fn shown_whole(length: nat, keep_start: usize, keep_end: usize) -> bool {
    length <= keep_start + keep_end + 1
}

/// The redacted form of a text: its first `keep_start` bytes, an ellipsis,
/// and its last `keep_end` bytes.
pub open spec fn redacted(input: Seq<char>, keep_start: usize, keep_end: usize) -> Seq<char> {
    let bytes = encode_utf8(input);
    decode_utf8(bytes.subrange(0, keep_start as int)) + "…"@ + decode_utf8(
        bytes.subrange(bytes.len() - keep_end, bytes.len() as int),
    )
}

/// Redact a Zcash address or key for safe display or logging.
///
/// Keeps the first `keep_start` and the last `keep_end` bytes visible and
/// replaces the middle with '…'. A text with at most one byte to hide is
/// returned whole. Both cuts must fall between characters.
pub fn redact_middle(input: &str, keep_start: usize, keep_end: usize) -> (output: String)
    requires
        keep_start + keep_end + 1 <= usize::MAX,
        !shown_whole(encode_utf8(input@).len(), keep_start, keep_end) ==> {
            &&& is_char_boundary(encode_utf8(input@), keep_start as int)
            &&& is_char_boundary(encode_utf8(input@), encode_utf8(input@).len() - keep_end)
        },
    ensures
        shown_whole(encode_utf8(input@).len(), keep_start, keep_end) ==> output@ == input@,
        !shown_whole(encode_utf8(input@).len(), keep_start, keep_end) ==> output@ == redacted(
            input@,
            keep_start,
            keep_end,
        ),
{
    broadcast use vstd::utf8::encode_utf8_decode_utf8;

    let length = input.as_bytes().len();
    if length <= keep_start + keep_end + 1 {
        return String::from_str(input);
    }
    let (start, _) = input.split_at(keep_start);
    let (_, end) = input.split_at(length - keep_end);
    let mut output = String::from_str(start);
    output.append("…");
    output.append(end);
    proof {
        let bytes = encode_utf8(input@);
        assert(encode_utf8(start@) == bytes.subrange(0, keep_start as int));
        assert(encode_utf8(end@) == bytes.subrange(bytes.len() - keep_end, bytes.len() as int));
        assert(start@ == decode_utf8(encode_utf8(start@)));
        assert(end@ == decode_utf8(encode_utf8(end@)));
    }
    output
}

/// The text with every comma replaced by a semicolon.
pub open spec fn without_commas(text: Seq<char>) -> Seq<char> {
    Seq::new(text.len(), |i: int| if text[i] == ',' { ';' } else { text[i] })
}

/// Replaces every comma of a text by a semicolon.
///
/// Calls `str::replace` with the pattern ',' and the replacement ";": every
/// match is replaced and everything else is kept in place.
#[verifier::external_body]
fn replace_commas(text: &str) -> (replaced: String)
    ensures
        replaced@ == without_commas(text@),
{
    text.replace(',', ";")
}

/// The header line of the CSV export.
pub open spec fn csv_header() -> Seq<char> {
    "txid,status,height,amount_zec,fee_zec,memo\n"@
}

/// The status column of a transaction.
pub open spec fn csv_status(status: TransactionStatus) -> Seq<char> {
    match status {
        TransactionStatus::Pending => "pending"@,
        TransactionStatus::Confirmed { .. } => "confirmed"@,
        TransactionStatus::Rejected => "rejected"@,
    }
}

/// The height column of a transaction: empty unless it is confirmed.
pub open spec fn csv_height(status: TransactionStatus) -> Seq<char> {
    match status {
        TransactionStatus::Confirmed { height } => decimal(height as nat),
        _ => Seq::<char>::empty(),
    }
}

/// The memo column of a transaction: the memo without commas, or empty.
pub open spec fn csv_memo(memo: Option<String>) -> Seq<char> {
    match memo {
        Some(text) => without_commas(text@),
        None => Seq::<char>::empty(),
    }
}

/// The line of one transaction: identifier, status, height, amount and fee
/// in ZEC with eight decimal places, and memo.
pub open spec fn csv_line(tx: Transaction) -> Seq<char> {
    tx.txid@ + ","@ + csv_status(tx.status) + ","@ + csv_height(tx.status) + ","@ + zec_decimal(tx.amount as int)
        + ","@ + zec_decimal(tx.fee as int) + ","@ + csv_memo(tx.memo) + "\n"@
}

/// The lines of the first `count` transactions, in order.
pub open spec fn csv_lines(transactions: Seq<Transaction>, count: nat) -> Seq<char>
    decreases count,
{
    if count == 0 || count > transactions.len() {
        Seq::<char>::empty()
    } else {
        csv_lines(transactions, (count - 1) as nat) + csv_line(transactions[count - 1])
    }
}

/// Appends the line of one transaction to `out`.
fn push_csv_line(out: &mut String, tx: &Transaction)
    ensures
        final(out)@ == old(out)@ + csv_line(*tx),
{
    out.append(tx.txid.as_str());
    out.append(",");
    match tx.status {
        TransactionStatus::Pending => {
            out.append("pending");
            out.append(",");
        },
        TransactionStatus::Confirmed { height } => {
            out.append("confirmed");
            out.append(",");
            push_decimal(out, height);
        },
        TransactionStatus::Rejected => {
            out.append("rejected");
            out.append(",");
        },
    }
    out.append(",");
    push_zec(out, tx.amount < 0, magnitude_of(tx.amount));
    out.append(",");
    push_zec(out, false, tx.fee);
    out.append(",");
    match &tx.memo {
        Some(memo) => {
            let cleaned = replace_commas(memo.as_str());
            out.append(cleaned.as_str());
        },
        None => {},
    }
    out.append("\n");
    assert(final(out)@ =~= old(out)@ + csv_line(*tx));
}

/// Export transactions to a simple CSV for audits.
///
/// Columns: txid, status, height, amount_zec, fee_zec, memo.
pub fn export_transactions_csv(transactions: &[Transaction]) -> (csv: String)
    ensures
        csv@ == csv_header() + csv_lines(transactions@, transactions@.len()),
{
    let mut csv = String::from_str("txid,status,height,amount_zec,fee_zec,memo\n");
    let mut i: usize = 0;
    assert(csv@ =~= csv_header() + csv_lines(transactions@, 0));
    while i < transactions.len()
        invariant
            i <= transactions@.len(),
            csv@ == csv_header() + csv_lines(transactions@, i as nat),
        decreases transactions@.len() - i,
    {
        push_csv_line(&mut csv, &transactions[i]);
        i = i + 1;
        assert(csv@ =~= csv_header() + csv_lines(transactions@, i as nat));
    }
    csv
}

} // verus!
