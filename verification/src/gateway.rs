//! The sequencer gateway's addresses and messages.
use crate::felt::Felt;
use crate::transaction::{BroadcastedInvokeTransaction, InvokeTransactionView};
use crate::uint::two_to_128;
use vstd::prelude::*;

verus! {

/// A URL, carried through as a whole.
#[verifier::external_type_specification]
#[verifier::external_body]
pub struct ExUrl(reqwest::Url);

/// A JSON value, carried through as a whole.
#[verifier::external_type_specification]
#[verifier::external_body]
pub struct ExValue(serde_json::Value);

/// The text of a URL, as `Url::as_str` gives it.
pub uninterp spec fn url_text(url: reqwest::Url) -> Seq<char>;

/// What joining the reference `input` to the URL `base` gives: the text of a URL, or the debug
/// text of the failure.
pub uninterp spec fn url_joined(base: Seq<char>, input: Seq<char>) -> Result<Seq<char>, Seq<char>>;

/// The URL `url` with the pair of `key` and `value` appended to its query.
pub uninterp spec fn url_with_query_pair(url: Seq<char>, key: Seq<char>, value: Seq<char>) -> Seq<
    char,
>;

/// The names of the members of a JSON object; empty for any other JSON value.
pub uninterp spec fn json_keys(value: serde_json::Value) -> Set<Seq<char>>;

/// The members of a JSON object that are strings; empty for any other JSON value.
pub uninterp spec fn json_strings(value: serde_json::Value) -> Map<Seq<char>, Seq<char>>;

/// The members of a JSON object that are arrays of strings only; empty for any other JSON value.
pub uninterp spec fn json_string_lists(value: serde_json::Value) -> Map<Seq<char>, Seq<Seq<char>>>;

/// The lower-case hexadecimal digit for `n`, which is below sixteen.
pub open spec fn hex_char(n: nat) -> char {
    if n < 10 {
        ('0' as int + n) as char
    } else {
        ('a' as int + n - 10) as char
    }
}

/// `n` in hexadecimal, without leading zeros.
pub open spec fn hex_digits(n: nat) -> Seq<char>
    decreases n,
{
    if n < 16 {
        seq![hex_char(n)]
    } else {
        hex_digits(n / 16).push(hex_char(n % 16))
    }
}

/// `n` in hexadecimal, with the prefix `0x`.
pub open spec fn hex_text(n: nat) -> Seq<char> {
    seq!['0', 'x'] + hex_digits(n)
}

/// The numbers `values` in hexadecimal, each on its own.
pub open spec fn hex_texts(values: Seq<nat>) -> Seq<Seq<char>> {
    values.map_values(|n: nat| hex_text(n))
}

/// The members of the JSON form of `transaction` that are strings, where its type is written as
/// `kind`. A transaction that only serves a query has 2^128 added to its version.
pub open spec fn transaction_strings(
    transaction: InvokeTransactionView,
    kind: Seq<char>,
) -> Map<Seq<char>, Seq<char>> {
    map![
        "sender_address"@ => hex_text(transaction.sender_address),
        "max_fee"@ => hex_text(transaction.max_fee),
        "version"@ => hex_text(if transaction.is_query { two_to_128() + 1 } else { 1 }),
        "nonce"@ => hex_text(transaction.nonce),
        "type"@ => kind,
    ]
}

/// The members of the JSON form of `transaction` that are arrays.
pub open spec fn transaction_lists(transaction: InvokeTransactionView) -> Map<
    Seq<char>,
    Seq<Seq<char>>,
> {
    map![
        "calldata"@ => hex_texts(transaction.calldata),
        "signature"@ => hex_texts(transaction.signature),
    ]
}

/// The names of the members of the JSON form of a transaction.
pub open spec fn transaction_keys() -> Set<Seq<char>> {
    set![
        "type"@,
        "sender_address"@,
        "calldata"@,
        "max_fee"@,
        "version"@,
        "signature"@,
        "nonce"@,
    ]
}

/// A transaction's JSON form under one type differs from that under another in the type only.
pub proof fn only_the_type_differs(
    transaction: InvokeTransactionView,
    kind: Seq<char>,
    other: Seq<char>,
)
    ensures
        transaction_strings(transaction, kind)["type"@] == kind,
        transaction_strings(transaction, kind).remove("type"@) == transaction_strings(
            transaction,
            other,
        ).remove("type"@),
{
    assert(transaction_strings(transaction, kind).remove("type"@) =~= transaction_strings(
        transaction,
        other,
    ).remove("type"@));
}

/// `Url::join`, its failure taken by its debug text. The text of the base and the reference alone
/// decide whether it succeeds, and on which URL or failure. How a reference is resolved is not
/// stated.
#[verifier::external_body]
pub(crate) fn join_url(base: &reqwest::Url, input: &str) -> (r: Result<reqwest::Url, String>)
    ensures
        match r {
            Ok(url) => url_joined(url_text(*base), input@) == Ok::<Seq<char>, Seq<char>>(
                url_text(url),
            ),
            Err(text) => url_joined(url_text(*base), input@) == Err::<Seq<char>, Seq<char>>(text@),
        },
{
    base.join(input).map_err(|e| format!("{:?}", e))
}

/// `append_pair` on `Url::query_pairs_mut`. The text of the URL, the key and the value alone decide
/// the text of the URL after it. How the pair is encoded and separated is not stated.
#[verifier::external_body]
pub(crate) fn append_query_pair(url: &mut reqwest::Url, key: &str, value: &str)
    ensures
        url_text(*final(url)) == url_with_query_pair(url_text(*old(url)), key@, value@),
{
    url.query_pairs_mut().append_pair(key, value);
}

/// `serde_json::to_value` on Starknet's own invoke transaction, its failure taken by its debug
/// text. The transaction's fields are written as hexadecimal strings and arrays of such strings,
/// beside its type and its version, none of which can fail.
#[verifier::external_body]
pub(crate) fn transaction_to_value(transaction: &BroadcastedInvokeTransaction) -> (r: Result<
    serde_json::Value,
    String,
>)
    ensures
        r is Ok,
        json_keys(r->Ok_0) == transaction_keys(),
        json_strings(r->Ok_0) == transaction_strings(transaction@, "INVOKE"@),
        json_string_lists(r->Ok_0) == transaction_lists(transaction@),
{
    let felt = |f: &Felt| {
        let bytes = [f.hi.to_be_bytes(), f.lo.to_be_bytes()].concat();
        starknet::core::types::FieldElement::from_byte_slice_be(&bytes).unwrap()
    };
    let transaction = starknet::core::types::BroadcastedInvokeTransaction {
        sender_address: felt(&transaction.sender_address),
        calldata: transaction.calldata.iter().map(felt).collect(),
        max_fee: felt(&transaction.max_fee),
        signature: transaction.signature.iter().map(felt).collect(),
        nonce: felt(&transaction.nonce),
        is_query: transaction.is_query,
    };
    serde_json::to_value(transaction).map_err(|e| format!("{:?}", e))
}

/// `IndexMut` on `serde_json::Value` with a string, and the assignment of a string: it replaces
/// that member of the object and leaves the others as they were. A value that has a string under
/// the name already is an object, so that the index does not panic.
#[verifier::external_body]
pub(crate) fn replace_string_member(value: &mut serde_json::Value, key: &str, text: &str)
    requires
        json_strings(*old(value)).contains_key(key@),
    ensures
        json_keys(*final(value)) == json_keys(*old(value)),
        json_strings(*final(value)) == json_strings(*old(value)).insert(key@, text@),
        json_string_lists(*final(value)) == json_string_lists(*old(value)),
{
    value[key] = text.into();
}

} // verus!
