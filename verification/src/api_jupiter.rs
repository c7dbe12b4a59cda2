//! Swap quotes: the request the bot sends for a quote, the parts of a quote
//! that its decisions read, and the price a quote shows.
use vstd::prelude::*;
use crate::json_config::{BotGridConfigType, BuyOrSell};
use crate::ratio::Ratio;
use std::str::FromStr;
use vstd::string::StringSliceAdditionalSpecFns;
use solana_sdk::signature::Keypair;
use solana_sdk::signer::SignerError;
use solana_sdk::transaction::VersionedTransaction;

verus! {

/// The mint of wrapped SOL (`So11111111111111111111111111111111111111112`).
pub const NATIVE_MINT: [u8; 32] = [
    6, 155, 136, 87, 254, 171, 129, 132, 251, 104, 127, 99, 70, 24, 192, 53, 218, 196, 57, 220,
    26, 235, 59, 85, 152, 160, 240, 0, 0, 0, 0, 1,
];

/// The mint of USDC (`EPjFWdd5AufqSSqeM2qN1xzybapC8G4wEGGkZwyTDt1v`).
pub const USDC_MINT: [u8; 32] = [
    198, 250, 122, 243, 190, 219, 173, 58, 61, 101, 243, 106, 171, 201, 116, 49, 177, 187, 228,
    194, 210, 246, 224, 228, 124, 166, 2, 3, 69, 47, 93, 97,
];

/// Slippage the bot accepts on every quote, in basis points.
pub const SLIPPAGE_BPS: u16 = 100;

/// Why a base58 address was refused.
#[derive(Clone, Copy, Debug, PartialEq, Eq, Structural)]
pub enum AddressError {
    /// The text does not decode to exactly 32 bytes.
    WrongSize,
    /// The text holds a character outside the base58 alphabet.
    Invalid,
}

/// What `Pubkey::from_str` of `solana_program` gives for a text: the 32 bytes
/// of the address, or why the text was refused.
pub uninterp spec fn pubkey_from_str(s: Seq<char>) -> Result<Seq<u8>, AddressError>;

/// Decodes a base58 address with `solana_program::pubkey::Pubkey::from_str`.
/// The contract claims that the result is the one `pubkey_from_str` names for
/// the text, and, as that function's source shows, that a text of more than
/// 44 bytes is refused as `WrongSize`.
#[verifier::external_body]
pub(crate) fn parse_pubkey(s: &str) -> (r: Result<[u8; 32], AddressError>)
    ensures
        match r {
            Ok(b) => pubkey_from_str(s@) == Ok::<Seq<u8>, AddressError>(b@),
            Err(e) => pubkey_from_str(s@) == Err::<Seq<u8>, AddressError>(e),
        },
        r is Ok ==> s.spec_bytes().len() <= 44,
        r matches Err(e) ==> (s.spec_bytes().len() > 44 ==> e == AddressError::WrongSize),
{
    match solana_program::pubkey::Pubkey::from_str(s) {
        Ok(key) => Ok(key.to_bytes()),
        Err(solana_program::pubkey::ParsePubkeyError::WrongSize) => Err(AddressError::WrongSize),
        Err(solana_program::pubkey::ParsePubkeyError::Invalid) => Err(AddressError::Invalid),
    }
}

/// One leg of the route a quote takes.
#[derive(Clone, Copy, Debug, PartialEq, Eq, Structural)]
pub struct SwapLeg {
    pub in_amount: u64,
    pub out_amount: u64,
    pub fee_amount: u64,
}

/// The parts of a swap quote that the bot reads.
#[derive(Clone, Debug, PartialEq, Eq)]
pub struct Quote {
    /// What is paid, in the smallest unit of the input token.
    pub in_amount: u64,
    /// What is received, in the smallest unit of the output token.
    pub out_amount: u64,
    pub slippage_bps: u16,
    pub price_impact_pct: String,
    pub route_plan: Vec<SwapLeg>,
}

/// The quote request for one entry.
#[derive(Clone, Copy, Debug, PartialEq, Eq)]
pub struct CreateQuote {
    pub amount: u64,
    pub input_address: [u8; 32],
    pub output_address: [u8; 32],
    pub slippage_bps: u16,
}

/// Why no quote request could be made for an entry.
#[derive(Clone, Copy, Debug, PartialEq, Eq, Structural)]
pub enum PayloadError {
    /// A buy needs `sol_amount`.
    MissingSolAmount,
    /// A sale needs `token_amount`.
    MissingTokenAmount,
    /// The entry's `contract_address` is not an address.
    InvalidContractAddress(AddressError),
}

/// The amount an entry trades next: its SOL when buying, its tokens when selling.
pub open spec fn trade_amount(c: BotGridConfigType) -> Option<u64> {
    match c.buy_or_sell {
        BuyOrSell::Buy => c.sol_amount,
        BuyOrSell::Sell => c.token_amount,
    }
}

/// Why no quote request can be made for an entry, if so: a missing amount is
/// reported before an address that does not decode.
pub open spec fn payload_error(c: BotGridConfigType) -> Option<PayloadError> {
    match trade_amount(c) {
        None => Some(
            match c.buy_or_sell {
                BuyOrSell::Buy => PayloadError::MissingSolAmount,
                BuyOrSell::Sell => PayloadError::MissingTokenAmount,
            },
        ),
        Some(_) => match pubkey_from_str(c.contract_address@) {
            Err(e) => Some(PayloadError::InvalidContractAddress(e)),
            Ok(_) => None,
        },
    }
}

/// Whether `q` is the quote request for entry `c`: it spends the entry's SOL on
/// the token when buying and sells the entry's tokens for SOL when selling,
/// with 100 bps of slippage.
pub open spec fn payload_for(c: BotGridConfigType, q: CreateQuote) -> bool {
    &&& trade_amount(c) == Some(q.amount)
    &&& q.slippage_bps == 100
    &&& pubkey_from_str(c.contract_address@) matches Ok(token) && match c.buy_or_sell {
        BuyOrSell::Buy => q.input_address == NATIVE_MINT && q.output_address@ == token,
        BuyOrSell::Sell => q.input_address@ == token && q.output_address == NATIVE_MINT,
    }
}

/// The quote request for an entry (see `payload_for`), or why there is none
/// (see `payload_error`).
pub fn prepare_quote_payload(coin_info: &BotGridConfigType) -> (r: Result<CreateQuote, PayloadError>)
    ensures
        r is Ok <==> payload_error(*coin_info) is None,
        r matches Err(e) ==> payload_error(*coin_info) == Some(e),
        r matches Ok(q) ==> payload_for(*coin_info, q),
{
    let amount = match coin_info.buy_or_sell {
        BuyOrSell::Buy => match coin_info.sol_amount {
            Some(a) => a,
            None => return Err(PayloadError::MissingSolAmount),
        },
        BuyOrSell::Sell => match coin_info.token_amount {
            Some(a) => a,
            None => return Err(PayloadError::MissingTokenAmount),
        },
    };
    let token = match parse_pubkey(coin_info.contract_address.as_str()) {
        Ok(t) => t,
        Err(e) => return Err(PayloadError::InvalidContractAddress(e)),
    };
    match coin_info.buy_or_sell {
        BuyOrSell::Buy => Ok(
            CreateQuote {
                amount,
                input_address: NATIVE_MINT,
                output_address: token,
                slippage_bps: SLIPPAGE_BPS,
            },
        ),
        BuyOrSell::Sell => Ok(
            CreateQuote {
                amount,
                input_address: token,
                output_address: NATIVE_MINT,
                slippage_bps: SLIPPAGE_BPS,
            },
        ),
    }
}

/// The price a quote shows, in SOL per token: what is received over what is
/// paid when selling the token, what is paid over what is received when
/// buying it. There is none when either amount is zero.
pub open spec fn quote_price_of(q: Quote, side: BuyOrSell) -> Option<Ratio> {
    if q.in_amount == 0 || q.out_amount == 0 {
        None
    } else {
        match side {
            BuyOrSell::Sell => Some(Ratio { negative: false, num: q.out_amount, den: q.in_amount }),
            BuyOrSell::Buy => Some(Ratio { negative: false, num: q.in_amount, den: q.out_amount }),
        }
    }
}

/// The price a quote shows, in SOL per token (see `quote_price_of`).
pub fn quote_price(quote: &Quote, side: BuyOrSell) -> (r: Option<Ratio>)
    ensures
        r == quote_price_of(*quote, side),
        r matches Some(p) ==> p.valid(),
{
    if quote.in_amount == 0 || quote.out_amount == 0 {
        None
    } else {
        match side {
            BuyOrSell::Sell => Some(Ratio { negative: false, num: quote.out_amount, den: quote.in_amount }),
            BuyOrSell::Buy => Some(Ratio { negative: false, num: quote.in_amount, den: quote.out_amount }),
        }
    }
}

#[verifier::external_type_specification]
#[verifier::external_body]
pub struct ExVersionedTransaction(solana_sdk::transaction::VersionedTransaction);

#[verifier::external_type_specification]
#[verifier::external_body]
pub struct ExKeypair(solana_sdk::signature::Keypair);

#[verifier::external_type_specification]
#[verifier::external_body]
pub struct ExSignerError(solana_sdk::signer::SignerError);

#[verifier::external_type_specification]
#[verifier::external_body]
pub struct ExBincodeErrorKind(bincode::ErrorKind);

/// Why the swap service's transaction could not be made ready to send.
#[derive(Clone, Copy, Debug, PartialEq, Eq, Structural)]
pub enum TxError {
    /// The bytes are not a serialized versioned transaction.
    Malformed,
    /// The keypair cannot sign the transaction's message (it is not the one
    /// signer the message asks for).
    Signing,
}

/// The transaction that `bincode::deserialize` reads from the bytes, if they
/// hold one.
pub uninterp spec fn decoded_transaction(bytes: Seq<u8>) -> Option<VersionedTransaction>;

/// The transaction with its message's recent blockhash replaced by `hash`.
pub uninterp spec fn with_recent_blockhash(t: VersionedTransaction, hash: Seq<u8>) -> VersionedTransaction;

/// The transaction that `VersionedTransaction::try_new` builds from the
/// message of `t` signed by `signer`, if the keypair can sign it.
pub uninterp spec fn signed_by(t: VersionedTransaction, signer: Keypair) -> Option<VersionedTransaction>;

/// Reads a versioned transaction from its wire bytes with `bincode::deserialize`.
/// The contract claims that the call succeeds exactly when `decoded_transaction`
/// names a transaction for the bytes, and then returns that transaction.
#[verifier::external_body]
fn decode_transaction(bytes: &[u8]) -> (r: Result<VersionedTransaction, Box<bincode::ErrorKind>>)
    ensures
        r is Ok <==> decoded_transaction(bytes@) is Some,
        r matches Ok(t) ==> decoded_transaction(bytes@) == Some(t),
{
    bincode::deserialize(bytes)
}

/// Sets the recent blockhash of the transaction's message with
/// `VersionedMessage::set_recent_blockhash`. The contract claims that the
/// transaction afterwards is `with_recent_blockhash` of the one before.
#[verifier::external_body]
fn set_recent_blockhash(t: &mut VersionedTransaction, hash: [u8; 32])
    ensures
        *final(t) == with_recent_blockhash(*old(t), hash@),
{
    t.message.set_recent_blockhash(solana_sdk::hash::Hash::new_from_array(hash));
}

/// Signs the transaction's message with `VersionedTransaction::try_new` and
/// the one keypair. The contract claims that the call succeeds exactly when
/// `signed_by` names a transaction, and then returns it. `try_new` serializes
/// the message and unwraps the result; that cannot fail for a message read by
/// `bincode` (every list in it has a 16-bit length) whose blockhash was then
/// replaced, and the precondition admits only such transactions. What the
/// error is when signing fails is not stated.
#[verifier::external_body]
fn sign_transaction(t: VersionedTransaction, signer: &Keypair) -> (r: Result<VersionedTransaction, SignerError>)
    requires
        exists|bytes: Seq<u8>, hash: Seq<u8>|
            #![trigger with_recent_blockhash(decoded_transaction(bytes)->0, hash)]
            decoded_transaction(bytes) is Some && hash.len() == 32
                && t == with_recent_blockhash(decoded_transaction(bytes)->0, hash),
    ensures
        r is Ok <==> signed_by(t, *signer) is Some,
        r matches Ok(s) ==> signed_by(t, *signer) == Some(s),
{
    VersionedTransaction::try_new(t.message, &[signer])
}

/// What becomes of the swap service's transaction bytes: the transaction they
/// hold, with the given recent blockhash, signed by the keypair; or why not.
pub open spec fn swap_transaction_for(bytes: Seq<u8>, hash: Seq<u8>, signer: Keypair) -> Result<VersionedTransaction, TxError> {
    match decoded_transaction(bytes) {
        None => Err(TxError::Malformed),
        Some(t) => match signed_by(with_recent_blockhash(t, hash), signer) {
            Some(s) => Ok(s),
            None => Err(TxError::Signing),
        },
    }
}

/// Makes the swap service's transaction ready to send: reads it from its
/// bytes, sets its recent blockhash and signs it with the keypair (see
/// `swap_transaction_for`).
pub fn build_swap_transaction(swap_transaction: &[u8], recent_blockhash: [u8; 32], signer: &Keypair) -> (r: Result<VersionedTransaction, TxError>)
    ensures
        r == swap_transaction_for(swap_transaction@, recent_blockhash@, *signer),
{
    let mut tx = match decode_transaction(swap_transaction) {
        Ok(t) => t,
        Err(_) => return Err(TxError::Malformed),
    };
    set_recent_blockhash(&mut tx, recent_blockhash);
    // the witness that `sign_transaction` asks for: the bytes and the blockhash
    assert(tx == with_recent_blockhash(decoded_transaction(swap_transaction@)->0, recent_blockhash@));
    match sign_transaction(tx, signer) {
        Ok(s) => Ok(s),
        Err(_) => Err(TxError::Signing),
    }
}

/// Law: a quote request spends the SOL the entry holds on the token when it
/// buys, and the tokens it holds for SOL when it sells, with 100 bps of
/// slippage; a request can be made exactly when the amount to spend is known
/// and the entry's address decodes.
pub proof fn lemma_payload_spends_the_held_amount(c: BotGridConfigType, q: CreateQuote)
    ensures
        payload_for(c, q) ==> q.slippage_bps == 100 && match c.buy_or_sell {
            BuyOrSell::Buy => c.sol_amount == Some(q.amount) && q.input_address == NATIVE_MINT,
            BuyOrSell::Sell => c.token_amount == Some(q.amount) && q.output_address == NATIVE_MINT,
        },
        payload_error(c) is None <==> ((match c.buy_or_sell {
            BuyOrSell::Buy => c.sol_amount is Some,
            BuyOrSell::Sell => c.token_amount is Some,
        }) && pubkey_from_str(c.contract_address@) is Ok),
{
}

} // verus!
