//! Plain forms of the ledger's values, and the calls into `ergo_lib` that
//! parse and encode them.

use vstd::prelude::*;

verus! {

/// The network an address belongs to.
#[derive(Clone, Copy, Debug, PartialEq, Eq, Structural)]
pub enum NetworkPrefix {
    Mainnet,
    Testnet,
}

/// A 32-byte digest: a hash of a contract, or the id of a token.
#[derive(Clone, Copy, Debug, PartialEq, Eq)]
pub struct Digest32 {
    pub bytes: [u8; 32],
}

/// An operator's public key as a compressed group element.
#[derive(Clone, Copy, Debug, PartialEq, Eq)]
pub struct PublicKey {
    pub bytes: [u8; 33],
}

/// The error of `ergo_chain_types` for a digest that cannot be read.
#[verifier::external_type_specification]
#[verifier::external_body]
pub struct ExDigestNError(ergo_lib::ergo_chain_types::DigestNError);

/// The error of `ergotree_ir` for a token amount out of bounds.
#[verifier::external_type_specification]
#[verifier::external_body]
pub struct ExTokenAmountError(ergo_lib::ergotree_ir::chain::token::TokenAmountError);

/// The error of `ergotree_ir` for a text that is no address.
#[verifier::external_type_specification]
#[verifier::external_body]
pub struct ExAddressEncoderError(ergo_lib::ergotree_ir::chain::address::AddressEncoderError);

/// The error of `ergotree_ir` for bytes that are no value of the ledger.
#[verifier::external_type_specification]
#[verifier::external_body]
pub struct ExSigmaParsingError(ergo_lib::ergotree_ir::serialization::SigmaParsingError);

/// The value of a base16 digit, in either case.
pub open spec fn hex_value(c: char) -> Option<int> {
    if '0' <= c <= '9' {
        Some(c as int - '0' as int)
    } else if 'a' <= c <= 'f' {
        Some(c as int - 'a' as int + 10)
    } else if 'A' <= c <= 'F' {
        Some(c as int - 'A' as int + 10)
    } else {
        None
    }
}

/// `text` is 64 base16 digits: the text of a 32-byte digest.
pub open spec fn is_digest_text(text: Seq<char>) -> bool {
    &&& text.len() == 64
    &&& forall|i: int| 0 <= i < 64 ==> (#[trigger] hex_value(text[i])) is Some
}

/// The byte that the digits at `2 * i` and `2 * i + 1` of `text` stand for.
pub open spec fn digest_text_byte(text: Seq<char>, i: int) -> int {
    16 * hex_value(text[2 * i])->0 + hex_value(text[2 * i + 1])->0
}

/// `digest` is what `text` stands for.
pub open spec fn digest_of_text(text: Seq<char>, digest: Digest32) -> bool {
    forall|i: int| 0 <= i < 32 ==> #[trigger] digest.bytes@[i] == digest_text_byte(text, i)
}

/// Calls `Digest32::try_from(String)` of `ergo_chain_types`, which decodes
/// base16 with the `base16` crate and wants exactly 32 bytes. The contract
/// claims that it succeeds on 64 digits `0-9`, `a-f`, `A-F` and on nothing
/// else, and that each byte is its two digits, high digit first.
#[verifier::external_body]
pub(crate) fn digest32_from_base16(text: &str) -> (r: Result<
    Digest32,
    ergo_lib::ergo_chain_types::DigestNError,
>)
    ensures
        r is Ok <==> is_digest_text(text@),
        r matches Ok(digest) ==> digest_of_text(text@, digest),
{
    let digest = ergo_lib::ergo_chain_types::Digest32::try_from(text.to_string())?;
    Ok(Digest32 { bytes: digest.0 })
}

/// Calls `TokenAmount::try_from(u64)` of `ergotree_ir`. The contract claims
/// that it accepts the amounts from 1 to `i64::MAX` and hands them back
/// unchanged.
#[verifier::external_body]
pub(crate) fn token_amount_from_raw(amount: u64) -> (r: Result<
    u64,
    ergo_lib::ergotree_ir::chain::token::TokenAmountError,
>)
    ensures
        r is Ok <==> 1 <= amount <= i64::MAX,
        r matches Ok(a) ==> a == amount,
{
    let checked = ergo_lib::ergotree_ir::chain::token::TokenAmount::try_from(amount)?;
    Ok(u64::from(checked))
}

/// The base58 text of the pay-to-public-key address of `key` on `network`;
/// `None` where `key` is no group element.
pub uninterp spec fn p2pk_address_text(network: NetworkPrefix, key: Seq<u8>) -> Option<Seq<char>>;

/// Calls `Address::p2pk_from_pk_bytes`, `NetworkAddress::new` and
/// `NetworkAddress::to_base58` of `ergotree_ir`. The contract claims only that
/// the text is determined by the network and the key's bytes.
#[verifier::external_body]
pub(crate) fn p2pk_address_to_base58(network: NetworkPrefix, key: &PublicKey) -> (r: Result<
    String,
    ergo_lib::ergotree_ir::serialization::SigmaParsingError,
>)
    ensures
        r is Ok <==> p2pk_address_text(network, key.bytes@) is Some,
        r matches Ok(text) ==> p2pk_address_text(network, key.bytes@) == Some(text@),
{
    let address = ergo_lib::ergotree_ir::chain::address::Address::p2pk_from_pk_bytes(&key.bytes)?;
    let prefix = match network {
        NetworkPrefix::Mainnet => ergo_lib::ergotree_ir::chain::address::NetworkPrefix::Mainnet,
        NetworkPrefix::Testnet => ergo_lib::ergotree_ir::chain::address::NetworkPrefix::Testnet,
    };
    Ok(ergo_lib::ergotree_ir::chain::address::NetworkAddress::new(prefix, &address).to_base58())
}

/// The network that the base58 address `text` names; `None` where `text` is
/// no address.
pub uninterp spec fn network_of_address_text(text: Seq<char>) -> Option<NetworkPrefix>;

/// Calls `AddressEncoder::unchecked_parse_network_address_from_str` of
/// `ergotree_ir` and keeps the network of the parsed address. The contract
/// claims only that the outcome is determined by the text.
#[verifier::external_body]
pub(crate) fn network_of_address(text: &str) -> (r: Result<
    NetworkPrefix,
    ergo_lib::ergotree_ir::chain::address::AddressEncoderError,
>)
    ensures
        r is Ok <==> network_of_address_text(text@) is Some,
        r matches Ok(network) ==> network_of_address_text(text@) == Some(network),
{
    let parsed =
        ergo_lib::ergotree_ir::chain::address::AddressEncoder::unchecked_parse_network_address_from_str(
        text,
    )?;
    Ok(
        match parsed.network() {
            ergo_lib::ergotree_ir::chain::address::NetworkPrefix::Mainnet => NetworkPrefix::Mainnet,
            ergo_lib::ergotree_ir::chain::address::NetworkPrefix::Testnet => NetworkPrefix::Testnet,
        },
    )
}

} // verus!
