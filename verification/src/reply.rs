//! Replies to the instantiation of a contract: the address of the new
//! contract, read from the protobuf-encoded data of the reply.

use vstd::prelude::*;
use vstd::string::StringExecFns;

verus! {

/// What `cw_utils::parse_instantiate_response_data` gives for the data of an
/// instantiation reply: the address of the new contract, or the message of
/// the error when the data is not a well-formed response.
pub uninterp spec fn instantiate_response(data: Seq<u8>) -> Result<Seq<char>, Seq<char>>;

/// `cw_utils::parse_instantiate_response_data`: decodes the protobuf message
/// `MsgInstantiateContractResponse` and keeps its contract address; on failure
/// the error's message. What it gives is named, not spelled out: it is a
/// function of the bytes alone.
#[verifier::external_body]
fn cw_parse_instantiate_response(data: &Vec<u8>) -> (r: Result<String, String>)
    ensures
        match r {
            Ok(address) => instantiate_response(data@) == Ok::<Seq<char>, Seq<char>>(address@),
            Err(message) => instantiate_response(data@) == Err::<Seq<char>, Seq<char>>(message@),
        },
{
    match cw_utils::parse_instantiate_response_data(data) {
        Ok(response) => Ok(response.contract_address),
        Err(e) => Err(e.to_string()),
    }
}

/// The message of a reply that carries no data.
pub open spec fn missing_data_message() -> Seq<char> {
    "Invalid reply from sub-message: Missing reply data"@
}

/// The address of the contract instantiated, read from the reply's data, or
/// the message saying why it cannot be read.
pub open spec fn reply_address(data: Option<Seq<u8>>) -> Result<Seq<char>, Seq<char>> {
    match data {
        None => Err(missing_data_message()),
        Some(d) => instantiate_response(d),
    }
}

/// The address of the contract instantiated, read from the reply's data.
pub fn parse_reply_instantiate_data(data: &Option<Vec<u8>>) -> (r: Result<String, String>)
    ensures
        match r {
            Ok(address) => reply_address(opt_bytes(*data)) == Ok::<Seq<char>, Seq<char>>(address@),
            Err(message) => reply_address(opt_bytes(*data)) == Err::<Seq<char>, Seq<char>>(
                message@,
            ),
        },
{
    match data {
        Some(d) => cw_parse_instantiate_response(d),
        None => Err(String::from_str("Invalid reply from sub-message: Missing reply data")),
    }
}

/// The bytes of optional reply data.
pub open spec fn opt_bytes(data: Option<Vec<u8>>) -> Option<Seq<u8>> {
    match data {
        Some(d) => Some(d@),
        None => None,
    }
}

} // verus!
