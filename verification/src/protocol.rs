//! What the schema of the protocol fixes: the versions that the server
//! speaks.

use vstd::prelude::*;

verus! {

/// The constant `JSONRPC_VERSION` of the crate `mcp_schema`: the version
/// of JSON-RPC that the protocol is carried in. Taken on trust, as the
/// crate's source has it: the text `2.0`.
#[verifier::external_body]
pub(crate) fn jsonrpc_version() -> (r: &'static str)
    ensures
        r@ == "2.0"@,
{
    mcp_schema::JSONRPC_VERSION
}

/// The constant `LATEST_PROTOCOL_VERSION` of the crate `mcp_schema`: the
/// version of the protocol that the schema describes. Taken on trust, as
/// the crate's source has it: the text `2024-11-05`.
#[verifier::external_body]
pub(crate) fn latest_protocol_version() -> (r: &'static str)
    ensures
        r@ == "2024-11-05"@,
{
    mcp_schema::LATEST_PROTOCOL_VERSION
}

} // verus!
