//! Default settings of the command-line tool built on this library.
use vstd::prelude::*;
use vstd::string::StringExecFns;

verus! {

/// The RPC endpoint used when none is given.
pub fn default_rpc_url() -> (r: String)
    ensures
        r@ == "https://api.mainnet-beta.solana.com"@,
{
    String::from_str("https://api.mainnet-beta.solana.com")
}

/// The address of the candy machine shown when none is given.
pub fn default_public_candy_machine_address() -> (r: String)
    ensures
        r@ == "5GcgyzujqfF6Rh896tKa5EBAXvM9hyXGUtYaUyBLiXco"@,
{
    String::from_str("5GcgyzujqfF6Rh896tKa5EBAXvM9hyXGUtYaUyBLiXco")
}

/// The name of the candy machine shown when none is given.
pub fn default_public_candy_machine_name() -> (r: String)
    ensures
        r@ == "public"@,
{
    String::from_str("public")
}

} // verus!
