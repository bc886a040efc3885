//! Names and decisions of the SOCKS5 client's set-up: the identifier a
//! configuration is stored under, and what to do about the gateway.

use vstd::prelude::*;

verus! {

/// The identifier that every stored configuration starts with.
pub const SOCKS5_CONFIG_ID: &'static str = "nym-connect";

/// Why the set-up did not go through.
#[derive(Debug, PartialEq, Eq)]
pub enum BackendError {
    /// The initialisation gave up half way.
    InitializationPanic,
    /// No file name could be made for the configuration.
    CouldNotGetConfigFilename,
    /// The stored gateway configuration could not be read; with the reason.
    CouldNotLoadExistingGatewayConfiguration(String),
}

/// The identifier for the configuration of one gateway: the common
/// identifier, a hyphen, the gateway's.
pub open spec fn config_id_for(gateway_id: Seq<char>) -> Seq<char> {
    SOCKS5_CONFIG_ID@ + "-"@ + gateway_id
}

/// Appends the gateway's identifier to the identifier that configurations are
/// stored under. It never fails.
pub fn socks5_config_id_appended_with(gateway_id: &str) -> (res: Result<String, BackendError>)
    ensures
        res is Ok,
        res.unwrap()@ == config_id_for(gateway_id@),
{
    let mut id = String::from_str(SOCKS5_CONFIG_ID);
    id.append("-");
    id.append(gateway_id);
    Ok(id)
}

/// Whether the client has to register with a gateway: always on a first
/// initialisation, later only where the user insists.
pub fn should_register_gateway(already_init: bool, user_wants_force_register: bool) -> (register:
    bool)
    ensures
        register == (!already_init || user_wants_force_register),
{
    !already_init || user_wants_force_register
}

/// What the set-up does about the gateway.
#[derive(Clone, Copy, Debug, PartialEq, Eq, Structural)]
pub enum GatewaySetup {
    /// Ask for the gateway's details, register with it and store the keys.
    QueryAndRegister,
    /// Ask for the details of the gateway the user chose; keep the keys.
    QueryOnly,
    /// Read the gateway from the configuration that is stored.
    ReuseExisting,
}

/// Decides what to do about the gateway from whether to register and whether
/// the user chose a gateway.
pub fn setup_gateway_plan(register: bool, user_chose_gateway: bool) -> (plan: GatewaySetup)
    ensures
        register ==> plan == GatewaySetup::QueryAndRegister,
        !register && user_chose_gateway ==> plan == GatewaySetup::QueryOnly,
        !register && !user_chose_gateway ==> plan == GatewaySetup::ReuseExisting,
{
    if register {
        GatewaySetup::QueryAndRegister
    } else if user_chose_gateway {
        GatewaySetup::QueryOnly
    } else {
        GatewaySetup::ReuseExisting
    }
}

} // verus!
