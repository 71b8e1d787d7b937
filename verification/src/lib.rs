//! Client library for the API Alerts notification service: events, the
//! request a client sends for one, how the service's reply is read, and the
//! optional process-wide client.

pub mod cli;
pub mod client;
pub mod config;
pub mod event;

pub use client::{
    read_reply, ApiAlertsClient, ApiAlertsError, ApiResponse, HttpReply, PostRequest, SendPlan,
    SendResult, API_URL, INTEGRATION_NAME, INTEGRATION_VERSION, TIMEOUT_SECONDS,
};
pub use config::ApiAlertsConfig;
pub use event::Event;

use vstd::prelude::*;
use crate::client::{default_client, overridden, ClientView};

verus! {

/// The settings held in a global slot.
pub open spec fn slot_view(slot: Option<ApiAlertsClient>) -> Option<ClientView> {
    match slot {
        Some(c) => Some(c@),
        None => None,
    }
}

/// A slot after a client with the settings `c` was offered to it: the first
/// client put in stays.
pub open spec fn first_wins(slot: Option<ClientView>, c: ClientView) -> Option<ClientView> {
    match slot {
        Some(held) => Some(held),
        None => Some(c),
    }
}

/// Puts a client with the key `api_key` into the global slot, if the slot is
/// empty; a slot that holds a client is left as it is (the first call wins).
pub fn configure(slot: &mut Option<ApiAlertsClient>, api_key: &str)
    ensures
        slot_view(*final(slot)) == first_wins(slot_view(*old(slot)), default_client(api_key@)),
        *old(slot) is Some ==> *final(slot) == *old(slot),
        *old(slot) is None ==> (*final(slot) is Some && final(slot)->Some_0@.api_key == api_key@
            && final(slot)->Some_0@ == default_client(api_key@)),
{
    if slot.is_none() {
        *slot = Some(ApiAlertsClient::new(api_key));
    }
}

/// Puts a client with the key `api_key` and the given integration headers
/// and endpoint into the global slot, if the slot is empty; a slot that holds
/// a client is left as it is (the first call wins).
pub fn configure_with_overrides(
    slot: &mut Option<ApiAlertsClient>,
    api_key: &str,
    integration: &str,
    version: &str,
    base_url: &str,
)
    ensures
        slot_view(*final(slot)) == first_wins(
            slot_view(*old(slot)),
            overridden(default_client(api_key@), integration@, version@, base_url@),
        ),
        *old(slot) is Some ==> *final(slot) == *old(slot),
        *old(slot) is None ==> (*final(slot) is Some && final(slot)->Some_0@.api_key == api_key@
            && final(slot)->Some_0@.integration == integration@
            && final(slot)->Some_0@.integration_version == version@
            && final(slot)->Some_0@.base_url == base_url@ && !final(slot)->Some_0@.debug),
{
    if slot.is_none() {
        let mut client = ApiAlertsClient::new(api_key);
        client.set_overrides(integration, version, base_url);
        *slot = Some(client);
    }
}

/// The client in the global slot, or `NotConfigured` when there is none.
pub fn global_client(slot: &Option<ApiAlertsClient>) -> (r: Result<&ApiAlertsClient, ApiAlertsError>)
    ensures
        match *slot {
            Some(c) => r matches Ok(held) && *held == c,
            None => r matches Err(ApiAlertsError::NotConfigured),
        },
{
    match slot {
        Some(c) => Ok(c),
        None => Err(ApiAlertsError::NotConfigured),
    }
}

/// Once the global slot holds a client, configuring again leaves it as it
/// is: whatever slot it started from, the first client put in is kept.
pub proof fn lemma_first_configure_wins(slot: Option<ClientView>, first: ClientView, later: ClientView)
    ensures
        first_wins(first_wins(slot, first), later) == first_wins(slot, first),
        slot is Some ==> first_wins(slot, first) == slot,
        slot is None ==> first_wins(first_wins(slot, first), later) == Some(first),
{
}

} // verus!
