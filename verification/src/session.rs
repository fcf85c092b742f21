//! The backend session lifecycle: startup authentication, zone bootstrap
//! gating, and the two-state token-renewal backoff.
//!
//! The loops — sleeping, sending requests, reading responses — run
//! outside the crate; each decision between them is a step function
//! here, so the session can only become ready through a bootstrap that
//! found or created the managed zone, and a failed login at startup can
//! only abort.

use crate::app::AppState;
use crate::bootstrap::BootstrapStep;
use crate::bootstrap::bootstrap_step;
use crate::bootstrap::zone_listed;
use crate::technitium::client::TechnitiumError;
use crate::technitium::models::CreateZoneResponse;
use crate::technitium::models::ListZonesResponse;
use crate::technitium::models::LoginResponse;
use vstd::prelude::*;

verus! {

/// Seconds until the next renewal attempt after a success.
pub const RENEWAL_INTERVAL_SECS: u64 = 1200;

/// Seconds until the retry after a failed renewal attempt.
pub const RENEWAL_RETRY_SECS: u64 = 60;

/// Renewal backoff: a failed attempt retries after the short interval, a
/// successful one schedules the next after the long interval.
pub fn next_renewal_delay(succeeded: bool) -> (r: u64)
    ensures
        r == if succeeded {
            RENEWAL_INTERVAL_SECS
        } else {
            RENEWAL_RETRY_SECS
        },
{
    if succeeded {
        RENEWAL_INTERVAL_SECS
    } else {
        RENEWAL_RETRY_SECS
    }
}

/// One pass of the renewal loop: a fresh token replaces the session
/// snapshot wholesale and earns the long interval; a failure changes
/// nothing and retries after the short one.
pub fn renewal_step(state: &mut AppState, outcome: Result<LoginResponse, TechnitiumError>) -> (delay:
    u64)
    ensures
        match outcome {
            Ok(resp) => {
                &&& delay == RENEWAL_INTERVAL_SECS
                &&& final(state).client.token == resp.token
                &&& final(state).client.base_url == old(state).config.technitium_url
                &&& final(state).client.timeout_secs == crate::HTTP_TIMEOUT_SECS
                &&& final(state).is_ready == old(state).is_ready
                &&& final(state).config == old(state).config
                &&& final(state).use_static_token == old(state).use_static_token
            },
            Err(_) => {
                &&& delay == RENEWAL_RETRY_SECS
                &&& *final(state) == *old(state)
            },
        },
{
    match outcome {
        Ok(resp) => {
            state.replace_session(resp.token);
            RENEWAL_INTERVAL_SECS
        },
        Err(_) => RENEWAL_RETRY_SECS,
    }
}

/// Where startup stands: authenticating, paging the zone listing,
/// creating the zone, serving, or fatally failed.
#[derive(Debug, Clone, Copy, PartialEq, Eq)]
pub enum SetupPhase {
    Authenticating,
    ListingZones(u32),
    CreatingZone,
    Ready,
    Failed,
}

/// What the backend answered between two startup steps.
#[derive(Debug, PartialEq, Eq)]
pub enum SetupEvent {
    LoginResult(Result<LoginResponse, TechnitiumError>),
    ZonePage(Result<ListZonesResponse, TechnitiumError>),
    ZoneCreated(Result<CreateZoneResponse, TechnitiumError>),
}

/// What the startup driver must do next.
#[derive(Debug, Clone, Copy, PartialEq, Eq)]
pub enum SetupAction {
    /// Send the login call with the configured credentials.
    SendLogin,
    /// Send the zone-listing call for this page.
    RequestZonePage(u32),
    /// Send the forwarding-zone creation call for the managed zone.
    SendCreateZone,
    /// Bootstrap is complete: the service now serves traffic.
    ServeTraffic,
    /// A fatal startup failure: the process must exit.
    Abort,
}

/// The startup transition relation: which phase and action follow a
/// backend answer. A failed login, listing or creation at startup is
/// fatal; a mismatched answer is fatal too.
pub open spec fn setup_transition(zone: Seq<char>, phase: SetupPhase, event: SetupEvent) -> (
    SetupPhase,
    SetupAction,
) {
    match (phase, event) {
        (SetupPhase::Authenticating, SetupEvent::LoginResult(Ok(_))) => (
            SetupPhase::ListingZones(1u32),
            SetupAction::RequestZonePage(1u32),
        ),
        (SetupPhase::Authenticating, SetupEvent::LoginResult(Err(_))) => (
            SetupPhase::Failed,
            SetupAction::Abort,
        ),
        (SetupPhase::ListingZones(p), SetupEvent::ZonePage(Ok(resp))) => {
            if zone_listed(resp.zones@, zone) {
                (SetupPhase::Ready, SetupAction::ServeTraffic)
            } else if p < resp.total_pages {
                (
                    SetupPhase::ListingZones((p + 1) as u32),
                    SetupAction::RequestZonePage((p + 1) as u32),
                )
            } else {
                (SetupPhase::CreatingZone, SetupAction::SendCreateZone)
            }
        },
        (SetupPhase::ListingZones(_), SetupEvent::ZonePage(Err(_))) => (
            SetupPhase::Failed,
            SetupAction::Abort,
        ),
        (SetupPhase::CreatingZone, SetupEvent::ZoneCreated(Ok(_))) => (
            SetupPhase::Ready,
            SetupAction::ServeTraffic,
        ),
        (SetupPhase::CreatingZone, SetupEvent::ZoneCreated(Err(_))) => (
            SetupPhase::Failed,
            SetupAction::Abort,
        ),
        _ => (SetupPhase::Failed, SetupAction::Abort),
    }
}

/// Begins startup: a configured static token skips login and goes
/// straight to zone bootstrap; credentials start with a login; a
/// configuration with neither is fatal.
pub fn setup_start(state: &mut AppState) -> (r: (SetupPhase, SetupAction))
    ensures
        r == (match old(state).config.technitium_token {
            Some(_) => (SetupPhase::ListingZones(1u32), SetupAction::RequestZonePage(1u32)),
            None => match old(state).config.technitium_password {
                Some(_) => (SetupPhase::Authenticating, SetupAction::SendLogin),
                None => (SetupPhase::Failed, SetupAction::Abort),
            },
        }),
        final(state).config == old(state).config,
        final(state).is_ready == old(state).is_ready,
        final(state).use_static_token == (old(state).config.technitium_token is Some),
        match old(state).config.technitium_token {
            Some(t) => {
                &&& final(state).client.token == t
                &&& final(state).client.base_url == old(state).config.technitium_url
                &&& final(state).client.timeout_secs == crate::HTTP_TIMEOUT_SECS
            },
            None => final(state).client == old(state).client,
        },
{
    let token = match &state.config.technitium_token {
        Some(t) => Some(t.clone()),
        None => None,
    };
    match token {
        Some(t) => {
            state.use_static_token = true;
            state.replace_session(t);
            (SetupPhase::ListingZones(1), SetupAction::RequestZonePage(1))
        },
        None => {
            state.use_static_token = false;
            if state.config.technitium_password.is_some() {
                (SetupPhase::Authenticating, SetupAction::SendLogin)
            } else {
                (SetupPhase::Failed, SetupAction::Abort)
            }
        },
    }
}

/// One startup step: applies a backend answer to the current phase. The
/// state only becomes ready on the transition that serves traffic, and
/// the session snapshot only changes when a login succeeded.
pub fn setup_step(state: &mut AppState, phase: SetupPhase, event: SetupEvent) -> (r: (
    SetupPhase,
    SetupAction,
))
    ensures
        r == setup_transition(old(state).config.zone@, phase, event),
        final(state).config == old(state).config,
        final(state).use_static_token == old(state).use_static_token,
        final(state).is_ready == (old(state).is_ready || r.1 == SetupAction::ServeTraffic),
        match (phase, event) {
            (SetupPhase::Authenticating, SetupEvent::LoginResult(Ok(resp))) => {
                &&& final(state).client.token == resp.token
                &&& final(state).client.base_url == old(state).config.technitium_url
                &&& final(state).client.timeout_secs == crate::HTTP_TIMEOUT_SECS
            },
            _ => final(state).client == old(state).client,
        },
{
    match (phase, event) {
        (SetupPhase::Authenticating, SetupEvent::LoginResult(Ok(resp))) => {
            state.replace_session(resp.token);
            (SetupPhase::ListingZones(1), SetupAction::RequestZonePage(1))
        },
        (SetupPhase::Authenticating, SetupEvent::LoginResult(Err(_))) => (
            SetupPhase::Failed,
            SetupAction::Abort,
        ),
        (SetupPhase::ListingZones(p), SetupEvent::ZonePage(Ok(resp))) => {
            let step = bootstrap_step(state.config.zone.as_str(), p, &resp);
            match step {
                BootstrapStep::Found => {
                    state.set_ready();
                    (SetupPhase::Ready, SetupAction::ServeTraffic)
                },
                BootstrapStep::NextPage(n) => (
                    SetupPhase::ListingZones(n),
                    SetupAction::RequestZonePage(n),
                ),
                BootstrapStep::CreateZone => (SetupPhase::CreatingZone, SetupAction::SendCreateZone),
            }
        },
        (SetupPhase::ListingZones(_), SetupEvent::ZonePage(Err(_))) => (
            SetupPhase::Failed,
            SetupAction::Abort,
        ),
        (SetupPhase::CreatingZone, SetupEvent::ZoneCreated(Ok(_))) => {
            state.set_ready();
            (SetupPhase::Ready, SetupAction::ServeTraffic)
        },
        (SetupPhase::CreatingZone, SetupEvent::ZoneCreated(Err(_))) => (
            SetupPhase::Failed,
            SetupAction::Abort,
        ),
        _ => (SetupPhase::Failed, SetupAction::Abort),
    }
}

} // verus!
