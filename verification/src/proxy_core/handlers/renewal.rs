use vstd::prelude::*;
use vstd::string::*;
use crate::error::Error;
use crate::proxy_core::handlers::certs::{certificate_paths, spec_certificate_paths};
use crate::proxy_core::models::certs::{CertificateConfig, CertificateType, OrderOutcome};
use crate::proxy_core::models::dns::ProviderCredentail;
use crate::proxy_core::models::filesystem::FileWrite;
use crate::proxy_core::models::host_map::HostMap;

verus! {

/// Orders that wait for their second stage, by host: the URL to resume each order from.
pub type PendingOrders = HostMap<String>;

/// The status of an ACME order.
#[derive(Debug, Clone, Copy, PartialEq, Eq, Structural)]
pub enum AcmeOrderStatus {
    Pending,
    Ready,
    Processing,
    Valid,
    Invalid,
}

/// The status of one authorization of an ACME order.
#[derive(Debug, Clone, Copy, PartialEq, Eq, Structural)]
pub enum AcmeAuthorizationStatus {
    Pending,
    Valid,
    Invalid,
    Revoked,
    Expired,
    Deactivated,
}

/// Where the renewal of one host stands within one tick of the renewal loop.
#[derive(Debug)]
pub enum RenewalState {
    /// Nothing has happened yet.
    Start,
    /// The host has DNS credentials (`provider`); its current certificate is being looked at.
    CheckingCertificate { provider: ProviderCredentail },
    /// An order was requested; `resumed` tells whether it was resumed from an earlier tick.
    AwaitingOrder { resumed: bool, provider: ProviderCredentail },
    /// The DNS-01 records of a new order are being written.
    WritingRecords { order_url: String },
    /// The challenges of a resumed order are being marked ready.
    MarkingReady,
    /// Waiting for the order to become ready.
    Finishing,
    /// The order is being finalized and its certificate downloaded.
    Finalizing,
    /// The certificate and key are being written and swapped into the store.
    Storing,
    /// The tick is over for this host.
    Finished,
}

/// What happened since the last step.
#[derive(Debug)]
pub enum RenewalEvent {
    /// The tick starts for this host.
    Begin,
    /// The store was looked at: `None` when it holds no certificate for the host, else
    /// whether that certificate expires before the renewal threshold.
    CertificateChecked { expires_soon: Option<bool> },
    /// The order was created or resumed.
    OrderFetched { status: AcmeOrderStatus, url: String },
    /// Every authorization that needed a DNS-01 record has one.
    RecordsWritten,
    /// Every pending challenge was marked ready.
    ChallengesReady,
    /// Polling the order ended in `status`.
    OrderPolled { status: AcmeOrderStatus },
    /// The order was finalized and the certificate chain downloaded.
    CertificateIssued { key_pem: String, cert_pem: String },
    /// The certificate files were written and the store updated.
    Stored,
    /// The outside work of the last action failed.
    Failed { error: Error },
}

/// What the caller does next.
#[derive(Debug)]
pub enum RenewalAction {
    /// Look up the host's certificate in the store and compare its expiry with the threshold.
    CheckCertificate,
    /// Create a new order, or resume the one at `resume_url`.
    FetchOrder { resume_url: Option<String> },
    /// Write the DNS-01 record of every authorization that needs one, through `provider`.
    WriteChallengeRecords { provider: ProviderCredentail },
    /// Mark every pending DNS-01 challenge ready.
    MarkChallengesReady,
    /// Poll the order until it is ready or invalid.
    PollOrder,
    /// Finalize the order and download the certificate chain.
    Finalize,
    /// Perform `writes` in order, then swap the certificate into the store.
    StoreCertificate { writes: Vec<FileWrite>, key_pem: String, cert_pem: String },
    /// Nothing more to do for this host in this tick; pending orders are unchanged.
    Skip,
    /// The tick ended with `outcome` for this host.
    Done { outcome: OrderOutcome },
    /// The tick ended with an error; pending orders are unchanged.
    Abort { error: Error },
}

/// The order status as `{:?}` prints it.
pub fn order_status_name(status: AcmeOrderStatus) -> (s: &'static str)
    ensures
        status == AcmeOrderStatus::Pending ==> s@ == "Pending"@,
        status == AcmeOrderStatus::Ready ==> s@ == "Ready"@,
        status == AcmeOrderStatus::Processing ==> s@ == "Processing"@,
        status == AcmeOrderStatus::Valid ==> s@ == "Valid"@,
        status == AcmeOrderStatus::Invalid ==> s@ == "Invalid"@,
{
    match status {
        AcmeOrderStatus::Pending => "Pending",
        AcmeOrderStatus::Ready => "Ready",
        AcmeOrderStatus::Processing => "Processing",
        AcmeOrderStatus::Valid => "Valid",
        AcmeOrderStatus::Invalid => "Invalid",
    }
}

/// Whether the DNS stage writes a record for an authorization: every status but `Valid`.
pub fn authorization_needs_record(status: AcmeAuthorizationStatus) -> (r: bool)
    ensures
        r == (status != AcmeAuthorizationStatus::Valid),
{
    match status {
        AcmeAuthorizationStatus::Valid => false,
        _ => true,
    }
}

/// Whether the ready stage marks an authorization's challenge ready: only when `Pending`.
pub fn authorization_needs_ready(status: AcmeAuthorizationStatus) -> (r: bool)
    ensures
        r == (status == AcmeAuthorizationStatus::Pending),
{
    match status {
        AcmeAuthorizationStatus::Pending => true,
        _ => false,
    }
}

/// The error for an authorization that offers no DNS-01 challenge.
pub fn missing_dns_challenge() -> (e: Error)
    ensures
        e matches Error::Certificate(m) && m@ == "no dns01 challenge found"@,
{
    Error::Certificate("no dns01 challenge found".to_owned())
}

/// The routes whose certificates the renewal loop manages: those configured as `acme`.
pub open spec fn acme_configs_of(configs: Seq<CertificateConfig>) -> Seq<CertificateConfig>
    decreases configs.len(),
{
    if configs.len() == 0 {
        Seq::<CertificateConfig>::empty()
    } else {
        let rest = acme_configs_of(configs.drop_last());
        if configs.last().cert_type == CertificateType::Acme {
            rest.push(configs.last())
        } else {
            rest
        }
    }
}

/// Only the `acme` routes are kept, all of them, in their order: `acme_configs_of` is the
/// filter of the configurations on `cert_type == Acme`. So every kept route is `acme`, and
/// every `acme` route is kept.
pub proof fn lemma_acme_configs_are_the_acme_routes(configs: Seq<CertificateConfig>)
    ensures
        acme_configs_of(configs) == configs.filter(|c: CertificateConfig| c.cert_type == CertificateType::Acme),
        forall|i: int|
            0 <= i < acme_configs_of(configs).len() ==> (#[trigger] acme_configs_of(configs)[i]).cert_type
                == CertificateType::Acme,
        forall|i: int|
            0 <= i < configs.len() && configs[i].cert_type == CertificateType::Acme
                ==> #[trigger] acme_configs_of(configs).contains(configs[i]),
    decreases configs.len(),
{
    let pred = |c: CertificateConfig| c.cert_type == CertificateType::Acme;
    reveal(Seq::filter);
    if configs.len() > 0 {
        lemma_acme_configs_are_the_acme_routes(configs.drop_last());
    }
    assert(acme_configs_of(configs) == configs.filter(pred));
    configs.filter_lemma(pred);
}

/// The `acme` routes, in order.
pub fn acme_configs(configs: &Vec<CertificateConfig>) -> (res: Vec<CertificateConfig>)
    ensures
        res@ == acme_configs_of(configs@),
        res@ == configs@.filter(|c: CertificateConfig| c.cert_type == CertificateType::Acme),
{
    proof {
        lemma_acme_configs_are_the_acme_routes(configs@);
    }
    let mut res: Vec<CertificateConfig> = Vec::new();
    let mut i: usize = 0;
    assert(configs@.take(0) =~= Seq::<CertificateConfig>::empty());
    while i < configs.len()
        invariant
            i <= configs.len(),
            res@ == acme_configs_of(configs@.take(i as int)),
        decreases configs.len() - i,
    {
        let ghost pre = configs@.take(i as int);
        let ghost next = configs@.take(i as int + 1);
        assert(next.drop_last() =~= pre);
        assert(next.last() == configs@[i as int]);
        if configs[i].cert_type == CertificateType::Acme {
            res.push(configs[i].clone());
        }
        i = i + 1;
    }
    assert(configs@.take(configs.len() as int) =~= configs@);
    res
}

/// Whether `event` is one that `state` waits for.
pub open spec fn expected_event(state: RenewalState, event: RenewalEvent) -> bool {
    match state {
        RenewalState::Start => event is Begin,
        RenewalState::CheckingCertificate { .. } => event is CertificateChecked,
        RenewalState::AwaitingOrder { .. } => event is OrderFetched,
        RenewalState::WritingRecords { .. } => event is RecordsWritten,
        RenewalState::MarkingReady => event is ChallengesReady,
        RenewalState::Finishing => event is OrderPolled,
        RenewalState::Finalizing => event is CertificateIssued,
        RenewalState::Storing => event is Stored,
        RenewalState::Finished => false,
    }
}

/// One step of a host's renewal: from pending orders `p0`, state `state` and event `event`,
/// the pending orders become `p1`, the state `s1`, and the caller is told to do `a1`.
pub open spec fn renewal_step_spec(
    config: CertificateConfig,
    p0: Map<Seq<char>, String>,
    p1: Map<Seq<char>, String>,
    state: RenewalState,
    event: RenewalEvent,
    s1: RenewalState,
    a1: RenewalAction,
) -> bool {
    // a failure aborts, whatever the state, with pending orders unchanged
    &&& (event matches RenewalEvent::Failed { error } ==> {
        &&& a1 matches RenewalAction::Abort { error: e } && e == error
        &&& s1 is Finished
        &&& p1 == p0
    })
    // an event that does not belong to the state aborts, with pending orders unchanged
    &&& ((!expected_event(state, event) && !(event is Failed)) ==> {
        &&& a1 matches RenewalAction::Abort { error: e } && e is Unknown
        &&& s1 is Finished
        &&& p1 == p0
    })
    // the check stage
    &&& ((state is Start && event is Begin) ==> {
        &&& p1 == p0
        &&& match config.provider_config {
            None => s1 is Finished && a1 is Skip,
            Some(p) => s1 == RenewalState::CheckingCertificate { provider: p } && a1 is CheckCertificate,
        }
    })
    &&& (state matches RenewalState::CheckingCertificate { provider } ==> (event matches RenewalEvent::CertificateChecked {
        expires_soon,
    } ==> {
        &&& p1 == p0
        &&& if expires_soon == Some(false) {
            s1 is Finished && a1 is Skip
        } else {
            &&& s1 matches RenewalState::AwaitingOrder { resumed, provider: p } && resumed
                == p0.contains_key(config.host@) && p == provider
            &&& a1 matches RenewalAction::FetchOrder { resume_url } && match resume_url {
                Some(u) => p0.contains_key(config.host@) && u == p0[config.host@],
                None => !p0.contains_key(config.host@),
            }
        }
    }))
    // the choice made on the fetched order
    &&& (state matches RenewalState::AwaitingOrder { resumed, provider: state_provider } ==> (event matches RenewalEvent::OrderFetched {
        status,
        url,
    } ==> {
        if status == AcmeOrderStatus::Pending && !resumed {
            &&& p1 == p0
            &&& s1 matches RenewalState::WritingRecords { order_url } && order_url == url
            &&& a1 matches RenewalAction::WriteChallengeRecords { provider } && provider
                == state_provider
        } else if status == AcmeOrderStatus::Pending {
            &&& p1 == p0
            &&& s1 is MarkingReady
            &&& a1 is MarkChallengesReady
        } else if status == AcmeOrderStatus::Ready {
            &&& p1 == p0
            &&& s1 is Finishing
            &&& a1 is PollOrder
        } else {
            &&& p1 == p0.remove(config.host@)
            &&& s1 is Finished
            &&& a1 == RenewalAction::Done { outcome: OrderOutcome::Dead }
        }
    }))
    // the stage-one end: the order is held for the next tick
    &&& (state matches RenewalState::WritingRecords { order_url } ==> (event is RecordsWritten ==> {
        &&& p1 == p0.insert(config.host@, order_url)
        &&& s1 is Finished
        &&& a1 == RenewalAction::Done { outcome: OrderOutcome::Waiting }
    }))
    // the finishing stage
    &&& ((state is MarkingReady && event is ChallengesReady) ==> {
        &&& p1 == p0
        &&& s1 is Finishing
        &&& a1 is PollOrder
    })
    &&& (state is Finishing ==> (event matches RenewalEvent::OrderPolled { status } ==> {
        &&& p1 == p0
        &&& if status == AcmeOrderStatus::Ready {
            s1 is Finalizing && a1 is Finalize
        } else {
            &&& s1 is Finished
            &&& a1 matches RenewalAction::Abort { error: Error::Certificate(m) }
            &&& m@ == "Order is not ready: "@ + status_name_spec(status)
        }
    }))
    &&& (state is Finalizing ==> (event matches RenewalEvent::CertificateIssued { key_pem, cert_pem }
        ==> {
        &&& p1 == p0
        &&& match spec_certificate_paths(config.host@, config.cert_dir@) {
            Some((k, c)) => {
                &&& s1 is Storing
                &&& a1 matches RenewalAction::StoreCertificate { writes, key_pem: kp, cert_pem: cp }
                &&& kp == key_pem && cp == cert_pem
                &&& writes@.len() == 2
                &&& writes@[0].path@ == k && writes@[0].content == key_pem
                &&& writes@[1].path@ == c && writes@[1].content == cert_pem
            },
            None => s1 is Finished && a1 matches RenewalAction::Abort { error: Error::FileSystem(_) },
        }
    }))
    &&& ((state is Storing && event is Stored) ==> {
        &&& p1 == p0.remove(config.host@)
        &&& s1 is Finished
        &&& a1 == RenewalAction::Done { outcome: OrderOutcome::Issued }
    })
}

/// The next state and action of one host's renewal, and how pending orders change.
///
/// The protocol, per host and tick: hosts without DNS credentials are skipped; a certificate
/// that does not expire before the threshold is kept. Otherwise an order is fetched, resumed
/// from a pending one when there is one. A new pending order gets its DNS-01 records written and
/// is held as pending for the next tick; a resumed pending order has its challenges marked
/// ready and is finished; a ready order is finished; an order in any other status is dropped.
/// Finishing polls the order, refuses it unless ready, finalizes it, writes the key and then the
/// certificate to the host's paths and swaps them in; the host's pending order is then dropped.
/// A failed step aborts the tick for the host and leaves pending orders as they were.
pub fn renewal_step(
    config: &CertificateConfig,
    pending: &mut PendingOrders,
    state: RenewalState,
    event: RenewalEvent,
) -> (res: (RenewalState, RenewalAction))
    ensures
        renewal_step_spec(*config, old(pending)@, final(pending)@, state, event, res.0, res.1),
{
    match (state, event) {
        (_, RenewalEvent::Failed { error }) => (RenewalState::Finished, RenewalAction::Abort { error }),
        (RenewalState::Start, RenewalEvent::Begin) => match &config.provider_config {
            None => (RenewalState::Finished, RenewalAction::Skip),
            Some(p) => (
                RenewalState::CheckingCertificate { provider: p.clone() },
                RenewalAction::CheckCertificate,
            ),
        },
        (
            RenewalState::CheckingCertificate { provider },
            RenewalEvent::CertificateChecked { expires_soon },
        ) => {
            if expires_soon == Some(false) {
                (RenewalState::Finished, RenewalAction::Skip)
            } else {
                let resume_url = match pending.get(config.host.as_str()) {
                    Some(u) => Some(u.clone()),
                    None => None,
                };
                let resumed = resume_url.is_some();
                (
                    RenewalState::AwaitingOrder { resumed, provider },
                    RenewalAction::FetchOrder { resume_url },
                )
            }
        },
        (RenewalState::AwaitingOrder { resumed, provider }, RenewalEvent::OrderFetched { status, url }) => {
            match status {
                AcmeOrderStatus::Pending => if !resumed {
                    (
                        RenewalState::WritingRecords { order_url: url },
                        RenewalAction::WriteChallengeRecords { provider },
                    )
                } else {
                    (RenewalState::MarkingReady, RenewalAction::MarkChallengesReady)
                },
                AcmeOrderStatus::Ready => (RenewalState::Finishing, RenewalAction::PollOrder),
                _ => {
                    pending.remove(config.host.as_str());
                    (RenewalState::Finished, RenewalAction::Done { outcome: OrderOutcome::Dead })
                },
            }
        },
        (RenewalState::WritingRecords { order_url }, RenewalEvent::RecordsWritten) => {
            pending.insert(config.host.clone(), order_url);
            (RenewalState::Finished, RenewalAction::Done { outcome: OrderOutcome::Waiting })
        },
        (RenewalState::MarkingReady, RenewalEvent::ChallengesReady) => (
            RenewalState::Finishing,
            RenewalAction::PollOrder,
        ),
        (RenewalState::Finishing, RenewalEvent::OrderPolled { status }) => {
            if status == AcmeOrderStatus::Ready {
                (RenewalState::Finalizing, RenewalAction::Finalize)
            } else {
                let m = crate::text::concat_str("Order is not ready: ", order_status_name(status));
                (RenewalState::Finished, RenewalAction::Abort { error: Error::Certificate(m) })
            }
        },
        (RenewalState::Finalizing, RenewalEvent::CertificateIssued { key_pem, cert_pem }) => {
            match certificate_paths(&config.host, &config.cert_dir) {
                Ok((key_path, cert_path)) => {
                    let mut writes: Vec<FileWrite> = Vec::new();
                    writes.push(FileWrite { path: key_path, content: key_pem.clone() });
                    writes.push(FileWrite { path: cert_path, content: cert_pem.clone() });
                    (RenewalState::Storing, RenewalAction::StoreCertificate { writes, key_pem, cert_pem })
                },
                Err(e) => (RenewalState::Finished, RenewalAction::Abort { error: e }),
            }
        },
        (RenewalState::Storing, RenewalEvent::Stored) => {
            pending.remove(config.host.as_str());
            (RenewalState::Finished, RenewalAction::Done { outcome: OrderOutcome::Issued })
        },
        (_, _) => (RenewalState::Finished, RenewalAction::Abort { error: Error::Unknown }),
    }
}

/// The order status as `{:?}` prints it, in spec form.
pub open spec fn status_name_spec(status: AcmeOrderStatus) -> Seq<char> {
    match status {
        AcmeOrderStatus::Pending => "Pending"@,
        AcmeOrderStatus::Ready => "Ready"@,
        AcmeOrderStatus::Processing => "Processing"@,
        AcmeOrderStatus::Valid => "Valid"@,
        AcmeOrderStatus::Invalid => "Invalid"@,
    }
}

/// A failed step aborts the host's tick and leaves every pending order as it was, whatever
/// the state.
pub proof fn lemma_failure_keeps_pending_orders(
    config: CertificateConfig,
    p0: Map<Seq<char>, String>,
    p1: Map<Seq<char>, String>,
    state: RenewalState,
    error: Error,
    s1: RenewalState,
    a1: RenewalAction,
)
    requires
        renewal_step_spec(config, p0, p1, state, (RenewalEvent::Failed { error }), s1, a1),
    ensures
        p1 == p0,
        a1 == (RenewalAction::Abort { error }),
        s1 is Finished,
{
}

/// The two stages of an issuance: when the first stage has written the DNS records of
/// `order_url` and ends, the order is held for the host; on the next tick a certificate that
/// still needs renewing resumes exactly that order, and a still pending resumed order gets its
/// challenges marked ready instead of new records.
pub proof fn lemma_two_stage_issuance(
    config: CertificateConfig,
    provider: ProviderCredentail,
    order_url: String,
    expires_soon: Option<bool>,
    next_url: String,
    p0: Map<Seq<char>, String>,
    p1: Map<Seq<char>, String>,
    p2: Map<Seq<char>, String>,
    p3: Map<Seq<char>, String>,
    s1: RenewalState,
    a1: RenewalAction,
    s2: RenewalState,
    a2: RenewalAction,
    s3: RenewalState,
    a3: RenewalAction,
)
    requires
        renewal_step_spec(
            config,
            p0,
            p1,
            (RenewalState::WritingRecords { order_url }),
            RenewalEvent::RecordsWritten,
            s1,
            a1,
        ),
        renewal_step_spec(
            config,
            p1,
            p2,
            (RenewalState::CheckingCertificate { provider }),
            (RenewalEvent::CertificateChecked { expires_soon }),
            s2,
            a2,
        ),
        expires_soon != Some(false),
        renewal_step_spec(
            config,
            p2,
            p3,
            (RenewalState::AwaitingOrder { resumed: true, provider }),
            (RenewalEvent::OrderFetched { status: AcmeOrderStatus::Pending, url: next_url }),
            s3,
            a3,
        ),
    ensures
        a1 == (RenewalAction::Done { outcome: OrderOutcome::Waiting }),
        a2 == (RenewalAction::FetchOrder { resume_url: Some(order_url) }),
        s2 == (RenewalState::AwaitingOrder { resumed: true, provider }),
        a3 is MarkChallengesReady,
        p3 == p1,
{
    assert(p1 == p0.insert(config.host@, order_url));
    assert(p1.contains_key(config.host@));
}

/// Once an order is issued or dropped, the host holds no pending order, so the next tick that
/// needs a certificate starts a fresh order.
pub proof fn lemma_ended_order_is_not_resumed(
    config: CertificateConfig,
    provider: ProviderCredentail,
    state: RenewalState,
    event: RenewalEvent,
    expires_soon: Option<bool>,
    p0: Map<Seq<char>, String>,
    p1: Map<Seq<char>, String>,
    p2: Map<Seq<char>, String>,
    s1: RenewalState,
    a1: RenewalAction,
    s2: RenewalState,
    a2: RenewalAction,
)
    requires
        renewal_step_spec(config, p0, p1, state, event, s1, a1),
        a1 == (RenewalAction::Done { outcome: OrderOutcome::Issued }) || a1 == (RenewalAction::Done {
            outcome: OrderOutcome::Dead,
        }),
        renewal_step_spec(
            config,
            p1,
            p2,
            (RenewalState::CheckingCertificate { provider }),
            (RenewalEvent::CertificateChecked { expires_soon }),
            s2,
            a2,
        ),
        expires_soon != Some(false),
    ensures
        !p1.contains_key(config.host@),
        a2 == (RenewalAction::FetchOrder { resume_url: None }),
        s2 == (RenewalState::AwaitingOrder { resumed: false, provider }),
{
}

} // verus!
