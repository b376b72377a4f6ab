//! The run itself, as a machine that is told what has happened and answers
//! with what to report and what to do next. The caller performs the calls;
//! every decision is taken here.

use crate::config::{loaded, value_of, Config, ConfigError, ConfigView};
use crate::endpoints::{ip_lookup_url, record_url, records_url};
use crate::messages::{message_views, Message, MessageView};
use crate::model::{
    awaiting, check, domain_at, first_step, initial, lemma_resume_ignores_phase, preceded,
    resume, transition, PhaseView, UpdaterView,
};
use crate::protocol::{Action, Event, PatchRequest, Step};
use crate::records::{find_record, full_domain, make_update, record_views, DnsRecord};
use crate::status::HttpStatus;
use crate::text::same_text;
use vstd::prelude::*;

verus! {

/// Checks one subdomain against the listed records: what to report at once,
/// and the update to send, if one is needed.
pub fn check_subdomain(
    config: &Config,
    ip: &str,
    records: &Vec<DnsRecord>,
    subdomain: &str,
) -> (res: (Vec<Message>, Option<PatchRequest>))
    ensures
        message_views(res.0@) == check(config@, ip@, record_views(records@), subdomain@).messages,
        match res.1 {
            Some(request) => check(config@, ip@, record_views(records@), subdomain@).patch == Some(
                request@,
            ),
            None => check(config@, ip@, record_views(records@), subdomain@).patch is None,
        },
{
    let domain = full_domain(subdomain, config.base_domain().as_str());
    let mut messages: Vec<Message> = Vec::new();
    messages.push(Message::CheckingDomain { domain: domain.clone() });
    let patch = match find_record(records, domain.as_str()) {
        None => {
            messages.push(Message::NoRecord { domain });
            None
        },
        Some(record) => {
            if same_text(record.content.as_str(), ip) {
                messages.push(Message::NoChange { domain });
                None
            } else {
                let request = PatchRequest {
                    url: record_url(config.zone_id().as_str(), record.id.as_str()),
                    token: config.api_token().clone(),
                    payload: make_update(record, domain.as_str(), ip),
                };
                messages.push(Message::IpChanged { domain });
                Some(request)
            }
        },
    };
    assert(message_views(messages@) =~= check(
        config@,
        ip@,
        record_views(records@),
        subdomain@,
    ).messages);
    (messages, patch)
}

/// How far a run has come.
#[derive(Debug, Clone, Copy, PartialEq, Eq)]
enum Phase {
    ResolvingIp,
    ReadingIp,
    ListingRecords,
    ReadingRecords,
    Patching { index: usize },
    ReadingBody { index: usize, status: HttpStatus },
    Finished,
    Aborted,
}

impl View for Phase {
    type V = PhaseView;

    closed spec fn view(&self) -> PhaseView {
        match self {
            Phase::ResolvingIp => PhaseView::ResolvingIp,
            Phase::ReadingIp => PhaseView::ReadingIp,
            Phase::ListingRecords => PhaseView::ListingRecords,
            Phase::ReadingRecords => PhaseView::ReadingRecords,
            Phase::Patching { index } => PhaseView::Patching { index: *index as nat },
            Phase::ReadingBody { index, status } => PhaseView::ReadingBody {
                index: *index as nat,
                status: status@,
            },
            Phase::Finished => PhaseView::Finished,
            Phase::Aborted => PhaseView::Aborted,
        }
    }
}

/// One run of the updater.
#[derive(Debug, PartialEq, Eq)]
pub struct Updater {
    config: Config,
    ip: String,
    records: Vec<DnsRecord>,
    phase: Phase,
}

impl View for Updater {
    type V = UpdaterView;

    closed spec fn view(&self) -> UpdaterView {
        UpdaterView {
            config: self.config@,
            ip: self.ip@,
            records: record_views(self.records@),
            phase: self.phase@,
        }
    }
}

impl Updater {
    #[verifier::type_invariant]
    spec fn index_in_range(self) -> bool {
        match self.phase {
            Phase::Patching { index } => index < self.config@.subdomain_list.len(),
            Phase::ReadingBody { index, .. } => index < self.config@.subdomain_list.len(),
            _ => true,
        }
    }

    /// Begins a run with a loaded configuration.
    pub fn new(config: Config) -> (res: (Updater, Step))
        ensures
            res.0@ == initial(config@),
            res.1@ == first_step(),
    {
        let mut messages: Vec<Message> = Vec::new();
        messages.push(Message::ConfigLoaded);
        let step = Step { messages, action: Action::GetIp { url: ip_lookup_url() } };
        assert(step@.messages =~= first_step().messages);
        let updater = Updater {
            config,
            ip: String::new(),
            records: Vec::new(),
            phase: Phase::ResolvingIp,
        };
        assert(updater@.records =~= seq![]);
        assert(updater@.ip =~= seq![]);
        (updater, step)
    }

    /// Begins a run from the values of `CF_API_TOKEN`, `ZONE_ID`, `DOMAIN` and
    /// `RECORDS_NAMES`, each `None` where the variable is not set. Where one
    /// of them is missing there is no run and no step, so no call is made: the
    /// error names the first that is missing.
    pub fn start(
        api_token: Option<String>,
        zone_id: Option<String>,
        domain: Option<String>,
        records_names: Option<String>,
    ) -> (res: Result<(Updater, Step), ConfigError>)
        ensures
            match res {
                Ok((updater, step)) => loaded(
                    value_of(api_token),
                    value_of(zone_id),
                    value_of(domain),
                    value_of(records_names),
                ) == Ok::<ConfigView, ConfigError>(updater@.config) && updater@ == initial(
                    updater@.config,
                ) && step@ == first_step(),
                Err(error) => loaded(
                    value_of(api_token),
                    value_of(zone_id),
                    value_of(domain),
                    value_of(records_names),
                ) == Err::<ConfigView, ConfigError>(error),
            },
    {
        match Config::load(api_token, zone_id, domain, records_names) {
            Ok(config) => Ok(Updater::new(config)),
            Err(error) => Err(error),
        }
    }

    /// Whether the run has ended, complete or failed.
    pub fn is_over(&self) -> (res: bool)
        ensures
            res == (self@.phase is Finished || self@.phase is Aborted),
    {
        match self.phase {
            Phase::Finished => true,
            Phase::Aborted => true,
            _ => false,
        }
    }

    /// Takes in what has happened, and answers with what to report and what to
    /// do next.
    pub fn advance(self, event: Event) -> (res: (Updater, Step))
        ensures
            (res.0@, res.1@) == transition(self@, event@),
    {
        proof {
            use_type_invariant(&self);
        }
        let ghost before = self@;
        let Updater { config, ip, records, phase } = self;
        let count: usize = config.subdomain_list().len();
        assert(count == before.config.subdomain_list.len());
        match (phase, event) {
            (Phase::ResolvingIp, Event::Responded(status)) => {
                if status.is_success() {
                    Updater::await_in(config, ip, records, Phase::ReadingIp, Action::ReadIp)
                } else {
                    Updater::await_in(config, ip, records, Phase::Aborted, Action::Abort)
                }
            },
            (Phase::ListingRecords, Event::Responded(status)) => {
                if status.is_success() {
                    Updater::await_in(
                        config,
                        ip,
                        records,
                        Phase::ReadingRecords,
                        Action::ReadRecords,
                    )
                } else {
                    Updater::await_in(config, ip, records, Phase::Aborted, Action::Abort)
                }
            },
            (Phase::ReadingIp, Event::IpResolved(answer)) => {
                let mut messages: Vec<Message> = Vec::new();
                messages.push(Message::CurrentIp { ip: answer.ip.clone() });
                let action = Action::ListRecords {
                    url: records_url(config.zone_id().as_str()),
                    token: config.api_token().clone(),
                };
                let step = Step { messages, action };
                assert(step@.messages =~= seq![MessageView::CurrentIp { ip: answer.ip@ }]);
                (Updater { config, ip: answer.ip, records, phase: Phase::ListingRecords }, step)
            },
            (Phase::ReadingRecords, Event::RecordsListed(list)) => {
                let mut messages: Vec<Message> = Vec::new();
                messages.push(
                    Message::CheckingSubdomains { count: config.subdomain_list().len() },
                );
                assert(message_views(messages@) =~= seq![
                    MessageView::CheckingSubdomains { count: before.config.subdomain_list.len() },
                ]);
                proof {
                    let listed = UpdaterView { records: record_views(list.result@), ..before };
                    lemma_resume_ignores_phase(
                        listed,
                        UpdaterView { phase: PhaseView::ResolvingIp, ..listed },
                        0,
                    );
                }
                Updater::resume_from(config, ip, list.result, 0, messages)
            },
            (Phase::Patching { index }, Event::Responded(status)) => {
                if status.is_ok() {
                    let domain = full_domain(
                        config.subdomain_list()[index].as_str(),
                        config.base_domain().as_str(),
                    );
                    let mut messages: Vec<Message> = Vec::new();
                    messages.push(Message::Updated { domain, ip: ip.clone() });
                    assert(message_views(messages@) =~= seq![
                        MessageView::Updated { domain: domain_at(before, index as nat), ip: ip@ },
                    ]);
                    proof {
                        lemma_resume_ignores_phase(
                            before,
                            UpdaterView { phase: PhaseView::ResolvingIp, ..before },
                            (index + 1) as nat,
                        );
                    }
                    Updater::resume_from(config, ip, records, index + 1, messages)
                } else {
                    Updater::await_in(
                        config,
                        ip,
                        records,
                        Phase::ReadingBody { index, status },
                        Action::ReadBody,
                    )
                }
            },
            (Phase::ReadingBody { index, status }, Event::BodyRead(body)) => {
                let domain = full_domain(
                    config.subdomain_list()[index].as_str(),
                    config.base_domain().as_str(),
                );
                let mut messages: Vec<Message> = Vec::new();
                messages.push(Message::UpdateFailed { domain, status, body });
                assert(message_views(messages@) =~= seq![
                    MessageView::UpdateFailed {
                        domain: domain_at(before, index as nat),
                        status: status@,
                        body: body@,
                    },
                ]);
                proof {
                    lemma_resume_ignores_phase(
                        before,
                        UpdaterView { phase: PhaseView::ResolvingIp, ..before },
                        (index + 1) as nat,
                    );
                }
                Updater::resume_from(config, ip, records, index + 1, messages)
            },
            (Phase::Finished, _) => Updater::await_in(
                config,
                ip,
                records,
                Phase::Finished,
                Action::Finish,
            ),
            _ => Updater::await_in(config, ip, records, Phase::Aborted, Action::Abort),
        }
    }

    /// The run in `phase`, with nothing to report and `action` to perform.
    fn await_in(
        config: Config,
        ip: String,
        records: Vec<DnsRecord>,
        phase: Phase,
        action: Action,
    ) -> (res: (Updater, Step))
        requires
            phase matches Phase::Patching { index } ==> index < config@.subdomain_list.len(),
            phase matches Phase::ReadingBody { index, .. } ==> index
                < config@.subdomain_list.len(),
        ensures
            (res.0@, res.1@) == awaiting(
                UpdaterView {
                    config: config@,
                    ip: ip@,
                    records: record_views(records@),
                    phase: PhaseView::ResolvingIp,
                },
                phase@,
                action@,
            ),
    {
        let step = Step { messages: Vec::new(), action };
        assert(step@.messages =~= seq![]);
        (Updater { config, ip, records, phase }, step)
    }

    /// Checks the subdomains from position `from` on, after `messages` have
    /// been gathered: up to the first that needs an update, or to the end.
    fn resume_from(
        config: Config,
        ip: String,
        records: Vec<DnsRecord>,
        from: usize,
        messages: Vec<Message>,
    ) -> (res: (Updater, Step))
        requires
            from <= config@.subdomain_list.len(),
        ensures
            (res.0@, res.1@) == preceded(
                message_views(messages@),
                resume(
                    UpdaterView {
                        config: config@,
                        ip: ip@,
                        records: record_views(records@),
                        phase: PhaseView::ResolvingIp,
                    },
                    from as nat,
                ),
            ),
    {
        let ghost state = UpdaterView {
            config: config@,
            ip: ip@,
            records: record_views(records@),
            phase: PhaseView::ResolvingIp,
        };
        let ghost goal = preceded(message_views(messages@), resume(state, from as nat));
        let mut gathered = messages;
        let mut index: usize = from;
        let count: usize = config.subdomain_list().len();
        while index < count
            invariant
                index <= count == config@.subdomain_list.len(),
                state == (UpdaterView {
                    config: config@,
                    ip: ip@,
                    records: record_views(records@),
                    phase: PhaseView::ResolvingIp,
                }),
                goal == preceded(message_views(messages@), resume(state, from as nat)),
                goal == preceded(message_views(gathered@), resume(state, index as nat)),
            decreases count - index,
        {
            let subdomain = &config.subdomain_list()[index];
            assert(subdomain@ == state.config.subdomain_list[index as int]);
            let (mut reported, patch) = check_subdomain(
                &config,
                ip.as_str(),
                &records,
                subdomain.as_str(),
            );
            let ghost before = message_views(gathered@);
            let ghost checked = check(state.config, state.ip, state.records, subdomain@);
            gathered.append(&mut reported);
            assert(message_views(gathered@) =~= before + checked.messages);
            match patch {
                Some(request) => {
                    let step = Step { messages: gathered, action: Action::Patch(request) };
                    let updater = Updater { config, ip, records, phase: Phase::Patching { index } };
                    return (updater, step);
                },
                None => {
                    assert(before + (checked.messages + resume(
                        state,
                        (index + 1) as nat,
                    ).1.messages) =~= (before + checked.messages) + resume(
                        state,
                        (index + 1) as nat,
                    ).1.messages);
                },
            }
            index = index + 1;
        }
        assert(message_views(gathered@) + Seq::<MessageView>::empty() =~= message_views(
            gathered@,
        ));
        let step = Step { messages: gathered, action: Action::Finish };
        (Updater { config, ip, records, phase: Phase::Finished }, step)
    }
}

} // verus!
