//! What holds of every run, proved of the model.

use crate::config::{is_given, loaded, ConfigError, ConfigView, Variable};
use crate::endpoints::update_url;
use crate::messages::MessageView;
use crate::model::{
    aborted, check, domain_at, lemma_resume_ignores_phase, preceded, resume, transition,
    PhaseView, UpdaterView,
};
use crate::protocol::{ActionView, EventView, PatchRequestView, StepView};
use crate::records::{fqdn, lemma_find_first, lemma_find_none, DnsRecordView, UpdateDnsRecordView};
use crate::status::is_success_code;
use crate::trace::{answered, checks_in_turn, driven, reports, Answer, Effect};
use vstd::prelude::*;

verus! {

/// Loading succeeds exactly where all four variables are given. Where it
/// fails, the error names a variable that is not given, and every variable
/// that is read before that one is given.
pub proof fn law_missing_variable_is_named(
    api_token: Option<Seq<char>>,
    zone_id: Option<Seq<char>>,
    domain: Option<Seq<char>>,
    records_names: Option<Seq<char>>,
)
    ensures
        loaded(api_token, zone_id, domain, records_names) is Ok <==> is_given(api_token)
            && is_given(zone_id) && is_given(domain) && is_given(records_names),
        loaded(api_token, zone_id, domain, records_names) matches Err(
            ConfigError::Missing(variable),
        ) ==> match variable {
            Variable::ApiToken => !is_given(api_token),
            Variable::ZoneId => is_given(api_token) && !is_given(zone_id),
            Variable::Domain => is_given(api_token) && is_given(zone_id) && !is_given(domain),
            Variable::RecordsNames => is_given(api_token) && is_given(zone_id) && is_given(domain)
                && !is_given(records_names),
        },
{
}

/// Where no listed record carries the fully-qualified name of a subdomain, its
/// check reports the name and then exactly one warning, and sends no update.
pub proof fn law_no_record(
    config: ConfigView,
    ip: Seq<char>,
    records: Seq<DnsRecordView>,
    subdomain: Seq<char>,
)
    requires
        forall|i: int|
            0 <= i < records.len() ==> records[i].name != fqdn(subdomain, config.base_domain),
    ensures
        check(config, ip, records, subdomain).patch is None,
        check(config, ip, records, subdomain).messages == seq![
            MessageView::CheckingDomain { domain: fqdn(subdomain, config.base_domain) },
            MessageView::NoRecord { domain: fqdn(subdomain, config.base_domain) },
        ],
        check(config, ip, records, subdomain).messages.filter(
            |m: MessageView| m.is_warning(),
        ).len() == 1,
{
    let domain = fqdn(subdomain, config.base_domain);
    lemma_find_none(records, domain);
    let messages = check(config, ip, records, subdomain).messages;
    reveal_with_fuel(Seq::filter, 3);
    assert(messages.drop_last().drop_last() == Seq::<MessageView>::empty());
}

/// Where the first record that carries the fully-qualified name of a subdomain
/// holds the public address already, its check sends no update.
pub proof fn law_unchanged(
    config: ConfigView,
    ip: Seq<char>,
    records: Seq<DnsRecordView>,
    subdomain: Seq<char>,
    first: int,
)
    requires
        0 <= first < records.len(),
        records[first].name == fqdn(subdomain, config.base_domain),
        forall|i: int| 0 <= i < first ==> records[i].name != fqdn(subdomain, config.base_domain),
        records[first].content == ip,
    ensures
        check(config, ip, records, subdomain).patch is None,
        check(config, ip, records, subdomain).messages == seq![
            MessageView::CheckingDomain { domain: fqdn(subdomain, config.base_domain) },
            MessageView::NoChange { domain: fqdn(subdomain, config.base_domain) },
        ],
{
    lemma_find_first(records, fqdn(subdomain, config.base_domain), first);
}

/// Where the first record that carries the fully-qualified name of a subdomain
/// holds another address, its check sends one update: to that record, with the
/// record's own time to live and proxy flag, the fully-qualified name as name,
/// the public address as content and `A` as type.
pub proof fn law_changed(
    config: ConfigView,
    ip: Seq<char>,
    records: Seq<DnsRecordView>,
    subdomain: Seq<char>,
    first: int,
)
    requires
        0 <= first < records.len(),
        records[first].name == fqdn(subdomain, config.base_domain),
        forall|i: int| 0 <= i < first ==> records[i].name != fqdn(subdomain, config.base_domain),
        records[first].content != ip,
    ensures
        check(config, ip, records, subdomain).patch == Some(
            PatchRequestView {
                url: update_url(config.zone_id, records[first].id),
                token: config.api_token,
                payload: UpdateDnsRecordView {
                    record_type: seq!['A'],
                    name: fqdn(subdomain, config.base_domain),
                    content: ip,
                    ttl: records[first].ttl,
                    proxied: records[first].proxied,
                },
            },
        ),
        check(config, ip, records, subdomain).messages == seq![
            MessageView::CheckingDomain { domain: fqdn(subdomain, config.base_domain) },
            MessageView::IpChanged { domain: fqdn(subdomain, config.base_domain) },
        ],
{
    lemma_find_first(records, fqdn(subdomain, config.base_domain), first);
}

/// An update that the provider refuses does not stop the run: once the status
/// and the body of the refusal are in, the run is in the state in which an
/// accepted update would have left it, and goes on with the same action and
/// the same checks of the subdomains that follow. Only the first message
/// differs: it reports the failure.
pub proof fn law_refusal_is_isolated(state: UpdaterView, status: u16, body: Seq<char>)
    requires
        state.phase is Patching,
        status != 200,
    ensures
        ({
            let refused = transition(state, EventView::Responded { status });
            let reported = transition(refused.0, EventView::BodyRead { body });
            let accepted = transition(state, EventView::Responded { status: 200 });
            let index = state.phase->Patching_index;
            &&& refused.1 == StepView { messages: seq![], action: ActionView::ReadBody }
            &&& reported.0 == accepted.0
            &&& reported.1.action == accepted.1.action
            &&& reported.1.messages.drop_first() == accepted.1.messages.drop_first()
            &&& reported.1.messages[0] == MessageView::UpdateFailed {
                domain: domain_at(state, index),
                status,
                body,
            }
            &&& reported == preceded(seq![reported.1.messages[0]], resume(state, index + 1))
            &&& index + 1 < state.config.subdomain_list.len() ==> reported.1.messages[1]
                == MessageView::CheckingDomain { domain: domain_at(state, index + 1) }
        }),
{
    let index = state.phase->Patching_index;
    let refused = transition(state, EventView::Responded { status });
    let reported = transition(refused.0, EventView::BodyRead { body });
    let accepted = transition(state, EventView::Responded { status: 200 });
    lemma_resume_ignores_phase(state, refused.0, index + 1);
    let next = resume(state, index + 1);
    assert(reported.1.messages.drop_first() == next.1.messages);
    assert(accepted.1.messages.drop_first() == next.1.messages);
}

/// An action that cannot be completed stops a run that is under way, and so
/// does a lookup or a listing that is answered without success: nothing more
/// is reported, and the exit code is not 0.
pub proof fn law_failure_is_fatal(state: UpdaterView, event: EventView)
    requires
        !(state.phase is Finished),
        event is Failed || (event matches EventView::Responded { status } && !is_success_code(
            status,
        ) && (state.phase is ResolvingIp || state.phase is ListingRecords)),
    ensures
        transition(state, event) == aborted(state),
        aborted(state).0.phase is Aborted,
        aborted(state).1.messages.len() == 0,
        aborted(state).1.action.exit_code() == Some(1i32),
{
}

/// A run that has stopped stays stopped: whatever is reported to it, it asks
/// for no call, so a failure before the checks leaves every record as it was.
pub proof fn law_aborted_stays(state: UpdaterView, event: EventView)
    requires
        state.phase is Aborted,
    ensures
        transition(state, event) == (
            state,
            StepView { messages: seq![], action: ActionView::Abort },
        ),
{
}

/// Messages put before a step are printed before everything that the step
/// leads to.
pub proof fn lemma_driven_preceded(
    messages: Seq<MessageView>,
    next: (UpdaterView, StepView),
    answers: Seq<Answer>,
)
    ensures
        driven(preceded(messages, next), answers) == reports(messages) + driven(next, answers),
{
    let first = reports(messages);
    let rest = reports(next.1.messages);
    assert(reports(messages + next.1.messages) =~= first + rest);
    match next.1.action {
        ActionView::Patch(request) => {
            if answers.len() == 0 {
                assert((first + rest).push(Effect::Send(request)) =~= first + rest.push(
                    Effect::Send(request),
                ));
            } else {
                let tail = driven(answered(next.0, answers[0]), answers.drop_first());
                assert((first + rest).push(Effect::Send(request)) + tail =~= first + (rest.push(
                    Effect::Send(request),
                ) + tail));
            }
        },
        ActionView::Finish => {
            assert((first + rest).push(Effect::Finish) =~= first + rest.push(Effect::Finish));
        },
        _ => {},
    }
}

/// The updater, driven step by step, does what a loop over the subdomains
/// does: from the moment the records are listed, the messages printed and the
/// updates sent are those of checking every subdomain in turn, in order, each
/// stale record updated once, whatever the provider answers to the updates.
pub proof fn law_run_checks_every_subdomain(state: UpdaterView, from: nat, answers: Seq<Answer>)
    requires
        forall|i: int| 0 <= i < answers.len() ==> (#[trigger] answers[i]).well_formed(),
    ensures
        driven(resume(state, from), answers) == checks_in_turn(
            state.config,
            state.ip,
            state.records,
            from,
            answers,
        ),
    decreases state.config.subdomain_list.len() - from,
{
    let config = state.config;
    if from >= config.subdomain_list.len() {
        assert(reports(Seq::<MessageView>::empty()).push(Effect::Finish) =~= seq![Effect::Finish]);
    } else {
        let subdomain = config.subdomain_list[from as int];
        let checked = check(config, state.ip, state.records, subdomain);
        match checked.patch {
            None => {
                lemma_driven_preceded(checked.messages, resume(state, from + 1), answers);
                law_run_checks_every_subdomain(state, from + 1, answers);
            },
            Some(request) => {
                if answers.len() > 0 {
                    let sent = UpdaterView { phase: PhaseView::Patching { index: from }, ..state };
                    let answer = answers[0];
                    let rest = answers.drop_first();
                    let message = answer.message(fqdn(subdomain, config.base_domain), state.ip);
                    assert(answer.well_formed());
                    assert forall|i: int| 0 <= i < rest.len() implies (#[trigger] rest[i])
                        .well_formed() by {
                        assert(rest[i] == answers[i + 1]);
                    }
                    match answer {
                        Answer::Accepted => {
                            lemma_resume_ignores_phase(sent, state, from + 1);
                        },
                        Answer::Refused { status, body } => {
                            let read = transition(sent, EventView::Responded { status }).0;
                            lemma_resume_ignores_phase(read, state, from + 1);
                        },
                    }
                    assert(answered(sent, answer) == preceded(
                        seq![message],
                        resume(state, from + 1),
                    ));
                    lemma_driven_preceded(seq![message], resume(state, from + 1), rest);
                    law_run_checks_every_subdomain(state, from + 1, rest);
                    let tail = checks_in_turn(config, state.ip, state.records, from + 1, rest);
                    let head = reports(checked.messages).push(Effect::Send(request));
                    assert(reports(seq![message]) =~= seq![Effect::Report(message)]);
                    assert(head + (seq![Effect::Report(message)] + tail) =~= head.push(
                        Effect::Report(message),
                    ) + tail);
                }
            },
        }
    }
}

} // verus!
