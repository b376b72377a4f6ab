//! The checks of a run as one sequence of effects: what the caller's loop
//! prints and sends, in order, when the provider's answers are given.

use crate::config::ConfigView;
use crate::messages::MessageView;
use crate::model::{check, transition, UpdaterView};
use crate::protocol::{ActionView, EventView, PatchRequestView, StepView};
use crate::records::{fqdn, DnsRecordView};
use vstd::prelude::*;

verus! {

/// How the provider answers one update.
pub enum Answer {
    /// With status 200.
    Accepted,
    /// With another status, and a body.
    Refused { status: u16, body: Seq<char> },
}

impl Answer {
    /// A refusal carries a status other than 200.
    pub open spec fn well_formed(self) -> bool {
        self matches Answer::Refused { status, .. } ==> status != 200
    }

    /// The message that reports the answer to the update of `domain`.
    pub open spec fn message(self, domain: Seq<char>, ip: Seq<char>) -> MessageView {
        match self {
            Answer::Accepted => MessageView::Updated { domain, ip },
            Answer::Refused { status, body } => MessageView::UpdateFailed { domain, status, body },
        }
    }
}

/// One thing that the caller does for the updater.
pub enum Effect {
    /// Prints a message.
    Report(MessageView),
    /// Sends an update.
    Send(PatchRequestView),
    /// Leaves with exit code 0.
    Finish,
}

/// The effects that print `messages`, in order.
pub open spec fn reports(messages: Seq<MessageView>) -> Seq<Effect> {
    messages.map_values(|m: MessageView| Effect::Report(m))
}

/// The checks as a loop over the subdomains from position `from` on: each
/// subdomain is checked in turn; where its record is stale the update is sent,
/// the next of `answers` is reported, and the loop goes on whatever that
/// answer was. The loop ends by finishing the run, or waits at an update that
/// `answers` does not cover.
pub open spec fn checks_in_turn(
    config: ConfigView,
    ip: Seq<char>,
    records: Seq<DnsRecordView>,
    from: nat,
    answers: Seq<Answer>,
) -> Seq<Effect>
    decreases config.subdomain_list.len() - from,
{
    if from >= config.subdomain_list.len() {
        seq![Effect::Finish]
    } else {
        let subdomain = config.subdomain_list[from as int];
        let checked = check(config, ip, records, subdomain);
        match checked.patch {
            None => reports(checked.messages) + checks_in_turn(
                config,
                ip,
                records,
                from + 1,
                answers,
            ),
            Some(request) => if answers.len() == 0 {
                reports(checked.messages).push(Effect::Send(request))
            } else {
                reports(checked.messages).push(Effect::Send(request)).push(
                    Effect::Report(answers[0].message(fqdn(subdomain, config.base_domain), ip)),
                ) + checks_in_turn(config, ip, records, from + 1, answers.drop_first())
            },
        }
    }
}

/// The state and the step once `answer` has been reported to the updater: the
/// status, and for a refusal the body after it.
pub open spec fn answered(state: UpdaterView, answer: Answer) -> (UpdaterView, StepView) {
    match answer {
        Answer::Accepted => transition(state, EventView::Responded { status: 200 }),
        Answer::Refused { status, body } => transition(
            transition(state, EventView::Responded { status }).0,
            EventView::BodyRead { body },
        ),
    }
}

/// What the caller's loop does from the step `now.1`, taken in the state
/// `now.0`, on: it prints the messages of each step and performs its action,
/// and reports the next of `answers` after each update that it sends.
pub open spec fn driven(now: (UpdaterView, StepView), answers: Seq<Answer>) -> Seq<Effect>
    decreases answers.len(),
{
    match now.1.action {
        ActionView::Patch(request) => if answers.len() == 0 {
            reports(now.1.messages).push(Effect::Send(request))
        } else {
            reports(now.1.messages).push(Effect::Send(request)) + driven(
                answered(now.0, answers[0]),
                answers.drop_first(),
            )
        },
        ActionView::Finish => reports(now.1.messages).push(Effect::Finish),
        _ => reports(now.1.messages),
    }
}

} // verus!
