//! Routing of a decoded interaction: one synchronous decision, each arm
//! owning one reply path. A ping is answered at once; the `poll start`
//! command goes to the poll handler with its topic; a component press goes
//! to the press handler; everything else is an empty success.

use vstd::prelude::*;
use crate::interaction::{
    Interaction, InteractionView, SubOption, SubValue, OptionValue, SubOptionView, SubValueView,
    sub_list_view, option_list_view,
};
use crate::text::str_eq;

verus! {

/// What the router decided for one interaction.
#[derive(Debug)]
pub enum Dispatch {
    /// Answer the ping immediately.
    Pong,
    /// Start a poll on `topic`, replying through the follow-up callback of
    /// the interaction.
    StartPoll { interaction_id: u64, token: String, topic: String },
    /// A component was pressed on the message with this identifier.
    Press { custom_id: String, message_id: u64 },
    /// Nothing to do: an empty success reply.
    Empty,
    /// A component interaction arrived without its original message, which
    /// the platform always attaches; the request is rejected.
    MissingMessage,
}

pub enum DispatchView {
    Pong,
    StartPoll { interaction_id: u64, token: Seq<char>, topic: Seq<char> },
    Press { custom_id: Seq<char>, message_id: u64 },
    Empty,
    MissingMessage,
}

impl View for Dispatch {
    type V = DispatchView;

    open spec fn view(&self) -> DispatchView {
        match self {
            Dispatch::Pong => DispatchView::Pong,
            Dispatch::StartPoll { interaction_id, token, topic } => DispatchView::StartPoll {
                interaction_id: *interaction_id,
                token: token@,
                topic: topic@,
            },
            Dispatch::Press { custom_id, message_id } => DispatchView::Press {
                custom_id: custom_id@,
                message_id: *message_id,
            },
            Dispatch::Empty => DispatchView::Empty,
            Dispatch::MissingMessage => DispatchView::MissingMessage,
        }
    }
}

/// The topic of a poll-start subcommand: the value of the first option
/// named `topic`, when that value is a string.
pub open spec fn topic_of(subs: Seq<SubOptionView>) -> Option<Seq<char>>
    decreases subs.len(),
{
    if subs.len() == 0 {
        None
    } else if subs[0].name == "topic"@ {
        match subs[0].value {
            SubValueView::Text(s) => Some(s),
            SubValueView::Unsupported => None,
        }
    } else {
        topic_of(subs.drop_first())
    }
}

/// Where an interaction goes. A command starts a poll exactly when it is
/// named `poll`, its first option is the subcommand `start`, and that
/// subcommand carries a string `topic`; a component press needs the
/// original message; everything else is a no-op.
pub open spec fn dispatch_spec(i: InteractionView) -> DispatchView {
    match i {
        InteractionView::Ping => DispatchView::Pong,
        InteractionView::Command { id, token, data } => {
            if data.name == "poll"@ && data.options.len() > 0 && data.options[0].name == "start"@
                && data.options[0].value is SubCommand {
                match topic_of(data.options[0].value->SubCommand_0) {
                    Some(t) => DispatchView::StartPoll {
                        interaction_id: id,
                        token: token,
                        topic: t,
                    },
                    None => DispatchView::Empty,
                }
            } else {
                DispatchView::Empty
            }
        },
        InteractionView::Component { id, token, custom_id, message_id } => {
            match message_id {
                Some(m) => DispatchView::Press { custom_id: custom_id, message_id: m },
                None => DispatchView::MissingMessage,
            }
        },
        InteractionView::Other => DispatchView::Empty,
    }
}

proof fn lemma_topic_of_none(subs: Seq<SubOptionView>)
    requires
        forall|j: int| 0 <= j < subs.len() ==> (#[trigger] subs[j]).name != "topic"@,
    ensures
        topic_of(subs) is None,
    decreases subs.len(),
{
    if subs.len() > 0 {
        lemma_topic_of_none(subs.drop_first());
    }
}

proof fn lemma_topic_of_at(subs: Seq<SubOptionView>, i: int)
    requires
        0 <= i < subs.len(),
        subs[i].name == "topic"@,
        forall|j: int| 0 <= j < i ==> (#[trigger] subs[j]).name != "topic"@,
    ensures
        topic_of(subs) == match subs[i].value {
            SubValueView::Text(s) => Some(s),
            SubValueView::Unsupported => None::<Seq<char>>,
        },
    decreases i,
{
    if i > 0 {
        lemma_topic_of_at(subs.drop_first(), i - 1);
    }
}

fn find_topic(subs: &Vec<SubOption>) -> (r: Option<String>)
    ensures
        match r {
            Some(t) => topic_of(sub_list_view(subs@)) == Some(t@),
            None => topic_of(sub_list_view(subs@)) is None,
        },
{
    let n: usize = subs.len();
    let mut j: usize = 0;
    while j < n
        invariant
            n == subs@.len(),
            j <= n,
            forall|k: int| 0 <= k < j ==> (#[trigger] sub_list_view(subs@)[k]).name != "topic"@,
        decreases n - j,
    {
        if str_eq(subs[j].name.as_str(), "topic") {
            proof {
                assert(sub_list_view(subs@)[j as int] == subs@[j as int]@);
                lemma_topic_of_at(sub_list_view(subs@), j as int);
            }
            match &subs[j].value {
                SubValue::Text(s) => {
                    return Some(s.clone());
                },
                SubValue::Unsupported => {
                    return None;
                },
            }
        }
        proof {
            assert(sub_list_view(subs@)[j as int] == subs@[j as int]@);
        }
        j = j + 1;
    }
    proof {
        lemma_topic_of_none(sub_list_view(subs@));
    }
    None
}

/// Routes one decoded interaction; the decision is exactly `dispatch_spec`
/// of the interaction.
pub fn dispatch(i: &Interaction) -> (r: Dispatch)
    ensures
        r@ == dispatch_spec(i@),
{
    match i {
        Interaction::Ping => Dispatch::Pong,
        Interaction::Command { id, token, data } => {
            if str_eq(data.name.as_str(), "poll") && data.options.len() > 0 {
                proof {
                    assert(option_list_view(data.options@)[0] == data.options@[0]@);
                }
                let first = &data.options[0];
                if str_eq(first.name.as_str(), "start") {
                    match &first.value {
                        OptionValue::SubCommand(subs) => {
                            match find_topic(subs) {
                                Some(t) => Dispatch::StartPoll {
                                    interaction_id: *id,
                                    token: token.clone(),
                                    topic: t,
                                },
                                None => Dispatch::Empty,
                            }
                        },
                        _ => Dispatch::Empty,
                    }
                } else {
                    Dispatch::Empty
                }
            } else {
                Dispatch::Empty
            }
        },
        Interaction::Component { id: _, token: _, custom_id, message_id } => {
            match message_id {
                Some(m) => Dispatch::Press { custom_id: custom_id.clone(), message_id: *m },
                None => Dispatch::MissingMessage,
            }
        },
        Interaction::Other => Dispatch::Empty,
    }
}

} // verus!
