//! The context assembler: from a slice of the history and the current input
//! to the exact sequence of entries that is sent to the completion service.

use crate::completion::{entry_views, text_entry, ApiMessage, ApiMessageView, ApiRole};
use crate::message::{message_views, ChatMessage, ChatMessageView, ConversationLevel, Role};
use crate::text::text_of;
use vstd::prelude::*;

verus! {

/// Whether a level folds turns of the given role into its context.
pub open spec fn included(level: ConversationLevel, role: Role) -> bool {
    match level {
        ConversationLevel::Default => role != Role::Analyst,
        ConversationLevel::Dialogue => role == Role::User || role == Role::Persona || role
            == Role::Assistant,
        ConversationLevel::Analysis => role == Role::User || role == Role::Analyst,
    }
}

/// The role under which a stored turn is sent.
pub open spec fn wire_role(role: Role) -> ApiRole {
    match role {
        Role::User => ApiRole::User,
        _ => ApiRole::Assistant,
    }
}

/// The tag put in front of a turn's content, so that its origin stays
/// visible after the role has been reduced to what the service understands.
pub open spec fn origin_tag(level: ConversationLevel, role: Role) -> Seq<char> {
    match role {
        Role::User => Seq::empty(),
        Role::Assistant => if level == ConversationLevel::Dialogue {
            "[AI Assistant Response]: "@
        } else {
            Seq::empty()
        },
        Role::Persona => if level == ConversationLevel::Dialogue {
            "[Persona's Inner Thoughts]: "@
        } else {
            "[Persona]: "@
        },
        Role::Analyst => "[Analysis]: "@,
    }
}

/// The entry that a stored turn becomes.
pub open spec fn relabeled(level: ConversationLevel, turn: ChatMessageView) -> ApiMessageView {
    text_entry(wire_role(turn.role), origin_tag(level, turn.role) + turn.content)
}

/// The filter of a level, as a predicate on turns.
pub open spec fn admits(level: ConversationLevel) -> spec_fn(ChatMessageView) -> bool {
    |turn: ChatMessageView| included(level, turn.role)
}

/// The relabeling of a level, as a function on turns.
pub open spec fn relabels(level: ConversationLevel) -> spec_fn(ChatMessageView) -> ApiMessageView {
    |turn: ChatMessageView| relabeled(level, turn)
}

/// The entries that a history contributes: the turns that the level admits,
/// in their stored order, each relabeled.
pub open spec fn context_entries(
    level: ConversationLevel,
    history: Seq<ChatMessageView>,
) -> Seq<ApiMessageView> {
    history.filter(admits(level)).map_values(relabels(level))
}

/// The entry that carries the current input. An image is attached only at
/// the default level.
pub open spec fn input_entry(
    level: ConversationLevel,
    input: Seq<char>,
    image_url: Option<Seq<char>>,
) -> ApiMessageView {
    ApiMessageView {
        role: ApiRole::User,
        text: input,
        image_url: if level == ConversationLevel::Default {
            image_url
        } else {
            None
        },
    }
}

/// The whole sequence: the instruction, the history's entries, the input.
pub open spec fn assembled(
    level: ConversationLevel,
    instruction: Seq<char>,
    history: Seq<ChatMessageView>,
    input: Seq<char>,
    image_url: Option<Seq<char>>,
) -> Seq<ApiMessageView> {
    seq![text_entry(ApiRole::System, instruction)] + context_entries(level, history) + seq![
        input_entry(level, input, image_url),
    ]
}

/// Whether a level folds turns of the given role into its context.
pub fn level_includes(level: ConversationLevel, role: Role) -> (r: bool)
    ensures
        r == included(level, role),
{
    match level {
        ConversationLevel::Default => !matches!(role, Role::Analyst),
        ConversationLevel::Dialogue => !matches!(role, Role::Analyst),
        ConversationLevel::Analysis => matches!(role, Role::User | Role::Analyst),
    }
}

fn tag_for(level: ConversationLevel, role: Role) -> (r: &'static str)
    ensures
        r@ == origin_tag(level, role),
{
    proof {
        reveal_strlit("");
    }
    let tag = match role {
        Role::User => "",
        Role::Assistant => match level {
            ConversationLevel::Dialogue => "[AI Assistant Response]: ",
            _ => "",
        },
        Role::Persona => match level {
            ConversationLevel::Dialogue => "[Persona's Inner Thoughts]: ",
            _ => "[Persona]: ",
        },
        Role::Analyst => "[Analysis]: ",
    };
    assert(""@ =~= Seq::<char>::empty());
    tag
}

/// Relabels one stored turn for the service.
pub fn relabel(level: ConversationLevel, turn: &ChatMessage) -> (r: ApiMessage)
    ensures
        r@ == relabeled(level, turn@),
{
    let role = match turn.role {
        Role::User => ApiRole::User,
        _ => ApiRole::Assistant,
    };
    let mut text = String::from_str(tag_for(level, turn.role));
    text.append(turn.content.as_str());
    ApiMessage::text(role, text)
}

/// Assembles the sequence of entries for one request: the instruction as the
/// system entry, then every turn of `history` that the level admits, in the
/// stored order and relabeled, then the current input as the last entry.
/// `image_url` is attached to the input at the default level and ignored at
/// the others.
pub fn assemble(
    level: ConversationLevel,
    instruction: &str,
    history: &Vec<ChatMessage>,
    input: &str,
    image_url: Option<String>,
) -> (r: Vec<ApiMessage>)
    ensures
        entry_views(r@) == assembled(
            level,
            instruction@,
            message_views(history@),
            input@,
            text_of(image_url),
        ),
{
    let ghost turns = message_views(history@);
    let ghost head = seq![text_entry(ApiRole::System, instruction@)];
    let mut entries: Vec<ApiMessage> = Vec::new();
    entries.push(ApiMessage::text(ApiRole::System, String::from_str(instruction)));
    assert(entry_views(entries@) =~= head + context_entries(level, turns.take(0))) by {
        reveal(Seq::filter);
        assert(turns.take(0) =~= Seq::<ChatMessageView>::empty());
    }
    let mut i: usize = 0;
    while i < history.len()
        invariant
            i <= history.len(),
            turns == message_views(history@),
            head == seq![text_entry(ApiRole::System, instruction@)],
            entry_views(entries@) == head + context_entries(level, turns.take(i as int)),
        decreases history.len() - i,
    {
        let turn = &history[i];
        proof {
            assert(turns.take(i + 1) =~= turns.take(i as int).push(turn@));
            turns.take(i as int).lemma_filter_push(turn@, admits(level));
        }
        if level_includes(level, turn.role) {
            let ghost before = entries@;
            let entry = relabel(level, turn);
            entries.push(entry);
            assert(entry_views(entries@) =~= entry_views(before).push(entry@));
            assert(context_entries(level, turns.take(i + 1)) =~= context_entries(
                level,
                turns.take(i as int),
            ).push(relabeled(level, turn@)));
        }
        i += 1;
    }
    assert(turns.take(history.len() as int) =~= turns);
    let attached = match level {
        ConversationLevel::Default => image_url,
        _ => None,
    };
    let ghost before = entries@;
    let last = ApiMessage { role: ApiRole::User, text: String::from_str(input), image_url: attached };
    entries.push(last);
    assert(entry_views(entries@) =~= entry_views(before).push(last@));
    entries
}

/// Every entry that a history contributes stems from a turn whose role the
/// level admits, and every admitted turn contributes its entry: no turn of
/// an excluded role reaches the service.
pub proof fn lemma_context_respects_filter(level: ConversationLevel, history: Seq<ChatMessageView>)
    ensures
        forall|k: int|
            0 <= k < context_entries(level, history).len() ==> exists|j: int|
                0 <= j < history.len() && included(level, history[j].role) && relabeled(
                    level,
                    history[j],
                ) == #[trigger] context_entries(level, history)[k],
        forall|j: int|
            0 <= j < history.len() && included(level, #[trigger] history[j].role)
                ==> context_entries(level, history).contains(relabeled(level, history[j])),
        context_entries(level, history).len() <= history.len(),
{
    let kept = history.filter(admits(level));
    let entries = context_entries(level, history);
    broadcast use Seq::lemma_filter_len;
    assert forall|k: int| 0 <= k < entries.len() implies exists|j: int|
        0 <= j < history.len() && included(level, history[j].role) && relabeled(level, history[j])
            == #[trigger] entries[k] by {
        history.lemma_filter_pred(admits(level), k);
        history.lemma_filter_contains_rev(admits(level), kept[k]);
        let j = choose|j: int| 0 <= j < history.len() && history[j] == kept[k];
        assert(relabeled(level, history[j]) == entries[k]);
    }
    assert forall|j: int|
        0 <= j < history.len() && included(level, #[trigger] history[j].role) implies entries.contains(
        relabeled(level, history[j]),
    ) by {
        history.lemma_filter_contains(admits(level), j);
        let k = choose|k: int| 0 <= k < kept.len() && kept[k] == history[j];
        assert(entries[k] == relabeled(level, history[j]));
    }
}

/// The levels keep their answers apart: what the analysis level produces is
/// folded into no other level's context, and the analysis level folds in
/// nothing that the other two produce. What the user typed is context at
/// every level.
pub proof fn lemma_levels_keep_apart(level: ConversationLevel)
    ensures
        included(level, Role::User),
        included(level, Role::Analyst) <==> level == ConversationLevel::Analysis,
        included(ConversationLevel::Analysis, Role::Assistant) == false,
        included(ConversationLevel::Analysis, Role::Persona) == false,
{
}

} // verus!
