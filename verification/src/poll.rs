//! The poll-start handler's data: the follow-up message with its two vote
//! buttons, its JSON document, and the per-interaction callback URL the
//! document is posted to.

use vstd::prelude::*;
use vstd::string::*;
use crate::json::{
    JsonValue, get_field, int_field, str_field, lemma_obj_lookup_found,
};
use crate::text::{dec_chars, u64_to_dec};

verus! {

/// Visual style of a vote button.
#[derive(Debug, Clone, Copy, PartialEq, Eq, Structural)]
pub enum ButtonStyle {
    Success,
    Danger,
}

/// One interactive button of the poll message: the custom id handed back on
/// press, the emoji shown, and the style.
#[derive(Debug)]
pub struct Button {
    pub custom_id: String,
    pub emoji: String,
    pub style: ButtonStyle,
}

pub struct ButtonView {
    pub custom_id: Seq<char>,
    pub emoji: Seq<char>,
    pub style: ButtonStyle,
}

impl View for Button {
    type V = ButtonView;

    open spec fn view(&self) -> ButtonView {
        ButtonView { custom_id: self.custom_id@, emoji: self.emoji@, style: self.style }
    }
}

/// The follow-up message of a freshly started poll: the topic as content
/// and one row of vote buttons.
#[derive(Debug)]
pub struct FollowUpMessage {
    pub content: String,
    pub buttons: Vec<Button>,
}

pub struct FollowUpMessageView {
    pub content: Seq<char>,
    pub buttons: Seq<ButtonView>,
}

/// The views of a button list, element for element.
pub open spec fn button_list_view(s: Seq<Button>) -> Seq<ButtonView> {
    s.map_values(|b: Button| b@)
}

impl View for FollowUpMessage {
    type V = FollowUpMessageView;

    open spec fn view(&self) -> FollowUpMessageView {
        FollowUpMessageView { content: self.content@, buttons: button_list_view(self.buttons@) }
    }
}

/// The custom id a vote button carries: the poll id, a colon, the choice.
pub open spec fn custom_id_chars(poll_id: Seq<char>, choice: Seq<char>) -> Seq<char> {
    poll_id + ":"@ + choice
}

/// Joins a poll id and a vote choice into a button's custom id.
pub fn make_custom_id(poll_id: &str, choice: &str) -> (r: String)
    ensures
        r@ == custom_id_chars(poll_id@, choice@),
{
    let head: String = poll_id.to_owned();
    let mid: String = head.concat(":");
    mid.concat(choice)
}

/// The poll identifier of a new poll: a fixed placeholder while no poll
/// store exists.
pub fn placeholder_poll_id() -> (r: String)
    ensures
        r@ == "id-here"@,
{
    "id-here".to_owned()
}

/// The poll follow-up message for a topic: the topic as content, one
/// success-styled thumbs-up button `<poll_id>:yes` and one danger-styled
/// thumbs-down button `<poll_id>:no`, in that order.
pub open spec fn poll_message_spec(poll_id: Seq<char>, topic: Seq<char>) -> FollowUpMessageView {
    FollowUpMessageView {
        content: topic,
        buttons: seq![
            ButtonView {
                custom_id: custom_id_chars(poll_id, "yes"@),
                emoji: "\u{1f44d}"@,
                style: ButtonStyle::Success,
            },
            ButtonView {
                custom_id: custom_id_chars(poll_id, "no"@),
                emoji: "\u{1f44e}"@,
                style: ButtonStyle::Danger,
            },
        ],
    }
}

/// Builds the poll follow-up message for a topic.
pub fn build_poll_message(poll_id: &str, topic: &str) -> (r: FollowUpMessage)
    ensures
        r@ == poll_message_spec(poll_id@, topic@),
{
    let yes = Button {
        custom_id: make_custom_id(poll_id, "yes"),
        emoji: "\u{1f44d}".to_owned(),
        style: ButtonStyle::Success,
    };
    let no = Button {
        custom_id: make_custom_id(poll_id, "no"),
        emoji: "\u{1f44e}".to_owned(),
        style: ButtonStyle::Danger,
    };
    let mut buttons: Vec<Button> = Vec::new();
    buttons.push(yes);
    buttons.push(no);
    let r = FollowUpMessage { content: topic.to_owned(), buttons };
    proof {
        assert(button_list_view(r.buttons@) =~= poll_message_spec(poll_id@, topic@).buttons);
    }
    r
}

/// The platform's per-interaction callback URL, derived from the
/// interaction id and the continuation token.
pub open spec fn interaction_url_chars(id: nat, token: Seq<char>) -> Seq<char> {
    "https://discord.com/api/v10/interactions/"@ + dec_chars(id) + "/"@ + token + "/callback"@
}

/// Builds the callback URL for one interaction.
pub fn make_interaction_url(id: u64, token: &String) -> (r: String)
    ensures
        r@ == interaction_url_chars(id as nat, token@),
{
    let head: String = "https://discord.com/api/v10/interactions/".to_owned();
    let d: String = u64_to_dec(id);
    let a: String = head.concat(d.as_str());
    let b: String = a.concat("/");
    let c: String = b.concat(token.as_str());
    c.concat("/callback")
}

/// Each vote button's custom id ends in its vote tag: `:yes` for the
/// first button, `:no` for the second, after the poll id.
pub proof fn lemma_poll_button_ids_tagged(poll_id: Seq<char>, topic: Seq<char>)
    ensures
        poll_message_spec(poll_id, topic).buttons.len() == 2,
        poll_message_spec(poll_id, topic).buttons[0].custom_id.skip(poll_id.len() as int)
            == ":yes"@,
        poll_message_spec(poll_id, topic).buttons[1].custom_id.skip(poll_id.len() as int)
            == ":no"@,
{
    reveal_strlit(":");
    reveal_strlit("yes");
    reveal_strlit("no");
    reveal_strlit(":yes");
    reveal_strlit(":no");
    assert(custom_id_chars(poll_id, "yes"@).skip(poll_id.len() as int) =~= ":yes"@);
    assert(custom_id_chars(poll_id, "no"@).skip(poll_id.len() as int) =~= ":no"@);
}

/// The wire number of a button style.
pub open spec fn style_code(s: ButtonStyle) -> i64 {
    match s {
        ButtonStyle::Success => 3,
        ButtonStyle::Danger => 4,
    }
}

/// Whether the JSON document `j` renders the button `b`: a button-typed
/// component with the button's custom id, style, emoji, and not disabled.
pub open spec fn button_shape(j: JsonValue, b: ButtonView) -> bool {
    &&& int_field(j, "type"@) == Some(2i64)
    &&& str_field(j, "custom_id"@) == Some(b.custom_id)
    &&& int_field(j, "style"@) == Some(style_code(b.style))
    &&& get_field(j, "disabled"@) == Some(JsonValue::Bool(false))
    &&& (get_field(j, "emoji"@) matches Some(e) && str_field(e, "name"@) == Some(b.emoji))
}

/// Whether the JSON document `j` renders the follow-up message `m`: an
/// immediate channel-message response (type 4) whose data carries the
/// message content and exactly one action row with one rendered button per
/// message button, in order.
pub open spec fn follow_up_shape(j: JsonValue, m: FollowUpMessageView) -> bool {
    &&& int_field(j, "type"@) == Some(4i64)
    &&& (get_field(j, "data"@) matches Some(d) && {
        &&& str_field(d, "content"@) == Some(m.content)
        &&& (get_field(d, "components"@) matches Some(JsonValue::Arr(rows)) && rows@.len() == 1
            && (get_field(rows@[0], "components"@) matches Some(JsonValue::Arr(btns)) && {
            &&& btns@.len() == m.buttons.len()
            &&& forall|i: int|
                0 <= i < btns@.len() ==> button_shape(#[trigger] btns@[i], m.buttons[i])
        }))
    })
}

fn button_json(b: &Button) -> (r: JsonValue)
    ensures
        button_shape(r, b@),
{
    let mut emoji_fields: Vec<(String, JsonValue)> = Vec::new();
    emoji_fields.push(("name".to_owned(), JsonValue::Str(b.emoji.clone())));
    let style: i64 = match b.style {
        ButtonStyle::Success => 3,
        ButtonStyle::Danger => 4,
    };
    let mut fields: Vec<(String, JsonValue)> = Vec::new();
    fields.push(("type".to_owned(), JsonValue::Int(2)));
    fields.push(("style".to_owned(), JsonValue::Int(style)));
    fields.push(("custom_id".to_owned(), JsonValue::Str(b.custom_id.clone())));
    fields.push(("emoji".to_owned(), JsonValue::Obj(emoji_fields)));
    fields.push(("disabled".to_owned(), JsonValue::Bool(false)));
    let r = JsonValue::Obj(fields);
    proof {
        reveal_strlit("type");
        reveal_strlit("style");
        reveal_strlit("custom_id");
        reveal_strlit("emoji");
        reveal_strlit("disabled");
        reveal_strlit("name");
        assert("type"@.len() == 4);
        assert("style"@.len() == 5);
        assert("custom_id"@.len() == 9);
        assert("emoji"@.len() == 5);
        assert("disabled"@.len() == 8);
        assert("style"@[0] == 's');
        assert("emoji"@[0] == 'e');
        assert("style"@ != "emoji"@);
        lemma_obj_lookup_found(emoji_fields@, "name"@, 0);
        lemma_obj_lookup_found(fields@, "type"@, 0);
        lemma_obj_lookup_found(fields@, "style"@, 1);
        lemma_obj_lookup_found(fields@, "custom_id"@, 2);
        lemma_obj_lookup_found(fields@, "emoji"@, 3);
        lemma_obj_lookup_found(fields@, "disabled"@, 4);
    }
    r
}

fn button_row_json(buttons: &Vec<Button>) -> (r: JsonValue)
    ensures
        int_field(r, "type"@) == Some(1i64),
        get_field(r, "components"@) matches Some(JsonValue::Arr(btns)) && {
            &&& btns@.len() == button_list_view(buttons@).len()
            &&& forall|i: int|
                0 <= i < btns@.len() ==> button_shape(
                    #[trigger] btns@[i],
                    button_list_view(buttons@)[i],
                )
        },
{
    let n: usize = buttons.len();
    let mut btns: Vec<JsonValue> = Vec::new();
    let mut i: usize = 0;
    while i < n
        invariant
            n == buttons@.len(),
            i <= n,
            btns@.len() == i,
            forall|j: int|
                0 <= j < i ==> button_shape(#[trigger] btns@[j], button_list_view(buttons@)[j]),
        decreases n - i,
    {
        proof {
            assert(button_list_view(buttons@)[i as int] == buttons@[i as int]@);
        }
        let bj = button_json(&buttons[i]);
        btns.push(bj);
        i = i + 1;
    }
    let mut fields: Vec<(String, JsonValue)> = Vec::new();
    fields.push(("type".to_owned(), JsonValue::Int(1)));
    fields.push(("components".to_owned(), JsonValue::Arr(btns)));
    let r = JsonValue::Obj(fields);
    proof {
        reveal_strlit("type");
        reveal_strlit("components");
        assert("type"@.len() == 4);
        assert("components"@.len() == 10);
        lemma_obj_lookup_found(fields@, "type"@, 0);
        lemma_obj_lookup_found(fields@, "components"@, 1);
    }
    r
}

/// Builds the JSON document of a poll follow-up message: an immediate
/// channel-message response carrying the content and one action row of
/// vote buttons.
pub fn follow_up_json(m: &FollowUpMessage) -> (r: JsonValue)
    ensures
        follow_up_shape(r, m@),
{
    let row = button_row_json(&m.buttons);
    let mut rows: Vec<JsonValue> = Vec::new();
    rows.push(row);
    let mut data_fields: Vec<(String, JsonValue)> = Vec::new();
    data_fields.push(("content".to_owned(), JsonValue::Str(m.content.clone())));
    data_fields.push(("components".to_owned(), JsonValue::Arr(rows)));
    let data = JsonValue::Obj(data_fields);
    let mut fields: Vec<(String, JsonValue)> = Vec::new();
    fields.push(("type".to_owned(), JsonValue::Int(4)));
    fields.push(("data".to_owned(), data));
    let r = JsonValue::Obj(fields);
    proof {
        reveal_strlit("type");
        reveal_strlit("data");
        reveal_strlit("content");
        reveal_strlit("components");
        assert("type"@.len() == 4);
        assert("data"@.len() == 4);
        assert("content"@.len() == 7);
        assert("components"@.len() == 10);
        assert("type"@[0] == 't');
        assert("data"@[0] == 'd');
        assert("type"@ != "data"@);
        lemma_obj_lookup_found(data_fields@, "content"@, 0);
        lemma_obj_lookup_found(data_fields@, "components"@, 1);
        lemma_obj_lookup_found(fields@, "type"@, 0);
        lemma_obj_lookup_found(fields@, "data"@, 1);
    }
    r
}

} // verus!
