use vstd::prelude::*;
use vstd::string::*;
use crate::text::{last_index_of, to_chars};

verus! {

/// The two parts of a form's id, which is an action and a message id with
/// an underscore between them: what stands before the last underscore and
/// what stands after it. An id without an underscore has no parts.
pub open spec fn modal_id_parts(custom_id: Seq<char>) -> Option<(Seq<char>, Seq<char>)> {
    let at = last_index_of(custom_id, '_');
    if at < 0 {
        None
    } else {
        Some((custom_id.subrange(0, at), custom_id.subrange(at + 1, custom_id.len() as int)))
    }
}

proof fn lemma_last_index_bounds(s: Seq<char>, sep: char)
    ensures
        -1 <= last_index_of(s, sep) < s.len(),
    decreases s.len(),
{
    if s.len() != 0 && s.last() != sep {
        lemma_last_index_bounds(s.drop_last(), sep);
    }
}

/// Splits the id of a form at its last underscore.
pub fn parse_modal_custom_id(custom_id: &str) -> (parts: Option<(&str, &str)>)
    ensures
        parts.is_some() == modal_id_parts(custom_id@).is_some(),
        parts.is_some() ==> parts.unwrap().0@ == modal_id_parts(custom_id@).unwrap().0
            && parts.unwrap().1@ == modal_id_parts(custom_id@).unwrap().1,
{
    let chars = to_chars(custom_id);
    let n: usize = chars.len();
    let mut i: usize = n;
    proof {
        assert(chars@.subrange(0, n as int) =~= chars@);
    }
    while i > 0 && chars[i - 1] != '_'
        invariant
            i <= n,
            n == chars.len(),
            chars@ == custom_id@,
            last_index_of(chars@, '_') == last_index_of(chars@.subrange(0, i as int), '_'),
        decreases i,
    {
        proof {
            assert(chars@.subrange(0, i as int).drop_last() =~= chars@.subrange(0, i - 1));
        }
        i -= 1;
    }
    proof {
        lemma_last_index_bounds(chars@, '_');
    }
    if i == 0 {
        None
    } else {
        let action = custom_id.substring_char(0, i - 1);
        let message_id = custom_id.substring_char(i, n);
        Some((action, message_id))
    }
}

/// What a submitted form asks for.
#[derive(Debug, Clone, Copy, PartialEq, Eq, Structural)]
pub enum ModalAction {
    /// A new name for the draft shown in the given message.
    EditName(u64),
    /// New restrictions for the draft shown in the given message.
    EditRestrictions(u64),
    /// Nothing that the bot knows: the form is acknowledged and no more.
    Acknowledge,
}

/// Reads the id of a submitted form: the action before the last
/// underscore, the message's id in decimal notation after it.
pub open spec fn modal_action(custom_id: Seq<char>) -> ModalAction {
    match modal_id_parts(custom_id) {
        None => ModalAction::Acknowledge,
        Some((action, message)) => match crate::text::parsed_u64(message) {
            None => ModalAction::Acknowledge,
            Some(message_id) => if action == "edit_name_modal"@ {
                ModalAction::EditName(message_id)
            } else if action == "edit_restrictions_modal"@ {
                ModalAction::EditRestrictions(message_id)
            } else {
                ModalAction::Acknowledge
            },
        },
    }
}

/// Decides what a submitted form asks for.
pub fn handle_modal_submit(custom_id: &str) -> (action: ModalAction)
    ensures
        action == modal_action(custom_id@),
{
    match parse_modal_custom_id(custom_id) {
        None => ModalAction::Acknowledge,
        Some((action, message)) => match crate::text::parse_u64(message) {
            None => ModalAction::Acknowledge,
            Some(message_id) => {
                if crate::text::str_eq(action, "edit_name_modal") {
                    ModalAction::EditName(message_id)
                } else if crate::text::str_eq(action, "edit_restrictions_modal") {
                    ModalAction::EditRestrictions(message_id)
                } else {
                    ModalAction::Acknowledge
                }
            },
        },
    }
}

} // verus!
