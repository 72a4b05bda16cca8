//! The body of the request, and its JSON text.

use vstd::prelude::*;
use crate::json::{json_string, json_string_text};
use crate::message::{Message, MessageView, message_views};
use crate::numeral::{decimal_text, push_decimal};

verus! {

/// What is sent to the completion endpoint.
#[derive(Debug, PartialEq, Eq)]
pub struct RequestBody {
    pub model: String,
    pub messages: Vec<Message>,
    pub max_tokens: usize,
}

/// A request body as mathematics sees it.
pub struct RequestBodyView {
    pub model: Seq<char>,
    pub messages: Seq<MessageView>,
    pub max_tokens: nat,
}

impl View for RequestBody {
    type V = RequestBodyView;

    open spec fn view(&self) -> RequestBodyView {
        RequestBodyView {
            model: self.model@,
            messages: message_views(self.messages@),
            max_tokens: self.max_tokens as nat,
        }
    }
}

/// The JSON object of one message: `{"role":"..","content":".."}`.
pub open spec fn message_text(message: MessageView) -> Seq<char> {
    "{\"role\":\""@ + message.role.name() + "\",\"content\":"@ + json_string_text(message.content)
        + "}"@
}

/// The JSON objects of the messages, in order, with a comma between each two.
pub open spec fn messages_text(messages: Seq<MessageView>) -> Seq<char>
    decreases messages.len(),
{
    if messages.len() == 0 {
        Seq::empty()
    } else if messages.len() == 1 {
        message_text(messages[0])
    } else {
        messages_text(messages.drop_last()) + ","@ + message_text(messages.last())
    }
}

/// The JSON text of a request body:
/// `{"model":"..","messages":[..],"max_tokens":N}`, without any white space
/// between the tokens.
pub open spec fn request_text(body: RequestBodyView) -> Seq<char> {
    "{\"model\":"@ + json_string_text(body.model) + ",\"messages\":["@ + messages_text(
        body.messages,
    ) + "],\"max_tokens\":"@ + decimal_text(body.max_tokens) + "}"@
}

/// Writes the JSON object of `message` at the end of `out`.
fn push_message(out: &mut String, message: &Message)
    ensures
        final(out)@ == old(out)@ + message_text(message@),
{
    out.append("{\"role\":\"");
    out.append(message.role.as_str());
    out.append("\",\"content\":");
    let content = json_string(message.content.as_str());
    out.append(content.as_str());
    out.append("}");
    assert(final(out)@ =~= old(out)@ + message_text(message@));
}

impl RequestBody {
    /// The JSON text of this body.
    pub fn to_json(&self) -> (text: String)
        ensures
            text@ == request_text(self@),
    {
        let mut out = String::new();
        out.append("{\"model\":");
        let model = json_string(self.model.as_str());
        out.append(model.as_str());
        out.append(",\"messages\":[");
        let ghost head = out@;
        let ghost views = message_views(self.messages@);
        assert(head =~= "{\"model\":"@ + json_string_text(self.model@) + ",\"messages\":["@);
        assert(views.take(0) =~= Seq::<MessageView>::empty());
        let mut i: usize = 0;
        while i < self.messages.len()
            invariant
                i <= self.messages.len(),
                views == message_views(self.messages@),
                out@ == head + messages_text(views.take(i as int)),
            decreases self.messages.len() - i,
        {
            if i > 0 {
                out.append(",");
            }
            push_message(&mut out, &self.messages[i]);
            proof {
                let before = views.take(i as int);
                let after = views.take(i + 1);
                assert(after.drop_last() =~= before);
                assert(after.last() == self.messages@[i as int]@);
                assert(out@ =~= head + messages_text(after));
            }
            i += 1;
        }
        assert(views.take(i as int) =~= views);
        out.append("],\"max_tokens\":");
        push_decimal(&mut out, self.max_tokens);
        out.append("}");
        assert(out@ =~= request_text(self@));
        out
    }
}

} // verus!
