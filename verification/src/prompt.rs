//! Turns negotiated prompts into agent-consumable text.
//!
//! A prompt's messages are rendered into one system-prompt string with
//! role-labeled lines, applicability is judged from the required arguments,
//! and argument placeholders are substituted into every message.

use vstd::prelude::*;
use crate::protocol::{
    substituted_seq, MCPPrompt, MCPPromptContent, MCPPromptMessage, MCPPromptMessageContent,
    MCPPromptMessageContentBlock,
};
use crate::text::str_eq;

verus! {

/// The displayable text of one message content: the text itself for textual
/// variants, a bracketed placeholder otherwise.
pub open spec fn text_of(c: MCPPromptMessageContent) -> Seq<char> {
    match c {
        MCPPromptMessageContent::Plain(s) => s@,
        MCPPromptMessageContent::Block(b) => match b {
            MCPPromptMessageContentBlock::Text { text } => text@,
            MCPPromptMessageContentBlock::Image { data, mime_type } => "[Image: "@ + mime_type@
                + "]"@,
            MCPPromptMessageContentBlock::Audio { data, mime_type } => "[Audio: "@ + mime_type@
                + "]"@,
            MCPPromptMessageContentBlock::Resource { resource } => "[Resource: "@ + resource.uri@
                + "]"@,
        },
    }
}

/// One message rendered for the system prompt: raw text for the `system`
/// role, `User: `/`Assistant: ` labels for those roles, and a generic
/// `role: text` line otherwise.
pub open spec fn rendered_message(m: MCPPromptMessage) -> Seq<char> {
    let text = text_of(m.content);
    if m.role@ == "system"@ {
        text
    } else if m.role@ == "user"@ {
        "User: "@ + text
    } else if m.role@ == "assistant"@ {
        "Assistant: "@ + text
    } else {
        m.role@ + ": "@ + text
    }
}

/// The rendered messages joined with blank-line separation.
pub open spec fn system_prompt_of(msgs: Seq<MCPPromptMessage>) -> Seq<char>
    decreases msgs.len(),
{
    if msgs.len() == 0 {
        Seq::empty()
    } else if msgs.len() == 1 {
        rendered_message(msgs[0])
    } else {
        rendered_message(msgs[0]) + "\n\n"@ + system_prompt_of(msgs.drop_first())
    }
}

/// Appending one message to a rendered prompt appends its rendered text,
/// after a blank-line separator unless the prompt was empty.
proof fn lemma_system_prompt_push(msgs: Seq<MCPPromptMessage>, m: MCPPromptMessage)
    ensures
        msgs.len() == 0 ==> system_prompt_of(msgs.push(m)) == rendered_message(m),
        msgs.len() > 0 ==> system_prompt_of(msgs.push(m)) == system_prompt_of(msgs) + "\n\n"@
            + rendered_message(m),
    decreases msgs.len(),
{
    let p = msgs.push(m);
    if msgs.len() == 0 {
        assert(p.len() == 1);
        assert(p[0] == m);
    } else {
        assert(p[0] == msgs[0]);
        assert(p.drop_first() =~= msgs.drop_first().push(m));
        lemma_system_prompt_push(msgs.drop_first(), m);
        if msgs.len() == 1 {
            assert(system_prompt_of(p) == rendered_message(msgs[0]) + "\n\n"@ + rendered_message(
                m,
            ));
        } else {
            assert(system_prompt_of(p) == rendered_message(msgs[0]) + "\n\n"@ + (system_prompt_of(
                msgs.drop_first(),
            ) + "\n\n"@ + rendered_message(m)));
            assert(rendered_message(msgs[0]) + "\n\n"@ + (system_prompt_of(msgs.drop_first())
                + "\n\n"@ + rendered_message(m)) =~= (rendered_message(msgs[0]) + "\n\n"@
                + system_prompt_of(msgs.drop_first())) + "\n\n"@ + rendered_message(m));
        }
    }
}

/// Whether the context supplies a value for `key`.
pub open spec fn context_has_key(ctx: Seq<(String, String)>, key: Seq<char>) -> bool {
    exists|i: int| 0 <= i < ctx.len() && (#[trigger] ctx[i]).0@ == key
}

/// Whether a prompt can be used with the given context: every argument it
/// marks required has a value supplied.
pub open spec fn applicable(prompt: MCPPrompt, ctx: Seq<(String, String)>) -> bool {
    match prompt.arguments {
        None => true,
        Some(args) => forall|i: int|
            0 <= i < args@.len() ==> ((#[trigger] args@[i]).required ==> context_has_key(
                ctx,
                args@[i].name@,
            )),
    }
}

/// Looks a key up in a context.
fn context_contains_key(ctx: &Vec<(String, String)>, key: &str) -> (r: bool)
    ensures
        r == context_has_key(ctx@, key@),
{
    let n: usize = ctx.len();
    let mut i: usize = 0;
    while i < n
        invariant
            n == ctx@.len(),
            i <= n,
            forall|j: int| 0 <= j < i ==> (#[trigger] ctx@[j]).0@ != key@,
        decreases n - i,
    {
        if str_eq(ctx[i].0.as_str(), key) {
            return true;
        }
        i = i + 1;
    }
    false
}

/// Adapts negotiated prompts for consumption outside the core.
pub struct PromptAdapter;

impl PromptAdapter {
    /// Renders a prompt's messages into one system-prompt string: each
    /// message's role-labeled text, joined with blank lines.
    pub fn to_system_prompt(content: &MCPPromptContent) -> (r: String)
        ensures
            r@ == system_prompt_of(content.messages@),
    {
        let n: usize = content.messages.len();
        let mut out: String = String::new();
        let mut i: usize = 0;
        proof {
            assert(content.messages@.take(0) =~= Seq::<MCPPromptMessage>::empty());
        }
        while i < n
            invariant
                n == content.messages@.len(),
                i <= n,
                out@ == system_prompt_of(content.messages@.take(i as int)),
                i == 0 <==> content.messages@.take(i as int).len() == 0,
            decreases n - i,
        {
            let msg: &MCPPromptMessage = &content.messages[i];
            let text: String = msg.content.text_or_placeholder();
            proof {
                assert(text@ == text_of(msg.content));
            }
            let line: String = if str_eq(msg.role.as_str(), "system") {
                text
            } else if str_eq(msg.role.as_str(), "user") {
                String::from_str("User: ").concat(text.as_str())
            } else if str_eq(msg.role.as_str(), "assistant") {
                String::from_str("Assistant: ").concat(text.as_str())
            } else {
                msg.role.clone().concat(": ").concat(text.as_str())
            };
            assert(line@ == rendered_message(content.messages@[i as int]));
            proof {
                lemma_system_prompt_push(content.messages@.take(i as int), content.messages@[i as int]);
                assert(content.messages@.take(i as int).push(content.messages@[i as int])
                    =~= content.messages@.take(i + 1));
            }
            if i > 0 {
                out.append("\n\n");
            }
            out.append(line.as_str());
            i = i + 1;
        }
        proof {
            assert(content.messages@.take(n as int) =~= content.messages@);
        }
        out
    }

    /// Whether a prompt is applicable to the supplied context: false exactly
    /// when some required argument has no value.
    pub fn is_applicable(prompt: &MCPPrompt, context: &Vec<(String, String)>) -> (r: bool)
        ensures
            r == applicable(*prompt, context@),
    {
        let args: &Vec<crate::protocol::MCPPromptArgument> = match &prompt.arguments {
            None => {
                return true;
            },
            Some(args) => args,
        };
        let n: usize = args.len();
        let mut i: usize = 0;
        while i < n
            invariant
                prompt.arguments == Some(*args),
                n == args@.len(),
                i <= n,
                forall|j: int|
                    0 <= j < i ==> ((#[trigger] args@[j]).required ==> context_has_key(
                        context@,
                        args@[j].name@,
                    )),
            decreases n - i,
        {
            if args[i].required && !context_contains_key(context, args[i].name.as_str()) {
                return false;
            }
            i = i + 1;
        }
        true
    }

    /// Substitutes argument placeholders into every message, in place in the
    /// returned vector; non-text contents are untouched.
    pub fn substitute_arguments(
        messages: Vec<MCPPromptMessage>,
        arguments: &Vec<(String, String)>,
    ) -> (r: Vec<MCPPromptMessage>)
        ensures
            r@.len() == messages@.len(),
            forall|k: int|
                0 <= k < messages@.len() ==> {
                    let m0 = messages@[k];
                    let m1 = #[trigger] r@[k];
                    &&& m1.role == m0.role
                    &&& (m0.content matches MCPPromptMessageContent::Plain(s) ==> (m1.content
                        matches MCPPromptMessageContent::Plain(s2) && s2@ == substituted_seq(
                        s@,
                        arguments@,
                    )))
                    &&& (m0.content matches MCPPromptMessageContent::Block(
                        MCPPromptMessageContentBlock::Text { text },
                    ) ==> (m1.content matches MCPPromptMessageContent::Block(
                        MCPPromptMessageContentBlock::Text { text: t2 },
                    ) && t2@ == substituted_seq(text@, arguments@)))
                    &&& (!(m0.content matches MCPPromptMessageContent::Plain(_)) && !(m0.content
                        matches MCPPromptMessageContent::Block(
                        MCPPromptMessageContentBlock::Text { .. },
                    )) ==> m1.content == m0.content)
                },
    {
        let mut out = messages;
        let ghost orig = out@;
        let n: usize = out.len();
        let mut i: usize = 0;
        while i < n
            invariant
                n == out@.len(),
                out@.len() == orig.len(),
                i <= n,
                forall|k: int| i <= k < n ==> #[trigger] out@[k] == orig[k],
                forall|k: int|
                    0 <= k < i ==> {
                        let m0 = orig[k];
                        let m1 = #[trigger] out@[k];
                        &&& m1.role == m0.role
                        &&& (m0.content matches MCPPromptMessageContent::Plain(s) ==> (m1.content
                            matches MCPPromptMessageContent::Plain(s2) && s2@ == substituted_seq(
                            s@,
                            arguments@,
                        )))
                        &&& (m0.content matches MCPPromptMessageContent::Block(
                            MCPPromptMessageContentBlock::Text { text },
                        ) ==> (m1.content matches MCPPromptMessageContent::Block(
                            MCPPromptMessageContentBlock::Text { text: t2 },
                        ) && t2@ == substituted_seq(text@, arguments@)))
                        &&& (!(m0.content matches MCPPromptMessageContent::Plain(_)) && !(m0.content
                            matches MCPPromptMessageContent::Block(
                            MCPPromptMessageContentBlock::Text { .. },
                        )) ==> m1.content == m0.content)
                    },
            decreases n - i,
        {
            let m = &mut out[i];
            m.content.substitute_placeholders(arguments);
            i = i + 1;
        }
        out
    }
}

} // verus!
