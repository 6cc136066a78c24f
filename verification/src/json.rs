//! JSON text: string literals come from `serde_json`, objects are composed here.

use vstd::prelude::*;
use vstd::string::*;
use crate::decimal::{decimal, push_decimal};
use crate::model::{
    ChatCompletion, ChatCompletionChunk, ChatCompletionChunkView, ChatCompletionView, ChatMessage,
    ChatMessageView, Choice, ChoiceView, ChunkChoice, ChunkChoiceView, Delta, DeltaView,
};

verus! {

/// The JSON string literal for `s`: the text between double quotes, with the
/// escapes that `serde_json` writes.
pub uninterp spec fn json_string(s: Seq<char>) -> Seq<char>;

/// `serde_json::to_string` on a `str`. The result is the JSON string literal
/// of the argument and depends on nothing else; writing a `str` into memory
/// has no way to fail, so the call always yields a literal.
#[verifier::external_body]
pub(crate) fn quote(s: &str) -> (r: String)
    ensures
        r@ == json_string(s@),
{
    serde_json::to_string(s).unwrap_or_default()
}

/// The JSON text of an optional string: `null` where it is absent.
pub open spec fn opt_string_text(o: Option<Seq<char>>) -> Seq<char> {
    match o {
        Some(s) => json_string(s),
        None => "null"@,
    }
}

/// The JSON object of a delta. A field that is absent is left out.
pub open spec fn delta_text(d: DeltaView) -> Seq<char> {
    match (d.role, d.content) {
        (None, None) => "{}"@,
        (Some(r), None) => "{\"role\":"@ + json_string(r) + "}"@,
        (None, Some(c)) => "{\"content\":"@ + json_string(c) + "}"@,
        (Some(r), Some(c)) => "{\"role\":"@ + json_string(r) + ",\"content\":"@ + json_string(c)
            + "}"@,
    }
}

/// The JSON object of one alternative of a chunk.
pub open spec fn chunk_choice_text(c: ChunkChoiceView) -> Seq<char> {
    "{\"index\":"@ + decimal(c.index as nat) + ",\"delta\":"@ + delta_text(c.delta)
        + ",\"finish_reason\":"@ + opt_string_text(c.finish_reason) + "}"@
}

/// The JSON objects of the first `n` alternatives of a chunk, with commas between them.
pub open spec fn chunk_choices_text(cs: Seq<ChunkChoiceView>, n: nat) -> Seq<char>
    recommends
        n <= cs.len(),
    decreases n,
{
    if n == 0 {
        Seq::<char>::empty()
    } else if n == 1 {
        chunk_choice_text(cs[0])
    } else {
        chunk_choices_text(cs, (n - 1) as nat) + ","@ + chunk_choice_text(cs[n - 1])
    }
}

/// The JSON object of a chunk, fields in the order of the struct, no white space.
pub open spec fn chunk_text(c: ChatCompletionChunkView) -> Seq<char> {
    "{\"id\":"@ + json_string(c.id) + ",\"object\":"@ + json_string(c.object) + ",\"created\":"@
        + decimal(c.created as nat) + ",\"model\":"@ + json_string(c.model) + ",\"choices\":["@
        + chunk_choices_text(c.choices, c.choices.len()) + "]}"@
}

/// The JSON object of a finished message.
pub open spec fn message_text(m: ChatMessageView) -> Seq<char> {
    "{\"role\":"@ + json_string(m.role) + ",\"content\":"@ + json_string(m.content) + "}"@
}

/// The JSON object of one alternative of a completion.
pub open spec fn choice_text(c: ChoiceView) -> Seq<char> {
    "{\"index\":"@ + decimal(c.index as nat) + ",\"message\":"@ + message_text(c.message)
        + ",\"finish_reason\":"@ + json_string(c.finish_reason) + "}"@
}

/// The JSON objects of the first `n` alternatives of a completion, with commas between them.
pub open spec fn choices_text(cs: Seq<ChoiceView>, n: nat) -> Seq<char>
    recommends
        n <= cs.len(),
    decreases n,
{
    if n == 0 {
        Seq::<char>::empty()
    } else if n == 1 {
        choice_text(cs[0])
    } else {
        choices_text(cs, (n - 1) as nat) + ","@ + choice_text(cs[n - 1])
    }
}

/// The JSON object of a completion, fields in the order of the struct, no white space.
pub open spec fn completion_text(c: ChatCompletionView) -> Seq<char> {
    "{\"id\":"@ + json_string(c.id) + ",\"object\":"@ + json_string(c.object) + ",\"created\":"@
        + decimal(c.created as nat) + ",\"model\":"@ + json_string(c.model) + ",\"choices\":["@
        + choices_text(c.choices, c.choices.len()) + "]}"@
}

/// The JSON object with the one member `token`.
pub open spec fn token_text(token: Seq<char>) -> Seq<char> {
    "{\"token\":"@ + json_string(token) + "}"@
}

fn push_quoted(out: &mut String, s: &str)
    ensures
        final(out)@ == old(out)@ + json_string(s@),
{
    let q = quote(s);
    out.append(q.as_str());
}

fn push_opt_string(out: &mut String, o: &Option<String>)
    ensures
        final(out)@ == old(out)@ + opt_string_text(crate::model::opt_text(*o)),
{
    match o {
        Some(s) => push_quoted(out, s.as_str()),
        None => out.append("null"),
    }
}

fn push_delta(out: &mut String, d: &Delta)
    ensures
        final(out)@ == old(out)@ + delta_text(d@),
{
    match &d.role {
        Some(r) => {
            out.append("{\"role\":");
            push_quoted(out, r.as_str());
            match &d.content {
                Some(c) => {
                    out.append(",\"content\":");
                    push_quoted(out, c.as_str());
                    out.append("}");
                },
                None => {
                    out.append("}");
                },
            }
        },
        None => {
            match &d.content {
                Some(c) => {
                    out.append("{\"content\":");
                    push_quoted(out, c.as_str());
                    out.append("}");
                },
                None => {
                    out.append("{}");
                },
            }
        },
    }
    assert(final(out)@ =~= old(out)@ + delta_text(d@));
}

fn push_chunk_choice(out: &mut String, c: &ChunkChoice)
    ensures
        final(out)@ == old(out)@ + chunk_choice_text(c@),
{
    out.append("{\"index\":");
    push_decimal(out, c.index as u64);
    out.append(",\"delta\":");
    push_delta(out, &c.delta);
    out.append(",\"finish_reason\":");
    push_opt_string(out, &c.finish_reason);
    out.append("}");
    assert(final(out)@ =~= old(out)@ + chunk_choice_text(c@));
}

fn push_message(out: &mut String, m: &ChatMessage)
    ensures
        final(out)@ == old(out)@ + message_text(m@),
{
    out.append("{\"role\":");
    push_quoted(out, m.role.as_str());
    out.append(",\"content\":");
    push_quoted(out, m.content.as_str());
    out.append("}");
    assert(final(out)@ =~= old(out)@ + message_text(m@));
}

fn push_choice(out: &mut String, c: &Choice)
    ensures
        final(out)@ == old(out)@ + choice_text(c@),
{
    out.append("{\"index\":");
    push_decimal(out, c.index as u64);
    out.append(",\"message\":");
    push_message(out, &c.message);
    out.append(",\"finish_reason\":");
    push_quoted(out, c.finish_reason.as_str());
    out.append("}");
    assert(final(out)@ =~= old(out)@ + choice_text(c@));
}

impl ChatCompletionChunk {
    /// The chunk as JSON text.
    pub fn to_json(&self) -> (r: String)
        ensures
            r@ == chunk_text(self@),
    {
        let mut out = String::new();
        out.append("{\"id\":");
        push_quoted(&mut out, self.id.as_str());
        out.append(",\"object\":");
        push_quoted(&mut out, self.object.as_str());
        out.append(",\"created\":");
        push_decimal(&mut out, self.created);
        out.append(",\"model\":");
        push_quoted(&mut out, self.model.as_str());
        out.append(",\"choices\":[");
        let ghost head = out@;
        let n = self.choices.len();
        let mut i: usize = 0;
        while i < n
            invariant
                n == self.choices@.len(),
                i <= n,
                out@ == head + chunk_choices_text(self@.choices, i as nat),
            decreases n - i,
        {
            if i > 0 {
                out.append(",");
            }
            push_chunk_choice(&mut out, &self.choices[i]);
            assert(self@.choices[i as int] == self.choices@[i as int]@);
            assert(out@ =~= head + chunk_choices_text(self@.choices, (i + 1) as nat));
            i = i + 1;
        }
        out.append("]}");
        assert(out@ =~= chunk_text(self@));
        out
    }
}

impl ChatCompletion {
    /// The completion as JSON text.
    pub fn to_json(&self) -> (r: String)
        ensures
            r@ == completion_text(self@),
    {
        let mut out = String::new();
        out.append("{\"id\":");
        push_quoted(&mut out, self.id.as_str());
        out.append(",\"object\":");
        push_quoted(&mut out, self.object.as_str());
        out.append(",\"created\":");
        push_decimal(&mut out, self.created);
        out.append(",\"model\":");
        push_quoted(&mut out, self.model.as_str());
        out.append(",\"choices\":[");
        let ghost head = out@;
        let n = self.choices.len();
        let mut i: usize = 0;
        while i < n
            invariant
                n == self.choices@.len(),
                i <= n,
                out@ == head + choices_text(self@.choices, i as nat),
            decreases n - i,
        {
            if i > 0 {
                out.append(",");
            }
            push_choice(&mut out, &self.choices[i]);
            assert(self@.choices[i as int] == self.choices@[i as int]@);
            assert(out@ =~= head + choices_text(self@.choices, (i + 1) as nat));
            i = i + 1;
        }
        out.append("]}");
        assert(out@ =~= completion_text(self@));
        out
    }
}

/// The body that carries a freshly signed credential: `{"token":"..."}`.
pub fn token_body(token: &str) -> (r: String)
    ensures
        r@ == token_text(token@),
{
    let mut out = String::new();
    out.append("{\"token\":");
    push_quoted(&mut out, token);
    out.append("}");
    assert(out@ =~= token_text(token@));
    out
}


} // verus!
