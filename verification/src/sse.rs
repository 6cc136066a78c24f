//! Server-sent events on the wire: each event is its data, line by line,
//! every line behind `data: `, and an empty line at the end.

use vstd::prelude::*;
use vstd::string::*;
use crate::json::chunk_text;
use crate::stream::{StreamEvent, StreamEventView};

verus! {

/// The data of an event with `data: ` put in front of every line but the first.
pub open spec fn data_lines(data: Seq<char>) -> Seq<char>
    decreases data.len(),
{
    if data.len() == 0 {
        Seq::<char>::empty()
    } else if data.last() == '\n' {
        data_lines(data.drop_last()) + "\ndata: "@
    } else {
        data_lines(data.drop_last()).push(data.last())
    }
}

/// An event can carry any data but a carriage return.
pub open spec fn can_frame(data: Seq<char>) -> bool {
    forall|i: int| 0 <= i < data.len() ==> data[i] != '\r'
}

/// The event that carries `data`, as it is written on the wire.
pub open spec fn frame_text(data: Seq<char>) -> Seq<char> {
    "data: "@ + data_lines(data) + "\n\n"@
}

/// The data of an event: the JSON text of a chunk, or the literal `[DONE]`.
pub open spec fn event_data(ev: StreamEventView) -> Seq<char> {
    match ev {
        StreamEventView::Chunk(c) => chunk_text(c),
        StreamEventView::Terminator => "[DONE]"@,
    }
}

/// Writes the event that carries `data`. Data with a carriage return cannot
/// be sent and gives nothing.
pub fn frame(data: &str) -> (r: Option<String>)
    ensures
        match r {
            Some(f) => can_frame(data@) && f@ == frame_text(data@),
            None => !can_frame(data@),
        },
{
    let n = data.unicode_len();
    let mut out = String::from_str("data: ");
    let mut i: usize = 0;
    while i < n
        invariant
            n == data@.len(),
            i <= n,
            can_frame(data@.take(i as int)),
            out@ == "data: "@ + data_lines(data@.take(i as int)),
        decreases n - i,
    {
        let c = data.get_char(i);
        if c == '\r' {
            return None;
        }
        proof {
            assert(data@.take(i + 1).drop_last() =~= data@.take(i as int));
            assert(data@.take(i + 1).last() == c);
        }
        if c == '\n' {
            out.append("\ndata: ");
        } else {
            out.append(data.substring_char(i, i + 1));
            assert(data@.subrange(i as int, i + 1) =~= seq![c]);
        }
        assert(out@ =~= "data: "@ + data_lines(data@.take(i + 1)));
        i = i + 1;
    }
    assert(data@.take(n as int) =~= data@);
    out.append("\n\n");
    Some(out)
}

impl StreamEvent {
    /// The data of this event.
    pub fn data(&self) -> (r: String)
        ensures
            r@ == event_data(self@),
    {
        match self {
            StreamEvent::Chunk(c) => c.to_json(),
            StreamEvent::Terminator => String::from_str("[DONE]"),
        }
    }
}

/// A line of data is framed as it stands: data without line feeds and
/// carriage returns goes between `data: ` and the empty line, unchanged.
pub proof fn lemma_frame_single_line(data: Seq<char>)
    requires
        forall|i: int| 0 <= i < data.len() ==> data[i] != '\n',
    ensures
        data_lines(data) == data,
        frame_text(data) == "data: "@ + data + "\n\n"@,
    decreases data.len(),
{
    if data.len() > 0 {
        lemma_frame_single_line(data.drop_last());
        assert(data.drop_last().push(data.last()) =~= data);
    } else {
        assert(data_lines(data) =~= data);
    }
}

} // verus!
