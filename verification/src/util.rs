//! How a long text is sent, and how an error is written with its causes.

use vstd::prelude::*;
use vstd::string::*;
use vstd::utf8::encode_utf8;
use crate::text::join3;

verus! {

/// The most bytes that a message can hold as text.
pub const CONTENT_LIMIT: usize = 2000;

/// The name under which a text that is too long is attached.
pub const ATTACHMENT_NAME: &'static str = "result.txt";

/// The form in which a text is sent.
#[derive(Debug)]
pub enum Outgoing {
    /// As the text of the message.
    Content(String),
    /// As a file attached to the message.
    File { filename: String, data: Vec<u8> },
}

/// The form in which a text is sent, as a mathematical value.
pub enum OutgoingView {
    Content(Seq<char>),
    File { filename: Seq<char>, data: Seq<u8> },
}

impl View for Outgoing {
    type V = OutgoingView;

    open spec fn view(&self) -> OutgoingView {
        match self {
            Outgoing::Content(t) => OutgoingView::Content(t@),
            Outgoing::File { filename, data } => OutgoingView::File {
                filename: filename@,
                data: data@,
            },
        }
    }
}

/// The form in which `text` is sent: as it is where its bytes fit a message,
/// else as an attached file.
pub open spec fn outgoing(text: Seq<char>) -> OutgoingView {
    if encode_utf8(text).len() <= CONTENT_LIMIT {
        OutgoingView::Content(text)
    } else {
        OutgoingView::File { filename: ATTACHMENT_NAME@, data: encode_utf8(text) }
    }
}

/// Decides in which form a text is sent.
pub fn send_text(text: String) -> (r: Outgoing)
    ensures
        r@ == outgoing(text@),
{
    let data = text.as_str().as_bytes_vec();
    if data.len() <= CONTENT_LIMIT {
        Outgoing::Content(text)
    } else {
        Outgoing::File { filename: ATTACHMENT_NAME.to_owned(), data }
    }
}

/// The causes of an error, each after the words that lead to it.
pub open spec fn cause_text(causes: Seq<String>) -> Seq<char>
    decreases causes.len(),
{
    if causes.len() == 0 {
        Seq::empty()
    } else {
        cause_text(causes.drop_last()) + "; Caused by: "@ + causes.last()@
    }
}

/// Writes an error for the log: what was being done, the error, and its causes
/// in order.
pub fn report_error(err: &str, causes: &Vec<String>, msg: &str) -> (r: String)
    ensures
        r@ == msg@ + ": "@ + err@ + cause_text(causes@),
{
    let mut out = join3(msg, ": ", err);
    let mut i: usize = 0;
    assert(causes@.take(0) =~= Seq::empty());
    assert(out@ =~= out@ + Seq::<char>::empty());
    while i < causes.len()
        invariant
            i <= causes@.len(),
            out@ == msg@ + ": "@ + err@ + cause_text(causes@.take(i as int)),
        decreases causes@.len() - i,
    {
        proof {
            assert(causes@.take(i + 1).drop_last() =~= causes@.take(i as int));
        }
        let ghost before = out@;
        out.append("; Caused by: ");
        out.append(causes[i].as_str());
        assert(out@ =~= msg@ + ": "@ + err@ + cause_text(causes@.take(i + 1)));
        i += 1;
    }
    assert(causes@.take(i as int) =~= causes@);
    out
}

} // verus!
