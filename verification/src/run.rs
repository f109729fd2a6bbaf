//! Whole runs: what a pipeline asks for, one request after another, when its
//! driver hands it a sequence of replies.

use crate::config::{ConfigView, InputView};
use crate::model::{answer, initial, transition, State};
use crate::protocol::{ReplyView, RequestView};
use vstd::prelude::*;

verus! {

/// A run so far.
pub struct Run {
    /// The state it has reached.
    pub state: State,
    /// The requests it has made, in order. The last one is not answered yet.
    pub requests: Seq<RequestView>,
    /// The replies it has taken, in order: one for each request but the
    /// last.
    pub replies: Seq<ReplyView>,
}

impl Run {
    /// The run after it was offered one more reply. A reply that it is not
    /// waiting for is passed over.
    pub open spec fn take(self, reply: ReplyView) -> Run {
        match transition(self.state, reply) {
            Some((state, request)) => Run {
                state,
                requests: self.requests.push(request),
                replies: self.replies.push(reply),
            },
            None => self,
        }
    }

    /// The run after its last request was answered from within, where it
    /// is one that needs no driver.
    pub open spec fn serve(self) -> Run {
        match answer(self.requests.last()) {
            Some(reply) => self.take(reply),
            None => self,
        }
    }
}

/// The start of the run of a configuration: the first request is made, and
/// no reply is taken yet.
pub open spec fn start(config: ConfigView) -> Run {
    Run { state: initial(config).0, requests: seq![initial(config).1], replies: Seq::empty() }
}

/// The run of a configuration whose driver offers the replies in order.
pub open spec fn run(config: ConfigView, offered: Seq<ReplyView>) -> Run
    decreases offered.len(),
{
    if offered.len() == 0 {
        start(config)
    } else {
        run(config, offered.drop_last()).take(offered.last())
    }
}

/// The run of a configuration whose driver offers the replies in order and
/// leaves HTML rendering to the pipeline: after each reply that is taken, a
/// request that needs no driver is served from within.
pub open spec fn driven(config: ConfigView, offered: Seq<ReplyView>) -> Run
    decreases offered.len(),
{
    if offered.len() == 0 {
        start(config)
    } else {
        let before = driven(config, offered.drop_last());
        if transition(before.state, offered.last()) is Some {
            before.take(offered.last()).serve()
        } else {
            before
        }
    }
}

/// One write: where to, and what.
pub struct WriteView {
    pub target: Option<Seq<char>>,
    pub content: Seq<char>,
}

/// The inputs that the requests ask to read, in order.
pub open spec fn reads(requests: Seq<RequestView>) -> Seq<InputView>
    decreases requests.len(),
{
    if requests.len() == 0 {
        Seq::empty()
    } else {
        let earlier = reads(requests.drop_last());
        match requests.last() {
            RequestView::Read { input } => earlier.push(input),
            _ => earlier,
        }
    }
}

/// The writes that the requests ask for, in order.
pub open spec fn writes(requests: Seq<RequestView>) -> Seq<WriteView>
    decreases requests.len(),
{
    if requests.len() == 0 {
        Seq::empty()
    } else {
        let earlier = writes(requests.drop_last());
        match requests.last() {
            RequestView::Write { target, content } => earlier.push(WriteView { target, content }),
            _ => earlier,
        }
    }
}

/// The renderings that the replies bring, in order.
pub open spec fn renderings(replies: Seq<ReplyView>) -> Seq<Seq<char>>
    decreases replies.len(),
{
    if replies.len() == 0 {
        Seq::empty()
    } else {
        let earlier = renderings(replies.drop_last());
        match replies.last() {
            ReplyView::Rendered(rendering) => earlier.push(rendering),
            _ => earlier,
        }
    }
}

/// The content of the input that was read last, as the replies bring it.
pub open spec fn last_read(replies: Seq<ReplyView>) -> Option<Seq<char>>
    decreases replies.len(),
{
    if replies.len() == 0 {
        None
    } else {
        match replies.last() {
            ReplyView::Source(Ok(content)) => Some(content),
            _ => last_read(replies.drop_last()),
        }
    }
}

} // verus!
