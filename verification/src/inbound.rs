//! The receiving side: what arrives from the server, unit by unit, and what the
//! dispatcher makes of each unit.
//!
//! The dispatcher reads units in the order of their arrival until a close unit
//! or a receive failure ends it. It never writes to the session.

use vstd::prelude::*;

verus! {

/// An acknowledgment of the server: the one shape of text that the dispatcher
/// interprets.
#[derive(Debug, Clone, PartialEq, Eq)]
pub struct InboundAck {
    pub status: String,
}

/// The payload of a close unit.
#[derive(Debug, Clone, PartialEq, Eq)]
pub struct CloseInfo {
    pub code: u16,
    pub reason: String,
}

/// One outcome of waiting for the server.
#[derive(Debug, Clone, PartialEq, Eq)]
pub enum Arrival {
    /// A text unit, with the acknowledgment that its text parsed as, if it
    /// parsed as one.
    Text(Option<InboundAck>),
    /// A binary unit with its payload.
    Binary(Vec<u8>),
    /// A ping with its payload.
    Ping(Vec<u8>),
    /// A pong with its payload.
    Pong(Vec<u8>),
    /// A close unit, with its code and reason where it carries them.
    Close(Option<CloseInfo>),
    /// A unit of any other kind.
    Other,
    /// The read failed, with the failure's description.
    Failed(String),
}

/// One line of the dispatcher's log.
#[derive(Debug, Clone, PartialEq, Eq)]
pub enum Notice {
    /// The server acknowledged with this status.
    Status(String),
    /// Binary data arrived.
    BinaryData(Vec<u8>),
    /// A ping arrived.
    PingSeen(Vec<u8>),
    /// A pong arrived.
    PongSeen(Vec<u8>),
    /// The server closed the session and said why.
    Closed(u16, String),
    /// The server closed the session with no information.
    ClosedWithoutInfo,
    /// A unit arrived that the dispatcher does not know.
    Unrecognized,
    /// The read failed.
    ReceiveFailed(String),
    /// The dispatcher has ended.
    Completed,
}

/// What the dispatcher does on one arrival: the line that it logs, if any, and
/// whether it goes on reading.
#[derive(Debug, Clone, PartialEq, Eq)]
pub struct Reaction {
    pub notice: Option<Notice>,
    pub proceed: bool,
}

/// An arrival as plain mathematical values.
pub enum ArrivalView {
    Text(Option<Seq<char>>),
    Binary(Seq<u8>),
    Ping(Seq<u8>),
    Pong(Seq<u8>),
    Close(Option<(u16, Seq<char>)>),
    Other,
    Failed(Seq<char>),
}

/// A log line as plain mathematical values.
pub enum NoticeView {
    Status(Seq<char>),
    BinaryData(Seq<u8>),
    PingSeen(Seq<u8>),
    PongSeen(Seq<u8>),
    Closed(u16, Seq<char>),
    ClosedWithoutInfo,
    Unrecognized,
    ReceiveFailed(Seq<char>),
    Completed,
}

/// A reaction as plain mathematical values.
pub struct ReactionView {
    pub notice: Option<NoticeView>,
    pub proceed: bool,
}

impl View for Arrival {
    type V = ArrivalView;

    open spec fn view(&self) -> ArrivalView {
        match *self {
            Arrival::Text(Some(ack)) => ArrivalView::Text(Some(ack.status@)),
            Arrival::Text(None) => ArrivalView::Text(None),
            Arrival::Binary(data) => ArrivalView::Binary(data@),
            Arrival::Ping(data) => ArrivalView::Ping(data@),
            Arrival::Pong(data) => ArrivalView::Pong(data@),
            Arrival::Close(Some(info)) => ArrivalView::Close(Some((info.code, info.reason@))),
            Arrival::Close(None) => ArrivalView::Close(None),
            Arrival::Other => ArrivalView::Other,
            Arrival::Failed(why) => ArrivalView::Failed(why@),
        }
    }
}

impl View for Notice {
    type V = NoticeView;

    open spec fn view(&self) -> NoticeView {
        match *self {
            Notice::Status(status) => NoticeView::Status(status@),
            Notice::BinaryData(data) => NoticeView::BinaryData(data@),
            Notice::PingSeen(data) => NoticeView::PingSeen(data@),
            Notice::PongSeen(data) => NoticeView::PongSeen(data@),
            Notice::Closed(code, reason) => NoticeView::Closed(code, reason@),
            Notice::ClosedWithoutInfo => NoticeView::ClosedWithoutInfo,
            Notice::Unrecognized => NoticeView::Unrecognized,
            Notice::ReceiveFailed(why) => NoticeView::ReceiveFailed(why@),
            Notice::Completed => NoticeView::Completed,
        }
    }
}

impl View for Reaction {
    type V = ReactionView;

    open spec fn view(&self) -> ReactionView {
        ReactionView {
            notice: match self.notice {
                Some(notice) => Some(notice@),
                None => None,
            },
            proceed: self.proceed,
        }
    }
}

/// The dispatcher's rule, kind by kind.
///
/// A text that parsed logs its status; one that did not logs nothing. Binary
/// data, pings and pongs log their payload. A close unit logs its code and
/// reason, or that it had none, and ends the dispatcher. An unknown unit is
/// logged as such. A failed read logs the failure and ends the dispatcher.
pub open spec fn reaction_to(arrival: ArrivalView) -> ReactionView {
    match arrival {
        ArrivalView::Text(Some(status)) => ReactionView {
            notice: Some(NoticeView::Status(status)),
            proceed: true,
        },
        ArrivalView::Text(None) => ReactionView { notice: None, proceed: true },
        ArrivalView::Binary(data) => ReactionView {
            notice: Some(NoticeView::BinaryData(data)),
            proceed: true,
        },
        ArrivalView::Ping(data) => ReactionView {
            notice: Some(NoticeView::PingSeen(data)),
            proceed: true,
        },
        ArrivalView::Pong(data) => ReactionView {
            notice: Some(NoticeView::PongSeen(data)),
            proceed: true,
        },
        ArrivalView::Close(Some((code, reason))) => ReactionView {
            notice: Some(NoticeView::Closed(code, reason)),
            proceed: false,
        },
        ArrivalView::Close(None) => ReactionView {
            notice: Some(NoticeView::ClosedWithoutInfo),
            proceed: false,
        },
        ArrivalView::Other => ReactionView {
            notice: Some(NoticeView::Unrecognized),
            proceed: true,
        },
        ArrivalView::Failed(why) => ReactionView {
            notice: Some(NoticeView::ReceiveFailed(why)),
            proceed: false,
        },
    }
}

/// The lines that the dispatcher logs while it reads `arrivals` in order: for
/// each arrival its line, up to and including the first that ends it.
pub open spec fn heard(arrivals: Seq<ArrivalView>) -> Seq<NoticeView>
    decreases arrivals.len(),
{
    if arrivals.len() == 0 {
        Seq::empty()
    } else {
        let first = reaction_to(arrivals[0]);
        let line = match first.notice {
            Some(notice) => seq![notice],
            None => Seq::empty(),
        };
        if first.proceed {
            line + heard(arrivals.subrange(1, arrivals.len() as int))
        } else {
            line
        }
    }
}

/// The whole log of a dispatcher that is given `arrivals` and then the end of
/// the stream: what it heard, and that it completed.
pub open spec fn transcript(arrivals: Seq<ArrivalView>) -> Seq<NoticeView> {
    heard(arrivals).push(NoticeView::Completed)
}

/// The views of a run of arrivals.
pub open spec fn arrival_views(arrivals: Seq<Arrival>) -> Seq<ArrivalView> {
    arrivals.map_values(|a: Arrival| a@)
}

/// The views of a run of log lines.
pub open spec fn notice_views(notices: Seq<Notice>) -> Seq<NoticeView> {
    notices.map_values(|n: Notice| n@)
}

fn copy_bytes(data: &Vec<u8>) -> (copy: Vec<u8>)
    ensures
        copy@ == data@,
{
    let mut copy: Vec<u8> = Vec::new();
    let mut i: usize = 0;
    while i < data.len()
        invariant
            i <= data.len(),
            copy@ == data@.subrange(0, i as int),
        decreases data.len() - i,
    {
        copy.push(data[i]);
        i += 1;
        assert(copy@ =~= data@.subrange(0, i as int));
    }
    assert(data@.subrange(0, data.len() as int) =~= data@);
    copy
}

/// Classifies one arrival.
pub fn classify(arrival: &Arrival) -> (reaction: Reaction)
    ensures
        reaction@ == reaction_to(arrival@),
{
    match arrival {
        Arrival::Text(Some(ack)) => Reaction {
            notice: Some(Notice::Status(ack.status.clone())),
            proceed: true,
        },
        Arrival::Text(None) => Reaction { notice: None, proceed: true },
        Arrival::Binary(data) => Reaction {
            notice: Some(Notice::BinaryData(copy_bytes(data))),
            proceed: true,
        },
        Arrival::Ping(data) => Reaction {
            notice: Some(Notice::PingSeen(copy_bytes(data))),
            proceed: true,
        },
        Arrival::Pong(data) => Reaction {
            notice: Some(Notice::PongSeen(copy_bytes(data))),
            proceed: true,
        },
        Arrival::Close(Some(info)) => Reaction {
            notice: Some(Notice::Closed(info.code, info.reason.clone())),
            proceed: false,
        },
        Arrival::Close(None) => Reaction {
            notice: Some(Notice::ClosedWithoutInfo),
            proceed: false,
        },
        Arrival::Other => Reaction { notice: Some(Notice::Unrecognized), proceed: true },
        Arrival::Failed(why) => Reaction {
            notice: Some(Notice::ReceiveFailed(why.clone())),
            proceed: false,
        },
    }
}

/// Runs the dispatcher over `arrivals`, which end the stream, and returns its
/// log: every line in the order in which it was logged, the completion last.
/// Nothing that follows a close unit or a failed read is looked at.
pub fn dispatch_all(arrivals: &Vec<Arrival>) -> (log: Vec<Notice>)
    ensures
        notice_views(log@) == transcript(arrival_views(arrivals@)),
{
    let ghost all = arrival_views(arrivals@);
    let mut log: Vec<Notice> = Vec::new();
    let mut i: usize = 0;
    let mut open = true;
    proof {
        assert(all.subrange(0, all.len() as int) =~= all);
        assert(notice_views(log@) + heard(all) =~= heard(all));
    }
    while open && i < arrivals.len()
        invariant
            i <= arrivals.len(),
            all == arrival_views(arrivals@),
            all.len() == arrivals.len(),
            open ==> heard(all) == notice_views(log@) + heard(all.subrange(i as int, all.len() as int)),
            !open ==> heard(all) == notice_views(log@),
        decreases arrivals.len() - i,
    {
        let ghost rest = all.subrange(i as int, all.len() as int);
        let ghost before = notice_views(log@);
        let reaction = classify(&arrivals[i]);
        proof {
            assert(rest[0] == arrivals@[i as int]@);
            assert(rest.subrange(1, rest.len() as int) =~= all.subrange(i + 1, all.len() as int));
        }
        if let Some(notice) = reaction.notice {
            log.push(notice);
        }
        proof {
            let line = match reaction_to(rest[0]).notice {
                Some(n) => seq![n],
                None => Seq::empty(),
            };
            assert(notice_views(log@) =~= before + line);
            assert(before + (line + heard(rest.subrange(1, rest.len() as int))) =~= (before + line)
                + heard(rest.subrange(1, rest.len() as int)));
        }
        open = reaction.proceed;
        i += 1;
    }
    proof {
        if open {
            assert(all.subrange(i as int, all.len() as int) =~= Seq::<ArrivalView>::empty());
            assert(notice_views(log@) + Seq::<NoticeView>::empty() =~= notice_views(log@));
        }
    }
    let ghost body = notice_views(log@);
    log.push(Notice::Completed);
    proof {
        assert(notice_views(log@) =~= body.push(NoticeView::Completed));
    }
    log
}

/// What is heard of a run of arrivals is what is heard of its first, followed,
/// unless the first ends the dispatcher, by what is heard of the others.
pub proof fn heard_unfolds(first: ArrivalView, rest: Seq<ArrivalView>)
    ensures
        heard(seq![first] + rest) == if reaction_to(first).proceed {
            heard(seq![first]) + heard(rest)
        } else {
            heard(seq![first])
        },
{
    let whole = seq![first] + rest;
    let single = seq![first];
    let line = match reaction_to(first).notice {
        Some(notice) => seq![notice],
        None => Seq::empty(),
    };
    assert(whole[0] == first);
    assert(whole.subrange(1, whole.len() as int) =~= rest);
    assert(single.subrange(1, single.len() as int) =~= Seq::<ArrivalView>::empty());
    assert(heard(Seq::<ArrivalView>::empty()) =~= Seq::<NoticeView>::empty());
    assert(line + Seq::<NoticeView>::empty() =~= line);
    if reaction_to(first).proceed {
        assert(heard(single) == line);
        assert(heard(whole) == line + heard(rest));
    } else {
        assert(heard(single) == line);
        assert(heard(whole) == line);
    }
}

/// Classifying a text unit changes nothing for what comes after it: the same
/// text unit, given twice in a row, is logged the same way both times, and what
/// follows is heard as if neither had come.
pub proof fn repeated_text_is_heard_alike(text: ArrivalView, rest: Seq<ArrivalView>)
    requires
        text is Text,
    ensures
        reaction_to(text).proceed,
        heard(seq![text] + (seq![text] + rest)) == heard(seq![text]) + heard(seq![text]) + heard(
            rest,
        ),
{
    heard_unfolds(text, rest);
    heard_unfolds(text, seq![text] + rest);
    assert(heard(seq![text]) + (heard(seq![text]) + heard(rest)) =~= heard(seq![text]) + heard(
        seq![text],
    ) + heard(rest));
}

/// Once a close unit or a failed read has arrived, nothing that arrives after
/// it is heard.
pub proof fn nothing_is_heard_after_the_end(
    before: Seq<ArrivalView>,
    last: ArrivalView,
    after: Seq<ArrivalView>,
)
    requires
        last is Close || last is Failed,
    ensures
        !reaction_to(last).proceed,
        heard(before + seq![last] + after) == heard(before + seq![last]),
    decreases before.len(),
{
    if before.len() == 0 {
        assert(before + seq![last] =~= seq![last]);
        assert(before + seq![last] + after =~= seq![last] + after);
        heard_unfolds(last, after);
    } else {
        let first = before[0];
        let tail = before.subrange(1, before.len() as int);
        assert(before + seq![last] =~= seq![first] + (tail + seq![last]));
        assert(before + seq![last] + after =~= seq![first] + (tail + seq![last] + after));
        heard_unfolds(first, tail + seq![last]);
        heard_unfolds(first, tail + seq![last] + after);
        nothing_is_heard_after_the_end(tail, last, after);
    }
}

/// The dispatcher goes on after an arrival exactly when that arrival is neither
/// a close unit nor a failed read.
pub proof fn only_close_and_failure_end(arrival: ArrivalView)
    ensures
        reaction_to(arrival).proceed <==> !(arrival is Close || arrival is Failed),
{
}

} // verus!
