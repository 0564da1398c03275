//! The decoder of a response stream: it turns the provider's frames, one
//! at a time and in their order, into the events of a turn.
//!
//! A stream ends with a completion, or with an error that stands in the
//! completion's place. After either, the decoder gives nothing more.

use crate::client_common::ResponseEvent;
use crate::client_common::ResponseEventView;
use crate::models::ResponseItem;
use crate::models::ResponseItemView;
use crate::protocol::TokenUsage;
use vstd::prelude::*;

verus! {

/// One frame of the provider's stream, already parsed.
#[derive(Debug, Clone, PartialEq, Eq)]
pub enum Frame {
    Created,
    OutputItemDone(ResponseItem),
    OutputTextDelta(String),
    ReasoningSummaryDelta(String),
    Completed { response_id: String, token_usage: Option<TokenUsage> },
    /// The provider gave the turn up.
    Failed { message: String },
}

/// View of a [`Frame`].
pub enum FrameView {
    Created,
    OutputItemDone(ResponseItemView),
    OutputTextDelta(Seq<char>),
    ReasoningSummaryDelta(Seq<char>),
    Completed { response_id: Seq<char>, token_usage: Option<TokenUsage> },
    Failed { message: Seq<char> },
}

impl View for Frame {
    type V = FrameView;

    open spec fn view(&self) -> FrameView {
        match self {
            Frame::Created => FrameView::Created,
            Frame::OutputItemDone(item) => FrameView::OutputItemDone(item@),
            Frame::OutputTextDelta(delta) => FrameView::OutputTextDelta(delta@),
            Frame::ReasoningSummaryDelta(delta) => FrameView::ReasoningSummaryDelta(delta@),
            Frame::Completed { response_id, token_usage } => FrameView::Completed {
                response_id: response_id@,
                token_usage: *token_usage,
            },
            Frame::Failed { message } => FrameView::Failed { message: message@ },
        }
    }
}

impl DeepView for Frame {
    type V = FrameView;

    open spec fn deep_view(&self) -> FrameView {
        self@
    }
}

/// Why a stream ended without a completion.
#[derive(Debug, Clone, PartialEq, Eq)]
pub enum StreamError {
    /// The provider gave the turn up, and said why.
    Failed { message: String },
    /// The frames ran out before the completion came.
    ClosedBeforeCompleted,
}

/// View of a [`StreamError`].
pub enum StreamErrorView {
    Failed { message: Seq<char> },
    ClosedBeforeCompleted,
}

impl View for StreamError {
    type V = StreamErrorView;

    open spec fn view(&self) -> StreamErrorView {
        match self {
            StreamError::Failed { message } => StreamErrorView::Failed { message: message@ },
            StreamError::ClosedBeforeCompleted => StreamErrorView::ClosedBeforeCompleted,
        }
    }
}

/// One element of a decoded stream, as a mathematical value.
pub type Decoded = Result<ResponseEventView, StreamErrorView>;

/// The view of one element of a decoded stream.
pub open spec fn decoded_view(element: Result<ResponseEvent, StreamError>) -> Decoded {
    match element {
        Ok(event) => Ok(event@),
        Err(error) => Err(error@),
    }
}

/// The views of the elements of a decoded stream, in order.
pub open spec fn decoded_views(elements: Seq<Result<ResponseEvent, StreamError>>) -> Seq<Decoded> {
    Seq::new(elements.len(), |i: int| decoded_view(elements[i]))
}

/// What a frame becomes: each frame gives one element.
pub open spec fn event_of(frame: FrameView) -> Decoded {
    match frame {
        FrameView::Created => Ok(ResponseEventView::Created),
        FrameView::OutputItemDone(item) => Ok(ResponseEventView::OutputItemDone(item)),
        FrameView::OutputTextDelta(delta) => Ok(ResponseEventView::OutputTextDelta(delta)),
        FrameView::ReasoningSummaryDelta(delta) => Ok(
            ResponseEventView::ReasoningSummaryDelta(delta),
        ),
        FrameView::Completed { response_id, token_usage } => Ok(
            ResponseEventView::Completed { response_id, token_usage },
        ),
        FrameView::Failed { message } => Err(StreamErrorView::Failed { message }),
    }
}

/// A frame that ends its stream.
pub open spec fn ends_stream(frame: FrameView) -> bool {
    frame is Completed || frame is Failed
}

/// An element that ends a decoded stream: a completion, or an error.
pub open spec fn is_last(element: Decoded) -> bool {
    match element {
        Ok(event) => event is Completed,
        Err(_) => true,
    }
}

/// What the consumer of a stream is given for `frames`: one element for
/// each frame up to the first that ends the stream, in the order of the
/// frames; and, where no frame ends the stream, the error that the frames
/// ran out.
pub open spec fn decoded(frames: Seq<FrameView>) -> Seq<Decoded>
    decreases frames.len(),
{
    if frames.len() == 0 {
        seq![Err(StreamErrorView::ClosedBeforeCompleted)]
    } else if ends_stream(frames[0]) {
        seq![event_of(frames[0])]
    } else {
        seq![event_of(frames[0])] + decoded(frames.drop_first())
    }
}

/// A decoded stream has exactly one element that ends it, and that is its
/// last.
pub proof fn lemma_decoded_ends_once(frames: Seq<FrameView>)
    ensures
        decoded(frames).len() >= 1,
        is_last(decoded(frames).last()),
        forall|i: int| 0 <= i < decoded(frames).len() - 1 ==> !is_last(#[trigger] decoded(frames)[i]),
    decreases frames.len(),
{
    if frames.len() > 0 && !ends_stream(frames[0]) {
        lemma_decoded_ends_once(frames.drop_first());
        let rest = decoded(frames.drop_first());
        assert forall|i: int| 0 <= i < decoded(frames).len() - 1 implies !is_last(
            #[trigger] decoded(frames)[i],
        ) by {
            if i > 0 {
                assert(decoded(frames)[i] == rest[i - 1]);
            }
        }
        assert(decoded(frames).last() == rest.last());
    }
}

/// Before its end, a decoded stream has one element for each frame, in the
/// order of the frames: nothing is left out, joined or moved.
pub proof fn lemma_decoded_in_order(frames: Seq<FrameView>, i: int)
    requires
        0 <= i < decoded(frames).len() - 1,
    ensures
        i < frames.len(),
        decoded(frames)[i] == event_of(frames[i]),
    decreases frames.len(),
{
    if i > 0 {
        lemma_decoded_in_order(frames.drop_first(), i - 1);
    }
}

/// Where a decoder stands.
#[derive(Debug, Clone, Copy, PartialEq, Eq, Structural)]
pub enum DecoderState {
    /// No frame has come yet.
    AwaitingCreated,
    /// Frames have come, and the stream has not ended.
    Open,
    /// The stream has ended.
    Closed,
}

/// The decoder of one response stream.
#[derive(Debug, Clone, Copy, PartialEq, Eq, Structural)]
pub struct ResponseStream {
    pub state: DecoderState,
}

/// The state after a frame came in `state`.
pub open spec fn state_after(state: DecoderState, frame: FrameView) -> DecoderState {
    if state == DecoderState::Closed || ends_stream(frame) {
        DecoderState::Closed
    } else {
        DecoderState::Open
    }
}

fn event_for(frame: Frame) -> (element: Result<ResponseEvent, StreamError>)
    ensures
        decoded_view(element) == event_of(frame@),
{
    match frame {
        Frame::Created => Ok(ResponseEvent::Created),
        Frame::OutputItemDone(item) => Ok(ResponseEvent::OutputItemDone(item)),
        Frame::OutputTextDelta(delta) => Ok(ResponseEvent::OutputTextDelta(delta)),
        Frame::ReasoningSummaryDelta(delta) => Ok(ResponseEvent::ReasoningSummaryDelta(delta)),
        Frame::Completed { response_id, token_usage } => Ok(
            ResponseEvent::Completed { response_id, token_usage },
        ),
        Frame::Failed { message } => Err(StreamError::Failed { message }),
    }
}

fn ends(frame: &Frame) -> (yes: bool)
    ensures
        yes == ends_stream(frame@),
{
    match frame {
        Frame::Completed { .. } | Frame::Failed { .. } => true,
        _ => false,
    }
}

impl ResponseStream {
    /// A decoder before any frame.
    pub fn new() -> (stream: ResponseStream)
        ensures
            stream.state == DecoderState::AwaitingCreated,
    {
        ResponseStream { state: DecoderState::AwaitingCreated }
    }

    /// Whether the stream has ended.
    pub fn is_closed(&self) -> (yes: bool)
        ensures
            yes == (self.state == DecoderState::Closed),
    {
        match self.state {
            DecoderState::Closed => true,
            _ => false,
        }
    }

    /// Takes the next frame. Before the end of the stream the frame's
    /// element is given; after it, nothing.
    pub fn on_frame(&mut self, frame: Frame) -> (element: Option<Result<ResponseEvent, StreamError>>)
        ensures
            final(self).state == state_after(old(self).state, frame@),
            old(self).state == DecoderState::Closed ==> element is None,
            old(self).state != DecoderState::Closed ==> element is Some && decoded_view(element->0)
                == event_of(frame@),
    {
        if self.is_closed() {
            return None;
        }
        if ends(&frame) {
            self.state = DecoderState::Closed;
        } else {
            self.state = DecoderState::Open;
        }
        Some(event_for(frame))
    }

    /// Takes note that the frames have run out. Where the stream had not
    /// ended, the error that stands in the completion's place is given.
    pub fn on_end(&mut self) -> (error: Option<StreamError>)
        ensures
            final(self).state == DecoderState::Closed,
            error is Some == (old(self).state != DecoderState::Closed),
            error matches Some(e) ==> e == StreamError::ClosedBeforeCompleted,
    {
        if self.is_closed() {
            None
        } else {
            self.state = DecoderState::Closed;
            Some(StreamError::ClosedBeforeCompleted)
        }
    }
}

proof fn lemma_decoded_skip(frames: Seq<FrameView>, i: int)
    requires
        0 <= i < frames.len(),
        !ends_stream(frames[i]),
    ensures
        decoded(frames.skip(i)) == seq![event_of(frames[i])] + decoded(frames.skip(i + 1)),
{
    assert(frames.skip(i).drop_first() =~= frames.skip(i + 1));
}

/// Decodes a whole stream: what its consumer is given for `frames`, the
/// frames having run out after the last.
pub fn decode_stream(frames: Vec<Frame>) -> (elements: Vec<Result<ResponseEvent, StreamError>>)
    ensures
        decoded_views(elements@) == decoded(frames.deep_view()),
{
    let ghost views = frames.deep_view();
    let mut stream = ResponseStream::new();
    let mut elements: Vec<Result<ResponseEvent, StreamError>> = Vec::new();
    let mut frames = frames;
    let n = frames.len();
    let mut taken: Vec<Frame> = Vec::new();
    // The frames are taken from the back of a reversed list, so that each
    // is moved into its element.
    let mut i: usize = n;
    while i > 0
        invariant
            i <= n,
            frames.len() == i,
            taken.len() == n - i,
            views.len() == n,
            forall|k: int| 0 <= k < i ==> (#[trigger] frames@[k])@ == views[k],
            forall|k: int| 0 <= k < n - i ==> (#[trigger] taken@[k])@ == views[n - 1 - k],
        decreases i,
    {
        let frame = frames.pop().unwrap();
        taken.push(frame);
        i -= 1;
    }
    let mut j: usize = 0;
    assert(views.skip(0) =~= views);
    assert(decoded_views(elements@) =~= Seq::empty());
    while j < n && !stream.is_closed()
        invariant
            j <= n,
            taken.len() == n - j,
            views.len() == n,
            forall|k: int| 0 <= k < n - j ==> (#[trigger] taken@[k])@ == views[n - 1 - k],
            stream.state != DecoderState::Closed ==> decoded(views) == decoded_views(elements@)
                + decoded(views.skip(j as int)),
            stream.state == DecoderState::Closed ==> decoded(views) == decoded_views(elements@),
        decreases n - j,
    {
        let frame = taken.pop().unwrap();
        assert(frame@ == views[j as int]);
        let ghost before = decoded_views(elements@);
        proof {
            if !ends_stream(views[j as int]) {
                lemma_decoded_skip(views, j as int);
            } else {
                assert(views.skip(j as int)[0] == views[j as int]);
            }
        }
        match stream.on_frame(frame) {
            Some(element) => {
                elements.push(element);
                assert(decoded_views(elements@) =~= before.push(event_of(views[j as int])));
            },
            None => {},
        }
        j += 1;
        proof {
            if stream.state != DecoderState::Closed {
                assert(decoded(views) =~= decoded_views(elements@) + decoded(views.skip(j as int)));
            } else {
                assert(decoded(views) =~= decoded_views(elements@));
            }
        }
    }
    let ghost before = decoded_views(elements@);
    match stream.on_end() {
        Some(error) => {
            elements.push(Err(error));
            proof {
                assert(j == n);
                assert(views.skip(n as int).len() == 0);
                assert(decoded_views(elements@) =~= before.push(
                    Err(StreamErrorView::ClosedBeforeCompleted),
                ));
                assert(decoded(views) =~= decoded_views(elements@));
            }
        },
        None => {},
    }
    elements
}

} // verus!
