//! The frame source: one way to read frames, whether they come from a bus
//! interface or from the synthetic reader.
//!
//! A [`CanBusReader`] does no input or output and never waits. It says what
//! has to be done next ([`CanBusReader::next_action`]): open the socket,
//! wait for the socket's next frame, or wait for a while. The caller does
//! that and hands back what came of it ([`CanBusReader::opened`],
//! [`CanBusReader::read`]). The reader goes from unopened to open, and from
//! open to closed when the socket fails or ends; closed, it gives no frame
//! again.

use vstd::prelude::*;
use crate::config::{Config, Error, SocketCanConfig};
use crate::demo::{law_read_keeps_wf, Reader, ReaderView, DEFAULT_SEED};
use crate::frame::{Frame, FrameView};

verus! {

/// Where a frame source stands.
#[derive(Clone, Copy, Debug, PartialEq, Eq, Structural)]
pub enum State {
    /// Made, and the socket not opened yet.
    Unopened,
    /// Frames can be read.
    Open,
    /// The stream has ended: no frame comes any more.
    Closed,
}

/// What the caller has to do before the reader can go on.
#[derive(Debug)]
pub enum Action {
    /// Open a socket bound to the interface of this name, and report with
    /// [`CanBusReader::opened`].
    Open(String),
    /// Wait for the socket's next frame, and report with
    /// [`CanBusReader::read`].
    Receive,
    /// Wait this many milliseconds, and report with
    /// [`CanBusReader::read`].
    Sleep(u64),
    /// Nothing: the source is closed.
    Stop,
}

/// An [`Action`] as mathematical value.
pub enum ActionView {
    Open(Seq<char>),
    Receive,
    Sleep(u64),
    Stop,
}

impl View for Action {
    type V = ActionView;

    open spec fn view(&self) -> ActionView {
        match self {
            Action::Open(name) => ActionView::Open(name@),
            Action::Receive => ActionView::Receive,
            Action::Sleep(millis) => ActionView::Sleep(*millis),
            Action::Stop => ActionView::Stop,
        }
    }
}

/// What came of the caller's waiting.
#[derive(Debug)]
pub enum Event {
    /// The socket delivered this frame.
    Received(Frame),
    /// The socket failed to read, or was closed.
    Lost,
    /// The time asked for has passed.
    Elapsed,
}

/// An [`Event`] as mathematical value.
pub enum EventView {
    Received(FrameView),
    Lost,
    Elapsed,
}

impl View for Event {
    type V = EventView;

    open spec fn view(&self) -> EventView {
        match self {
            Event::Received(frame) => EventView::Received(frame@),
            Event::Lost => EventView::Lost,
            Event::Elapsed => EventView::Elapsed,
        }
    }
}

/// The two kinds of source, as mathematical values.
pub enum SourceView {
    /// The bus interface of this name.
    Hardware(Seq<char>),
    /// The synthetic reader.
    Synthetic(ReaderView),
}

/// What a [`CanBusReader`] holds, as mathematical values.
pub struct CanBusReaderView {
    pub source: SourceView,
    pub state: State,
}

/// A frame that may be absent, as mathematical value.
pub open spec fn frame_view(frame: Option<Frame>) -> Option<FrameView> {
    match frame {
        Some(frame) => Some(frame@),
        None => None,
    }
}

impl CanBusReaderView {
    /// The source that a configuration asks for: a hardware source is
    /// unopened, the synthetic source is open at once.
    pub open spec fn hardware(interface: Seq<char>) -> CanBusReaderView {
        CanBusReaderView { source: SourceView::Hardware(interface), state: State::Unopened }
    }

    /// The synthetic source made from `seed`.
    pub open spec fn synthetic(seed: u64) -> CanBusReaderView {
        CanBusReaderView {
            source: SourceView::Synthetic(ReaderView::seeded(seed)),
            state: State::Open,
        }
    }

    /// What holds of every reader: the synthetic source needs no opening,
    /// and its reader is well-formed.
    pub open spec fn wf(self) -> bool {
        match self.source {
            SourceView::Hardware(_) => true,
            SourceView::Synthetic(demo) => demo.wf() && self.state != State::Unopened,
        }
    }

    /// The same source, closed.
    pub open spec fn closed(self) -> CanBusReaderView {
        CanBusReaderView { source: self.source, state: State::Closed }
    }

    /// What the caller has to do next: open the socket of an unopened
    /// source; wait for the socket of an open hardware source; wait for the
    /// synthetic reader's delay; nothing for a closed source.
    pub open spec fn next_action(self) -> ActionView {
        match (self.state, self.source) {
            (State::Unopened, SourceView::Hardware(interface)) => ActionView::Open(interface),
            (State::Open, SourceView::Hardware(_)) => ActionView::Receive,
            (State::Open, SourceView::Synthetic(demo)) => ActionView::Sleep(demo.delay()),
            _ => ActionView::Stop,
        }
    }

    /// The source after the socket was opened, or could not be: success
    /// opens an unopened source and leaves any other as it is; failure
    /// closes the source.
    pub open spec fn opened(self, success: bool) -> CanBusReaderView {
        if !success {
            self.closed()
        } else if self.state == State::Unopened {
            CanBusReaderView { source: self.source, state: State::Open }
        } else {
            self
        }
    }

    /// The frame that an event gives, and the source after it.
    ///
    /// An open hardware source hands on the frame that its socket
    /// delivered, and stays open. The open synthetic source, when its delay
    /// has passed, gives its reader's next frame, and stays open. In every
    /// other case there is no frame and the source is closed.
    pub open spec fn read(self, event: EventView) -> (Option<FrameView>, CanBusReaderView) {
        match (self.state, self.source, event) {
            (State::Open, SourceView::Hardware(_), EventView::Received(frame)) => (
                Some(frame),
                self,
            ),
            (State::Open, SourceView::Synthetic(demo), EventView::Elapsed) => (
                Some(demo.read().0),
                CanBusReaderView {
                    source: SourceView::Synthetic(demo.read().1),
                    state: State::Open,
                },
            ),
            _ => (None, self.closed()),
        }
    }

    /// The frames that a run of events gives, in order, and the source
    /// after the run.
    pub open spec fn run(self, events: Seq<EventView>) -> (Seq<FrameView>, CanBusReaderView)
        decreases events.len(),
    {
        if events.len() == 0 {
            (Seq::empty(), self)
        } else {
            let (frames, before) = self.run(events.drop_last());
            let (frame, after) = before.read(events.last());
            match frame {
                Some(frame) => (frames.push(frame), after),
                None => (frames, after),
            }
        }
    }
}

enum InnerCanBusReader {
    SocketCan(SocketCanConfig),
    Demo(Reader),
}

/// A source of frames, chosen by a [`Config`].
pub struct CanBusReader {
    inner: InnerCanBusReader,
    state: State,
}

impl View for CanBusReader {
    type V = CanBusReaderView;

    closed spec fn view(&self) -> CanBusReaderView {
        CanBusReaderView {
            source: match self.inner {
                InnerCanBusReader::SocketCan(socket_can) => SourceView::Hardware(socket_can@),
                InnerCanBusReader::Demo(demo) => SourceView::Synthetic(demo@),
            },
            state: self.state,
        }
    }
}

impl CanBusReader {
    /// Whether the reader's values fit together: see
    /// [`CanBusReaderView::wf`].
    pub open spec fn wf(&self) -> bool {
        self@.wf()
    }

    /// The source that `config` asks for. A hardware source is unopened;
    /// the synthetic source, made from [`DEFAULT_SEED`], is open at once.
    pub fn new(config: Config) -> (reader: CanBusReader)
        ensures
            reader.wf(),
            reader@ == match config {
                Config::SocketCan(socket_can) => CanBusReaderView::hardware(socket_can@),
                Config::Demo => CanBusReaderView::synthetic(DEFAULT_SEED),
            },
    {
        match config {
            Config::SocketCan(socket_can) => CanBusReader {
                inner: InnerCanBusReader::SocketCan(socket_can),
                state: State::Unopened,
            },
            Config::Demo => CanBusReader {
                inner: InnerCanBusReader::Demo(Reader::new()),
                state: State::Open,
            },
        }
    }

    /// Where the source stands.
    pub fn state(&self) -> (state: State)
        ensures
            state == self@.state,
    {
        self.state
    }

    /// What the caller has to do next: see
    /// [`CanBusReaderView::next_action`]. The reader stays as it is.
    pub fn next_action(&self) -> (action: Action)
        requires
            self.wf(),
        ensures
            action@ == self@.next_action(),
    {
        match self.state {
            State::Closed => Action::Stop,
            State::Unopened => match &self.inner {
                InnerCanBusReader::SocketCan(socket_can) => Action::Open(
                    socket_can.interface().to_owned(),
                ),
                InnerCanBusReader::Demo(_) => Action::Stop,
            },
            State::Open => match &self.inner {
                InnerCanBusReader::SocketCan(_) => Action::Receive,
                InnerCanBusReader::Demo(demo) => Action::Sleep(demo.delay()),
            },
        }
    }

    /// Takes in what came of opening the socket.
    ///
    /// Success opens an unopened source, and leaves any other as it is. A
    /// failure closes the source and comes back as
    /// [`Error::SocketCanError`], with the transport's words.
    pub fn opened(&mut self, outcome: Result<(), String>) -> (result: Result<(), Error>)
        requires
            old(self).wf(),
        ensures
            final(self).wf(),
            final(self)@ == old(self)@.opened(outcome is Ok),
            match outcome {
                Ok(_) => result is Ok,
                Err(failure) => {
                    &&& result matches Err(Error::SocketCanError(words))
                    &&& words@ == failure@
                },
            },
    {
        match outcome {
            Ok(_) => {
                if self.state == State::Unopened {
                    self.state = State::Open;
                }
                Ok(())
            },
            Err(failure) => {
                self.state = State::Closed;
                Err(Error::SocketCanError(failure))
            },
        }
    }

    /// Takes in what came of the caller's waiting, and gives the next frame
    /// or the end of the stream: see [`CanBusReaderView::read`].
    ///
    /// There is a frame only from an open source that was handed what it
    /// asked for, and the source is open after it. Without a frame the
    /// source is closed: after a lost socket, after an event that the
    /// source did not ask for, and when it was unopened or closed already.
    pub fn read(&mut self, event: Event) -> (frame: Option<Frame>)
        requires
            old(self).wf(),
        ensures
            final(self).wf(),
            (frame_view(frame), final(self)@) == old(self)@.read(event@),
            frame is Some ==> final(self)@.state == State::Open,
            frame is None ==> final(self)@.state == State::Closed,
    {
        if self.state == State::Open {
            match &mut self.inner {
                InnerCanBusReader::SocketCan(_) => {
                    if let Event::Received(received) = event {
                        return Some(received);
                    }
                },
                InnerCanBusReader::Demo(demo) => {
                    if let Event::Elapsed = event {
                        return Some(demo.read());
                    }
                },
            }
        }
        self.state = State::Closed;
        None
    }
}

/// Reading keeps a source well-formed; a frame leaves it open, no frame
/// leaves it closed.
pub proof fn law_read_opens_or_closes(reader: CanBusReaderView, event: EventView)
    requires
        reader.wf(),
    ensures
        reader.read(event).1.wf(),
        reader.read(event).0 is Some ==> reader.state == State::Open && reader.read(event).1.state
            == State::Open,
        reader.read(event).0 is None ==> reader.read(event).1.state == State::Closed,
{
    if let SourceView::Synthetic(demo) = reader.source {
        law_read_keeps_wf(demo);
    }
}

/// A closed source gives no frame, whatever it is handed, and stays closed.
pub proof fn law_closed_stays_closed(reader: CanBusReaderView, events: Seq<EventView>)
    requires
        reader.state == State::Closed,
    ensures
        reader.run(events).0.len() == 0,
        reader.run(events).1 == reader,
    decreases events.len(),
{
    if events.len() > 0 {
        law_closed_stays_closed(reader, events.drop_last());
    }
}

/// From an unopened source no frame comes before it is opened: the first
/// event closes it.
pub proof fn law_unopened_gives_no_frame(reader: CanBusReaderView, events: Seq<EventView>)
    requires
        reader.state == State::Unopened,
    ensures
        reader.run(events).0.len() == 0,
        events.len() > 0 ==> reader.run(events).1 == reader.closed(),
    decreases events.len(),
{
    if events.len() > 0 {
        law_unopened_gives_no_frame(reader, events.drop_last());
    }
}

/// An open hardware source that is handed frame after frame gives these
/// frames, all of them and in the order in which they came, and stays open.
pub proof fn law_hardware_hands_frames_on_in_order(
    interface: Seq<char>,
    frames: Seq<FrameView>,
)
    ensures
        ({
            let reader = CanBusReaderView::hardware(interface).opened(true);
            let events = Seq::new(frames.len(), |i: int| EventView::Received(frames[i]));
            reader.run(events) == (frames, reader)
        }),
    decreases frames.len(),
{
    let reader = CanBusReaderView::hardware(interface).opened(true);
    let events = Seq::new(frames.len(), |i: int| EventView::Received(frames[i]));
    if frames.len() == 0 {
        assert(reader.run(events).0 =~= frames);
    } else {
        law_hardware_hands_frames_on_in_order(interface, frames.drop_last());
        let earlier = Seq::new(
            frames.drop_last().len(),
            |i: int| EventView::Received(frames.drop_last()[i]),
        );
        assert(events.drop_last() =~= earlier);
        assert(reader.run(events).0 =~= frames);
    }
}

/// The stream ends once: after an event that gives no frame, no later
/// event gives one.
pub proof fn law_no_frame_after_the_end(
    reader: CanBusReaderView,
    before: Seq<EventView>,
    end: EventView,
    after: Seq<EventView>,
)
    requires
        reader.run(before).1.read(end).0 is None,
    ensures
        reader.run(before.push(end) + after).0 == reader.run(before).0,
        reader.run(before.push(end) + after).1 == reader.run(before).1.closed(),
    decreases after.len(),
{
    let all = before.push(end) + after;
    if after.len() == 0 {
        assert(all =~= before.push(end));
        assert(all.drop_last() =~= before);
    } else {
        law_no_frame_after_the_end(reader, before, end, after.drop_last());
        assert(all.drop_last() =~= before.push(end) + after.drop_last());
    }
}

} // verus!
