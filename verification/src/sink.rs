//! Sinks: the backends that messages are routed to, and the filter of
//! severity and scope that stands before each of them.
//!
//! A sink performs no input or output itself. It hands back an [`Emission`]
//! that says what is to be printed or written, and its caller carries that out.

use vstd::prelude::*;

use crate::msg::{LogIntensity, LogMessage, MessageView};
use crate::text::{contains, occurs_at, occurs_in};

verus! {

/// How a sink is set up: its name, the least severity it lets through, the
/// text that a message's scope must contain, and its template.
#[derive(PartialEq, Eq, Debug, Clone)]
pub struct SinkDeclaration {
    pub name: String,
    pub intensity: LogIntensity,
    pub module: String,
    pub template: String,
}

/// What a sink asks its caller to carry out.
#[derive(PartialEq, Eq, Debug, Clone)]
pub enum Emission {
    /// Nothing is to be done.
    Nothing,
    /// The text is to be written to the standard output.
    Console(String),
    /// The file at `path` is to be created or emptied, and the lines written
    /// to it one after the other.
    File { path: String, lines: Vec<String> },
}

/// An [`Emission`] with its texts as sequences of characters.
pub enum EmissionView {
    Nothing,
    Console(Seq<char>),
    File { path: Seq<char>, lines: Seq<Seq<char>> },
}

/// The texts of a sequence of strings.
pub open spec fn texts(lines: Seq<String>) -> Seq<Seq<char>> {
    Seq::new(lines.len(), |i: int| lines[i]@)
}

impl View for Emission {
    type V = EmissionView;

    open spec fn view(&self) -> EmissionView {
        match *self {
            Emission::Nothing => EmissionView::Nothing,
            Emission::Console(text) => EmissionView::Console(text@),
            Emission::File { path, lines } => EmissionView::File {
                path: path@,
                lines: texts(lines@),
            },
        }
    }
}

/// A message passes a sink with the given threshold and scope filter when it
/// is at least as severe as the threshold and the filter occurs in its scope.
pub open spec fn passes(threshold: LogIntensity, filter: Seq<char>, msg: MessageView) -> bool {
    threshold.level() <= msg.intensity.level() && occurs_in(filter, msg.scope)
}

/// The empty filter lets every scope through: the empty text occurs in every
/// text.
pub proof fn lemma_empty_filter_matches_every_scope(scope: Seq<char>)
    ensures
        occurs_in(Seq::empty(), scope),
{
    assert(scope.subrange(0, 0) =~= Seq::<char>::empty());
    assert(occurs_at(Seq::empty(), scope, 0));
}

/// Behind the empty filter the severity alone decides: a message passes if
/// and only if it is at least as severe as the threshold.
pub proof fn lemma_severity_decides_behind_empty_filter(threshold: LogIntensity, msg: MessageView)
    ensures
        passes(threshold, Seq::empty(), msg) <==> msg.intensity.level() >= threshold.level(),
{
    lemma_empty_filter_matches_every_scope(msg.scope);
}

/// A message that passes a threshold passes every lower one, and the lowest
/// threshold, `Trace`, holds no message back.
pub proof fn lemma_lower_threshold_lets_more_through(
    lower: LogIntensity,
    higher: LogIntensity,
    filter: Seq<char>,
    msg: MessageView,
)
    requires
        lower.level() <= higher.level(),
    ensures
        passes(higher, filter, msg) ==> passes(lower, filter, msg),
        passes(LogIntensity::Trace, Seq::empty(), msg),
{
    lemma_empty_filter_matches_every_scope(msg.scope);
}

/// A backend for log messages.
pub trait Sink {
    /// The least severity the sink lets through.
    spec fn threshold(&self) -> LogIntensity;

    /// The text that the scope of a message must contain.
    spec fn filter(&self) -> Seq<char>;

    /// What `log` does with a message: how the sink stands afterwards, and
    /// what it hands back.
    spec fn logged(&self, msg: MessageView, after: &Self, out: EmissionView) -> bool;

    /// Takes the message, whatever its severity and scope.
    fn log(&mut self, msg: &LogMessage) -> (out: Emission)
        ensures
            old(self).logged(msg@, &*final(self), out@),
            final(self).threshold() == old(self).threshold(),
            final(self).filter() == old(self).filter(),
    ;

    /// Takes the message if it passes the sink's threshold and scope filter,
    /// and leaves the sink as it is if it does not.
    fn log_filtered(&mut self, msg: &LogMessage) -> (out: Emission)
        ensures
            passes(old(self).threshold(), old(self).filter(), msg@) ==> old(self).logged(
                msg@,
                &*final(self),
                out@,
            ),
            !passes(old(self).threshold(), old(self).filter(), msg@) ==> &*final(self) == &*old(
                self,
            ) && out@ == EmissionView::Nothing,
            final(self).threshold() == old(self).threshold(),
            final(self).filter() == old(self).filter(),
    {
        if self.intensity().rank() > msg.intensity.rank() {
            return Emission::Nothing;
        }
        if !contains(msg.scope, self.module()) {
            return Emission::Nothing;
        }
        self.log(msg)
    }

    /// The severity that a message must match or exceed to be logged.
    fn intensity(&self) -> (threshold: LogIntensity)
        ensures
            threshold == self.threshold(),
    ;

    /// The text that the scope of a message must contain for it to be logged.
    fn module(&self) -> (filter: &str)
        ensures
            filter@ == self.filter(),
    ;
}

/// What `log_filtered` does with a message: what `log` does where the message
/// passes, and nothing where it does not.
pub open spec fn delivered<S: Sink + ?Sized>(
    before: &S,
    msg: MessageView,
    after: &S,
    out: EmissionView,
) -> bool {
    if passes(before.threshold(), before.filter(), msg) {
        before.logged(msg, after, out)
    } else {
        after == before && out == EmissionView::Nothing
    }
}

/// Hands every message to the standard output.
pub struct ConsoleSink {
    decl: SinkDeclaration,
}

impl ConsoleSink {
    /// The declaration the sink was made with.
    pub closed spec fn decl(&self) -> SinkDeclaration {
        self.decl
    }

    pub fn new(decl: SinkDeclaration) -> (sink: Self)
        ensures
            sink.decl() == decl,
    {
        ConsoleSink { decl }
    }
}

impl Sink for ConsoleSink {
    open spec fn threshold(&self) -> LogIntensity {
        self.decl().intensity
    }

    open spec fn filter(&self) -> Seq<char> {
        self.decl().module@
    }

    /// The rendered message goes to the standard output.
    open spec fn logged(&self, msg: MessageView, after: &Self, out: EmissionView) -> bool {
        after == self && out == EmissionView::Console(msg.rendered(self.decl().template@))
    }

    fn log(&mut self, msg: &LogMessage) -> (out: Emission) {
        Emission::Console(msg.parse(self.decl.template.as_str()))
    }

    fn intensity(&self) -> (threshold: LogIntensity) {
        self.decl.intensity
    }

    fn module(&self) -> (filter: &str) {
        self.decl.module.as_str()
    }
}

/// Discards every message.
pub struct VoidSink {
    decl: SinkDeclaration,
}

impl VoidSink {
    /// The declaration the sink was made with.
    pub closed spec fn decl(&self) -> SinkDeclaration {
        self.decl
    }

    pub fn new(decl: SinkDeclaration) -> (sink: Self)
        ensures
            sink.decl() == decl,
    {
        Self { decl }
    }
}

impl Sink for VoidSink {
    open spec fn threshold(&self) -> LogIntensity {
        self.decl().intensity
    }

    open spec fn filter(&self) -> Seq<char> {
        self.decl().module@
    }

    /// Nothing happens.
    open spec fn logged(&self, msg: MessageView, after: &Self, out: EmissionView) -> bool {
        after == self && out == EmissionView::Nothing
    }

    fn log(&mut self, _msg: &LogMessage) -> (out: Emission) {
        Emission::Nothing
    }

    fn intensity(&self) -> (threshold: LogIntensity) {
        self.decl.intensity
    }

    fn module(&self) -> (filter: &str) {
        self.decl.module.as_str()
    }
}

/// The number of lines that a [`FileSink`] buffers before it hands them out.
pub const FILE_SINK_BUFFER_SIZE: usize = 1000;

/// One more line fills a buffer that holds `pending`.
pub open spec fn fills(pending: Seq<Seq<char>>) -> bool {
    pending.len() + 1 >= FILE_SINK_BUFFER_SIZE
}

/// The lines that a file sink holds after it took `line` while holding
/// `pending`: none if the line filled the buffer, else one more.
pub open spec fn kept(pending: Seq<Seq<char>>, line: Seq<char>) -> Seq<Seq<char>> {
    if fills(pending) {
        Seq::empty()
    } else {
        pending.push(line)
    }
}

/// The lines that a file sink hands out when it takes `line` while holding
/// `pending`: all of them with the new one last if the line filled the
/// buffer, else none.
pub open spec fn batch(pending: Seq<Seq<char>>, line: Seq<char>) -> Option<Seq<Seq<char>>> {
    if fills(pending) {
        Some(pending.push(line))
    } else {
        None
    }
}

/// Collects rendered messages and hands them out as the contents of a file:
/// whenever the buffer is full, and on `flush`.
pub struct FileSink {
    decl: SinkDeclaration,
    buffer: Vec<String>,
}

impl FileSink {
    #[verifier::type_invariant]
    spec fn below_capacity(self) -> bool {
        self.buffer@.len() < FILE_SINK_BUFFER_SIZE
    }

    /// The declaration the sink was made with. Its name is the file's path.
    pub closed spec fn decl(&self) -> SinkDeclaration {
        self.decl
    }

    /// The rendered lines that were taken and not yet handed out, oldest
    /// first. Their number is the position of the cursor.
    pub closed spec fn pending(&self) -> Seq<Seq<char>> {
        texts(self.buffer@)
    }

    pub fn new(decl: SinkDeclaration) -> (sink: Self)
        ensures
            sink.decl() == decl,
            sink.pending() == Seq::<Seq<char>>::empty(),
    {
        let sink = FileSink { decl, buffer: Vec::new() };
        assert(sink.pending() =~= Seq::empty());
        sink
    }

    /// The number of lines in the buffer, which never reaches its capacity.
    pub fn buffered(&self) -> (n: usize)
        ensures
            n == self.pending().len(),
            n < FILE_SINK_BUFFER_SIZE,
    {
        proof {
            use_type_invariant(self);
        }
        self.buffer.len()
    }

    /// Takes the lines out of the buffer and leaves it empty.
    fn drain(&mut self) -> (lines: Vec<String>)
        ensures
            texts(lines@) == old(self).pending(),
            lines@.len() < FILE_SINK_BUFFER_SIZE,
            final(self).decl() == old(self).decl(),
            final(self).pending() == Seq::<Seq<char>>::empty(),
    {
        proof {
            use_type_invariant(&*self);
        }
        let mut lines: Vec<String> = Vec::new();
        std::mem::swap(&mut self.buffer, &mut lines);
        assert(self.pending() =~= Seq::empty());
        lines
    }

    /// Hands out the buffered lines as the new contents of the file and
    /// empties the buffer. A sink that is given up is flushed once more, so
    /// that no line is lost.
    pub fn flush(&mut self) -> (out: Emission)
        ensures
            out@ == (EmissionView::File {
                path: old(self).decl().name@,
                lines: old(self).pending(),
            }),
            final(self).decl() == old(self).decl(),
            final(self).pending() == Seq::<Seq<char>>::empty(),
    {
        let lines = self.drain();
        Emission::File { path: self.decl.name.clone(), lines }
    }
}

impl Sink for FileSink {
    open spec fn threshold(&self) -> LogIntensity {
        self.decl().intensity
    }

    open spec fn filter(&self) -> Seq<char> {
        self.decl().module@
    }

    /// The rendered message is stored behind the lines that the sink holds.
    /// If the buffer is full with it, all lines are handed out at once as the
    /// new contents of the file, and the buffer is empty again.
    open spec fn logged(&self, msg: MessageView, after: &Self, out: EmissionView) -> bool {
        let line = msg.rendered(self.decl().template@);
        &&& after.decl() == self.decl()
        &&& after.pending() == kept(self.pending(), line)
        &&& out == match batch(self.pending(), line) {
            Some(lines) => EmissionView::File { path: self.decl().name@, lines },
            None => EmissionView::Nothing,
        }
    }

    fn log(&mut self, msg: &LogMessage) -> (out: Emission) {
        let line = msg.parse(self.decl.template.as_str());
        let mut lines = self.drain();
        let ghost before = lines@;
        lines.push(line);
        assert(texts(lines@) =~= texts(before).push(line@));
        if lines.len() >= FILE_SINK_BUFFER_SIZE {
            Emission::File { path: self.decl.name.clone(), lines }
        } else {
            std::mem::swap(&mut self.buffer, &mut lines);
            Emission::Nothing
        }
    }

    fn intensity(&self) -> (threshold: LogIntensity) {
        self.decl.intensity
    }

    fn module(&self) -> (filter: &str) {
        self.decl.module.as_str()
    }
}

/// The lines that a file sink holds after it took `lines` one after the
/// other, having held `pending` before.
pub open spec fn kept_all(pending: Seq<Seq<char>>, lines: Seq<Seq<char>>) -> Seq<Seq<char>>
    decreases lines.len(),
{
    if lines.len() == 0 {
        pending
    } else {
        kept(kept_all(pending, lines.drop_last()), lines.last())
    }
}

/// The batches that a file sink hands out while it takes `lines` one after
/// the other, having held `pending` before: the earliest batch first.
pub open spec fn batches_all(pending: Seq<Seq<char>>, lines: Seq<Seq<char>>) -> Seq<
    Seq<Seq<char>>,
>
    decreases lines.len(),
{
    if lines.len() == 0 {
        Seq::empty()
    } else {
        let earlier = batches_all(pending, lines.drop_last());
        match batch(kept_all(pending, lines.drop_last()), lines.last()) {
            Some(b) => earlier.push(b),
            None => earlier,
        }
    }
}

/// The cursor stays below the capacity: whatever lines a file sink takes, it
/// never holds as many as the buffer has room for.
pub proof fn lemma_cursor_stays_below_capacity(pending: Seq<Seq<char>>, lines: Seq<Seq<char>>)
    requires
        pending.len() < FILE_SINK_BUFFER_SIZE,
    ensures
        kept_all(pending, lines).len() < FILE_SINK_BUFFER_SIZE,
    decreases lines.len(),
{
    if lines.len() > 0 {
        lemma_cursor_stays_below_capacity(pending, lines.drop_last());
    }
}

/// No line is lost and none changes its place: the batches handed out, one
/// after the other, followed by the lines still held, are the lines held at
/// first followed by the lines taken.
pub proof fn lemma_lines_leave_in_order(pending: Seq<Seq<char>>, lines: Seq<Seq<char>>)
    ensures
        batches_all(pending, lines).flatten() + kept_all(pending, lines) == pending + lines,
    decreases lines.len(),
{
    let batches = batches_all(pending, lines);
    if lines.len() == 0 {
        assert(batches.flatten() + pending =~= pending + lines);
    } else {
        let front = lines.drop_last();
        let earlier = batches_all(pending, front);
        let held = kept_all(pending, front);
        lemma_lines_leave_in_order(pending, front);
        assert(front.push(lines.last()) =~= lines);
        if fills(held) {
            earlier.lemma_flatten_push(held.push(lines.last()));
            assert(batches.flatten() + kept_all(pending, lines) =~= (earlier.flatten() + held).push(
                lines.last(),
            ));
        } else {
            assert(batches.flatten() + kept_all(pending, lines) =~= (earlier.flatten() + held).push(
                lines.last(),
            ));
        }
        assert((pending + front).push(lines.last()) =~= pending + lines);
    }
}

/// A file sink that starts empty hands out a batch with every line that
/// fills the buffer: after `lines` it has handed out one batch for each full
/// buffer's worth of lines, every batch a full buffer, and holds the rest.
pub proof fn lemma_one_batch_per_full_buffer(lines: Seq<Seq<char>>)
    ensures
        batches_all(Seq::empty(), lines).len() == lines.len() / FILE_SINK_BUFFER_SIZE as nat,
        kept_all(Seq::empty(), lines).len() == lines.len() % FILE_SINK_BUFFER_SIZE as nat,
        forall|i: int|
            0 <= i < batches_all(Seq::empty(), lines).len() ==> (#[trigger] batches_all(
                Seq::empty(),
                lines,
            )[i]).len() == FILE_SINK_BUFFER_SIZE,
    decreases lines.len(),
{
    if lines.len() > 0 {
        lemma_one_batch_per_full_buffer(lines.drop_last());
    }
}

/// A file sink that starts empty and takes one line more than the buffer has
/// room for hands out exactly one batch, the lines before the last one in
/// the order in which they came. It does so with the line that fills the
/// buffer, before it takes the last line, and then holds the last line alone:
/// a flush now hands out that line and nothing else.
pub proof fn lemma_one_line_over_capacity(lines: Seq<Seq<char>>)
    requires
        lines.len() == FILE_SINK_BUFFER_SIZE + 1,
    ensures
        batches_all(Seq::empty(), lines.drop_last()) == seq![lines.drop_last()],
        kept_all(Seq::empty(), lines.drop_last()) == Seq::<Seq<char>>::empty(),
        batches_all(Seq::empty(), lines) == seq![lines.drop_last()],
        kept_all(Seq::empty(), lines) == seq![lines.last()],
{
    let empty = Seq::<Seq<char>>::empty();
    let full = lines.drop_last();
    let most = full.drop_last();
    lemma_below_capacity_nothing_leaves(most);
    assert(most.push(full.last()) =~= full);
    assert(batches_all(empty, full) =~= seq![full]);
    assert(kept_all(empty, full) =~= empty);
    assert(kept_all(empty, lines) =~= seq![lines.last()]);
    assert(batches_all(empty, lines) =~= seq![full]);
}

/// A file sink that starts empty and takes fewer lines than the buffer has
/// room for hands out nothing and holds exactly those lines, in the order in
/// which they came: a flush now hands out exactly them.
pub proof fn lemma_below_capacity_nothing_leaves(lines: Seq<Seq<char>>)
    requires
        lines.len() < FILE_SINK_BUFFER_SIZE,
    ensures
        batches_all(Seq::empty(), lines) == Seq::<Seq<Seq<char>>>::empty(),
        kept_all(Seq::empty(), lines) == lines,
    decreases lines.len(),
{
    if lines.len() > 0 {
        lemma_below_capacity_nothing_leaves(lines.drop_last());
        assert(lines.drop_last().push(lines.last()) =~= lines);
    }
}

/// The lines of the file at `path` once `out` is carried out, where the file
/// held `before`: an emission for that file replaces what it held.
pub open spec fn file_after(path: Seq<char>, before: Seq<Seq<char>>, out: EmissionView) -> Seq<
    Seq<char>,
> {
    match out {
        EmissionView::File { path: written, lines } => if written == path {
            lines
        } else {
            before
        },
        _ => before,
    }
}

/// A file sink that started empty, took fewer lines than the buffer has room
/// for and is then flushed leaves a file that holds exactly those lines,
/// whatever the file held before.
pub proof fn lemma_flush_writes_what_was_taken(
    path: Seq<char>,
    before: Seq<Seq<char>>,
    lines: Seq<Seq<char>>,
)
    requires
        lines.len() < FILE_SINK_BUFFER_SIZE,
    ensures
        file_after(
            path,
            before,
            EmissionView::File { path, lines: kept_all(Seq::empty(), lines) },
        ) == lines,
{
    lemma_below_capacity_nothing_leaves(lines);
}

/// A file sink that started empty, took one line more than the buffer has
/// room for and is then flushed has written the file twice. Each writing
/// replaces the file, so the file holds the last line alone; the two writings
/// together hold every line, in the order in which they came.
pub proof fn lemma_second_writing_replaces_the_first(
    path: Seq<char>,
    before: Seq<Seq<char>>,
    lines: Seq<Seq<char>>,
)
    requires
        lines.len() == FILE_SINK_BUFFER_SIZE + 1,
    ensures
        ({
            let first = EmissionView::File { path, lines: batches_all(Seq::empty(), lines)[0] };
            let second = EmissionView::File { path, lines: kept_all(Seq::empty(), lines) };
            &&& file_after(path, before, first) == lines.drop_last()
            &&& file_after(path, file_after(path, before, first), second) == seq![lines.last()]
            &&& batches_all(Seq::empty(), lines)[0] + kept_all(Seq::empty(), lines) == lines
        }),
{
    lemma_one_line_over_capacity(lines);
    assert(lines.drop_last() + seq![lines.last()] =~= lines);
}

/// Any of the three sinks, so that sinks of different kinds can stand in one
/// collection.
pub enum Backend {
    Console(ConsoleSink),
    File(FileSink),
    Void(VoidSink),
}

impl Sink for Backend {
    open spec fn threshold(&self) -> LogIntensity {
        match *self {
            Backend::Console(sink) => sink.threshold(),
            Backend::File(sink) => sink.threshold(),
            Backend::Void(sink) => sink.threshold(),
        }
    }

    open spec fn filter(&self) -> Seq<char> {
        match *self {
            Backend::Console(sink) => sink.filter(),
            Backend::File(sink) => sink.filter(),
            Backend::Void(sink) => sink.filter(),
        }
    }

    /// The sink inside takes the message and stays of its kind.
    open spec fn logged(&self, msg: MessageView, after: &Self, out: EmissionView) -> bool {
        match (*self, *after) {
            (Backend::Console(a), Backend::Console(b)) => a.logged(msg, &b, out),
            (Backend::File(a), Backend::File(b)) => a.logged(msg, &b, out),
            (Backend::Void(a), Backend::Void(b)) => a.logged(msg, &b, out),
            _ => false,
        }
    }

    fn log(&mut self, msg: &LogMessage) -> (out: Emission) {
        match self {
            Backend::Console(sink) => sink.log(msg),
            Backend::File(sink) => sink.log(msg),
            Backend::Void(sink) => sink.log(msg),
        }
    }

    fn intensity(&self) -> (threshold: LogIntensity) {
        match self {
            Backend::Console(sink) => sink.intensity(),
            Backend::File(sink) => sink.intensity(),
            Backend::Void(sink) => sink.intensity(),
        }
    }

    fn module(&self) -> (filter: &str) {
        match self {
            Backend::Console(sink) => sink.module(),
            Backend::File(sink) => sink.module(),
            Backend::Void(sink) => sink.module(),
        }
    }
}

} // verus!
