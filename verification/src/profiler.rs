//! A span profiler: nested spans entered and exited with timestamps in microseconds.
use vstd::prelude::*;

verus! {

/// A finished span: its name, start and end times, and its nesting depth.
#[derive(Clone, Copy, Debug, PartialEq, Eq)]
pub struct Span {
    pub name: &'static str,
    pub start: u64,
    pub end: u64,
    pub depth: usize,
}

/// A span that has been entered and not yet exited.
pub struct OpenSpan {
    pub name: &'static str,
    pub start: u64,
    pub depth: usize,
}

/// The profiler: the finished spans, the stack of open ones, and the current depth.
pub struct Profiler {
    spans: Vec<Span>,
    stack: Vec<OpenSpan>,
    depth: usize,
}

impl Profiler {
    pub closed spec fn spans(&self) -> Seq<Span> {
        self.spans@
    }

    /// The open spans, outermost first, as (name, start, depth).
    pub closed spec fn open_spans(&self) -> Seq<(&'static str, u64, usize)> {
        self.stack@.map_values(|s: OpenSpan| (s.name, s.start, s.depth))
    }

    pub closed spec fn depth(&self) -> usize {
        self.depth
    }

    /// A profiler with no span.
    pub fn new() -> (p: Profiler)
        ensures
            p.spans() == Seq::<Span>::empty(),
            p.open_spans() == Seq::<(&'static str, u64, usize)>::empty(),
            p.depth() == 0,
    {
        let p = Profiler { spans: Vec::new(), stack: Vec::new(), depth: 0 };
        assert(p.open_spans() =~= Seq::<(&'static str, u64, usize)>::empty());
        p
    }

    /// Opens a span named `name` at time `now_us`, one level deeper.
    pub fn enter(&mut self, name: &'static str, now_us: u64)
        requires
            old(self).depth() < usize::MAX,
        ensures
            final(self).open_spans() == old(self).open_spans().push((name, now_us, old(self).depth())),
            final(self).depth() == old(self).depth() + 1,
            final(self).spans() == old(self).spans(),
    {
        self.stack.push(OpenSpan { name, start: now_us, depth: self.depth });
        self.depth = self.depth + 1;
        assert(self.open_spans() =~= old(self).open_spans().push((name, now_us, old(self).depth())));
    }

    /// Closes the innermost open span at time `now_us`, if there is one: it is recorded and
    /// the depth goes back to the span's own.
    pub fn exit(&mut self, now_us: u64)
        ensures
            old(self).open_spans().len() == 0 ==> final(self).open_spans() == old(self).open_spans()
                && final(self).depth() == old(self).depth() && final(self).spans() == old(self).spans(),
            old(self).open_spans().len() > 0 ==> {
                let (name, start, depth) = old(self).open_spans().last();
                &&& final(self).open_spans() == old(self).open_spans().drop_last()
                &&& final(self).depth() == depth
                &&& final(self).spans() == old(self).spans().push(Span { name, start, end: now_us, depth })
            },
    {
        match self.stack.pop() {
            Some(s) => {
                self.depth = s.depth;
                self.spans.push(Span { name: s.name, start: s.start, end: now_us, depth: s.depth });
                assert(self.open_spans() =~= old(self).open_spans().drop_last());
            },
            None => {},
        }
    }

    /// The rows of the profile, in the order the spans finished: depth, name, duration.
    pub fn report(&self) -> (rows: Vec<(usize, &'static str, u64)>)
        requires
            forall|i: int| 0 <= i < self.spans().len() ==> #[trigger] self.spans()[i].start <= self.spans()[i].end,
        ensures
            rows@.len() == self.spans().len(),
            forall|i: int| 0 <= i < rows@.len() ==> #[trigger] rows@[i] == (self.spans()[i].depth, self.spans()[i].name, (self.spans()[i].end - self.spans()[i].start) as u64),
    {
        let mut rows: Vec<(usize, &'static str, u64)> = Vec::new();
        let n = self.spans.len();
        let mut i: usize = 0;
        while i < n
            invariant
                n == self.spans@.len(),
                i <= n,
                forall|j: int| 0 <= j < self.spans().len() ==> #[trigger] self.spans()[j].start <= self.spans()[j].end,
                rows@.len() == i,
                forall|j: int| 0 <= j < i ==> #[trigger] rows@[j] == (self.spans@[j].depth, self.spans@[j].name, (self.spans@[j].end - self.spans@[j].start) as u64),
            decreases n - i,
        {
            let s = self.spans[i];
            assert(self.spans()[i as int].start <= self.spans()[i as int].end);
            rows.push((s.depth, s.name, s.end - s.start));
            i = i + 1;
        }
        rows
    }
}

/// Entering a span and exiting it restores the depth and records the span with its entry time.
pub proof fn lemma_enter_exit(before: Profiler, entered: Profiler, after: Profiler, name: &'static str, t0: u64, t1: u64)
    requires
        entered.open_spans() == before.open_spans().push((name, t0, before.depth())),
        entered.depth() == before.depth() + 1,
        entered.spans() == before.spans(),
        entered.open_spans().len() > 0,
        ({
            let (n, s, d) = entered.open_spans().last();
            &&& after.open_spans() == entered.open_spans().drop_last()
            &&& after.depth() == d
            &&& after.spans() == entered.spans().push(Span { name: n, start: s, end: t1, depth: d })
        }),
    ensures
        after.depth() == before.depth(),
        after.open_spans() == before.open_spans(),
        after.spans() == before.spans().push(Span { name, start: t0, end: t1, depth: before.depth() }),
{
    assert(entered.open_spans().drop_last() =~= before.open_spans());
}

/// A span in progress: opened on construction, closed by [`SpanGuard::finish`].
pub struct SpanGuard;

impl SpanGuard {
    /// Opens a span named `name` on `profiler` at time `now_us`.
    pub fn new(profiler: &mut Profiler, name: &'static str, now_us: u64) -> (g: SpanGuard)
        requires
            old(profiler).depth() < usize::MAX,
        ensures
            final(profiler).open_spans() == old(profiler).open_spans().push((name, now_us, old(profiler).depth())),
            final(profiler).depth() == old(profiler).depth() + 1,
            final(profiler).spans() == old(profiler).spans(),
    {
        profiler.enter(name, now_us);
        SpanGuard
    }

    /// Closes the innermost open span of `profiler` at time `now_us`.
    pub fn finish(self, profiler: &mut Profiler, now_us: u64)
        ensures
            old(profiler).open_spans().len() == 0 ==> final(profiler).open_spans() == old(profiler).open_spans()
                && final(profiler).depth() == old(profiler).depth() && final(profiler).spans() == old(profiler).spans(),
            old(profiler).open_spans().len() > 0 ==> {
                let (name, start, depth) = old(profiler).open_spans().last();
                &&& final(profiler).open_spans() == old(profiler).open_spans().drop_last()
                &&& final(profiler).depth() == depth
                &&& final(profiler).spans() == old(profiler).spans().push(Span { name, start, end: now_us, depth })
            },
    {
        profiler.exit(now_us);
    }

    /// The rows of the profile of `profiler` (see [`Profiler::report`]).
    pub fn dump(profiler: &Profiler) -> (rows: Vec<(usize, &'static str, u64)>)
        requires
            forall|i: int| 0 <= i < profiler.spans().len() ==> #[trigger] profiler.spans()[i].start <= profiler.spans()[i].end,
        ensures
            rows@.len() == profiler.spans().len(),
            forall|i: int| 0 <= i < rows@.len() ==> #[trigger] rows@[i] == (profiler.spans()[i].depth, profiler.spans()[i].name, (profiler.spans()[i].end - profiler.spans()[i].start) as u64),
    {
        profiler.report()
    }
}

} // verus!
