use vstd::prelude::*;
use crate::error::ConvertError;
use crate::naming::{page_file_name, page_file_name_spec};
use crate::sizing::RenderLimits;

verus! {

/// What became of the page that the run asked to have rendered and
/// written.
#[derive(Clone, Copy, Debug, PartialEq, Eq, Structural)]
pub enum PageOutcome {
    /// The page was rendered and its image file written.
    Written,
    /// The engine could not render the page.
    RenderFailed,
    /// The page was rendered, but its image file could not be written.
    EncodeFailed,
}

/// What the embedding program does next.
#[derive(Debug)]
pub enum RasterAction {
    /// Render the page at `page_index` within `limits` and write the
    /// bitmap, losslessly, to `file_name` in the working directory.
    RenderPage { page_index: usize, limits: RenderLimits, file_name: String },
    /// Every page has been written: end with success.
    Finish { pages: usize },
    /// End the run with this error. Files already written stay.
    Abort { error: ConvertError },
}

/// The state of a rasterization run as contracts see it.
pub struct RasterView {
    /// The number of pages of the document.
    pub total: nat,
    /// The number of pages written so far, which are the first ones.
    pub written: nat,
    /// The failure that ended the run, if one did.
    pub failure: Option<ConvertError>,
    /// The bounding box that each page is rendered into.
    pub limits: RenderLimits,
}

impl RasterView {
    /// No more pages written than the document has.
    pub open spec fn wf(self) -> bool {
        self.written <= self.total
    }

    /// A run on a document of `total` pages, none written yet.
    pub open spec fn opened(total: nat, limits: RenderLimits) -> RasterView {
        RasterView { total, written: 0, failure: None, limits }
    }

    /// A run whose document could not be opened.
    pub open spec fn unopened(limits: RenderLimits) -> RasterView {
        RasterView { total: 0, written: 0, failure: Some(ConvertError::DocumentOpen), limits }
    }

    /// A page is still to be rendered.
    pub open spec fn in_progress(self) -> bool {
        self.failure.is_none() && self.written < self.total
    }

    /// Every page was written.
    pub open spec fn finished(self) -> bool {
        self.failure.is_none() && self.written >= self.total
    }

    /// The state after the outcome of the page that was asked for. A run
    /// that has ended stays as it is.
    pub open spec fn step(self, outcome: PageOutcome) -> RasterView {
        if !self.in_progress() {
            self
        } else {
            match outcome {
                PageOutcome::Written => RasterView { written: self.written + 1, ..self },
                PageOutcome::RenderFailed => RasterView {
                    failure: Some(ConvertError::PageRender { page_index: self.written as usize }),
                    ..self
                },
                PageOutcome::EncodeFailed => RasterView {
                    failure: Some(ConvertError::ImageEncode { page_index: self.written as usize }),
                    ..self
                },
            }
        }
    }

    /// The state after a sequence of outcomes, taken in order.
    pub open spec fn replay(self, outcomes: Seq<PageOutcome>) -> RasterView
        decreases outcomes.len(),
    {
        if outcomes.len() == 0 {
            self
        } else {
            self.step(outcomes[0]).replay(outcomes.subrange(1, outcomes.len() as int))
        }
    }

    /// The names of the image files written so far, in the order in which
    /// they were written.
    pub open spec fn files(self) -> Seq<Seq<char>> {
        Seq::new(self.written, |i: int| page_file_name_spec(i as nat))
    }
}

/// A rasterization run: the pages of one document, rendered and written
/// one by one in document order, ended by the first failure.
#[derive(Debug)]
pub struct RasterRun {
    total: usize,
    written: usize,
    failure: Option<ConvertError>,
    limits: RenderLimits,
}

impl View for RasterRun {
    type V = RasterView;

    closed spec fn view(&self) -> RasterView {
        RasterView {
            total: self.total as nat,
            written: self.written as nat,
            failure: self.failure,
            limits: self.limits,
        }
    }
}

impl RasterRun {
    /// Starts a run from the result of opening the document: its number
    /// of pages, or `None` where it could not be opened.
    pub fn start(opened: Option<usize>, limits: RenderLimits) -> (run: RasterRun)
        ensures
            run@ == (match opened {
                Some(total) => RasterView::opened(total as nat, limits),
                None => RasterView::unopened(limits),
            }),
            run@.wf(),
    {
        match opened {
            Some(total) => RasterRun { total, written: 0, failure: None, limits },
            None => RasterRun {
                total: 0,
                written: 0,
                failure: Some(ConvertError::DocumentOpen),
                limits,
            },
        }
    }

    /// What to do next: render the first page not yet written, under the
    /// run's limits and to the file named after its one-based number; or
    /// finish, once every page is written; or abort with the failure that
    /// ended the run.
    pub fn next_action(&self) -> (action: RasterAction)
        ensures
            match action {
                RasterAction::RenderPage { page_index, limits, file_name } => {
                    &&& self@.in_progress()
                    &&& page_index as nat == self@.written
                    &&& limits == self@.limits
                    &&& file_name@ == page_file_name_spec(self@.written)
                },
                RasterAction::Finish { pages } => self@.finished() && pages as nat == self@.written,
                RasterAction::Abort { error } => self@.failure == Some(error),
            },
    {
        match self.failure {
            Some(error) => RasterAction::Abort { error },
            None => {
                if self.written < self.total {
                    RasterAction::RenderPage {
                        page_index: self.written,
                        limits: self.limits,
                        file_name: page_file_name(self.written),
                    }
                } else {
                    RasterAction::Finish { pages: self.written }
                }
            },
        }
    }

    /// Takes in the outcome of the page that `next_action` asked for. A
    /// written page moves the run to the next one; a failure ends it,
    /// recorded with the page's index. Once the run has ended an outcome
    /// changes nothing.
    pub fn record(&mut self, outcome: PageOutcome)
        ensures
            final(self)@ == old(self)@.step(outcome),
            old(self)@.wf() ==> final(self)@.wf(),
    {
        if self.failure.is_none() && self.written < self.total {
            match outcome {
                PageOutcome::Written => {
                    self.written = self.written + 1;
                },
                PageOutcome::RenderFailed => {
                    self.failure = Some(ConvertError::PageRender { page_index: self.written });
                },
                PageOutcome::EncodeFailed => {
                    self.failure = Some(ConvertError::ImageEncode { page_index: self.written });
                },
            }
        }
    }

    /// The number of image files written so far.
    pub fn pages_written(&self) -> (n: usize)
        ensures
            n as nat == self@.written,
            n as nat == self@.files().len(),
    {
        self.written
    }
}

/// Written pages are exactly the first pages, and a run that has ended
/// stays ended: replaying `count` written pages from a state with at
/// least that many pages left adds `count` to the pages written and
/// changes nothing else.
pub proof fn lemma_replay_written(start: RasterView, count: nat)
    requires
        start.failure.is_none(),
        start.written + count <= start.total,
    ensures
        start.replay(Seq::new(count, |i: int| PageOutcome::Written)) == (RasterView {
            written: start.written + count,
            ..start
        }),
    decreases count,
{
    let outcomes = Seq::new(count, |i: int| PageOutcome::Written);
    if count > 0 {
        let rest = Seq::new((count - 1) as nat, |i: int| PageOutcome::Written);
        assert(outcomes.subrange(1, outcomes.len() as int) =~= rest);
        lemma_replay_written(start.step(PageOutcome::Written), (count - 1) as nat);
    }
}

/// A document of `total` pages whose pages all render and write gives
/// exactly `total` image files: the run finishes, and file `i` is named
/// after page number `i + 1`, with no gap. A document without pages
/// gives no file and finishes at once.
pub proof fn lemma_every_page_written(total: nat, limits: RenderLimits)
    ensures
        ({
            let end = RasterView::opened(total, limits).replay(
                Seq::new(total, |i: int| PageOutcome::Written),
            );
            &&& end.finished()
            &&& end.files().len() == total
            &&& forall|i: int| 0 <= i < total ==> #[trigger] end.files()[i] == page_file_name_spec(i as nat)
        }),
        total == 0 ==> RasterView::opened(total, limits).finished(),
{
    lemma_replay_written(RasterView::opened(total, limits), total);
}

/// Nothing follows the end of a run: whatever outcomes are reported to a
/// run that has failed or finished, its state stays the same, so no
/// further file is written.
pub proof fn lemma_ended_run_stays(state: RasterView, outcomes: Seq<PageOutcome>)
    requires
        !state.in_progress(),
    ensures
        state.replay(outcomes) == state,
    decreases outcomes.len(),
{
    if outcomes.len() > 0 {
        lemma_ended_run_stays(state, outcomes.subrange(1, outcomes.len() as int));
    }
}

/// The first failure ends the run at its page: after `before` written
/// pages and then a failed one, exactly `before` files exist and the
/// failure names page `before`, whatever is reported afterwards.
pub proof fn lemma_failure_stops_run(
    total: nat,
    limits: RenderLimits,
    before: nat,
    failed: PageOutcome,
    after: Seq<PageOutcome>,
)
    requires
        before < total,
        failed != PageOutcome::Written,
    ensures
        ({
            let end = RasterView::opened(total, limits).replay(
                Seq::new(before, |i: int| PageOutcome::Written),
            ).step(failed).replay(after);
            &&& end.written == before
            &&& end.files().len() == before
            &&& end.failure == Some(
                if failed == PageOutcome::RenderFailed {
                    ConvertError::PageRender { page_index: before as usize }
                } else {
                    ConvertError::ImageEncode { page_index: before as usize }
                },
            )
        }),
{
    let start = RasterView::opened(total, limits);
    lemma_replay_written(start, before);
    let mid = start.replay(Seq::new(before, |i: int| PageOutcome::Written)).step(failed);
    lemma_ended_run_stays(mid, after);
}

/// Every outcome keeps the pages written within the document's pages.
pub proof fn lemma_replay_keeps_wf(state: RasterView, outcomes: Seq<PageOutcome>)
    requires
        state.wf(),
    ensures
        state.replay(outcomes).wf(),
        state.replay(outcomes).total == state.total,
        state.replay(outcomes).limits == state.limits,
    decreases outcomes.len(),
{
    if outcomes.len() > 0 {
        lemma_replay_keeps_wf(state.step(outcomes[0]), outcomes.subrange(1, outcomes.len() as int));
    }
}

/// Two finished runs on documents of the same number of pages wrote
/// files of the same names in the same order: what a run writes depends
/// on the document alone.
pub proof fn lemma_finished_runs_agree(first: RasterView, second: RasterView)
    requires
        first.wf(),
        second.wf(),
        first.finished(),
        second.finished(),
        first.total == second.total,
    ensures
        first.files() == second.files(),
        first.files().len() == first.total,
{
}

} // verus!
