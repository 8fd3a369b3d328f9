use vstd::prelude::*;
use image::DynamicImage;
use crate::engine::{image_dimensions, pixel_size};
use crate::error::ConvertError;
use crate::naming::{output_document_name, output_document_name_spec};
use crate::sizing::PageGeometry;

verus! {

/// Where a synthesis run stands.
#[derive(Clone, Copy, Debug, PartialEq, Eq, Structural)]
pub enum SynthStage {
    /// The inputs before `next` exist; input `next` is to be checked.
    Checking { next: usize },
    /// Every input exists; the empty document is to be created.
    Creating,
    /// The inputs before `next` have their pages; input `next` is to be
    /// decoded.
    Decoding { next: usize },
    /// Input `next` was decoded; its page of this geometry is to be
    /// appended and covered with the image.
    Placing { next: usize, geometry: PageGeometry },
    /// Every input has its page; the document is to be written.
    Saving,
    /// The document was written.
    Finished,
    /// The run ended with this error, and no document was written.
    Aborted { error: ConvertError },
}

/// What the embedding program reports back after an action.
#[derive(Clone, Copy, Debug, PartialEq, Eq, Structural)]
pub enum SynthEvent {
    /// The input that was to be checked exists.
    InputFound,
    /// The input that was to be checked does not exist.
    InputMissing,
    /// The empty document was created.
    DocumentCreated,
    /// The empty document could not be created.
    DocumentCreateFailed,
    /// The input was decoded to an image of this pixel size.
    ImageDecoded { width: u32, height: u32 },
    /// The input could not be decoded.
    ImageDecodeFailed,
    /// The page was appended and the image placed on it.
    PagePlaced,
    /// The page could not be appended, or the image not placed on it.
    PagePlacementFailed,
    /// The document was written.
    DocumentSaved,
    /// The document could not be written.
    DocumentSaveFailed,
}

impl SynthEvent {
    /// The report for an input that was decoded to `picture`: an
    /// `ImageDecoded` with the picture's width and height in pixels.
    pub fn decoded(picture: &DynamicImage) -> (event: SynthEvent)
        ensures
            event == (SynthEvent::ImageDecoded {
                width: pixel_size(*picture).0,
                height: pixel_size(*picture).1,
            }),
    {
        let (width, height) = image_dimensions(picture);
        SynthEvent::ImageDecoded { width, height }
    }
}

/// What the embedding program does next.
#[derive(Debug)]
pub enum SynthAction {
    /// Test whether the input at `input_index` exists.
    CheckInput { input_index: usize },
    /// Create the empty document.
    CreateDocument,
    /// Decode the input at `input_index`.
    DecodeImage { input_index: usize },
    /// Append a page of `geometry` at the end of the document, and put
    /// the image of the input at `input_index` on it as its only object,
    /// scaled by `scale` so that it covers the page.
    PlaceImage { input_index: usize, geometry: PageGeometry, scale: (u32, u32) },
    /// Write the document to `file_name` in the working directory.
    SaveDocument { file_name: String },
    /// The document of `pages` pages was written: end with success.
    Finish { pages: usize },
    /// End the run with this error, writing nothing and dropping the
    /// pages built so far.
    Abort { error: ConvertError },
}

/// The state of a synthesis run as contracts see it.
pub struct SynthView {
    /// The number of input images.
    pub inputs: usize,
    /// Where the run stands.
    pub stage: SynthStage,
    /// The pages of the document being assembled, in order. Empty once
    /// the run is aborted.
    pub pages: Seq<PageGeometry>,
}

impl SynthView {
    /// A run on `inputs` images, before anything was done. With no input
    /// there is nothing to check.
    pub open spec fn initial(inputs: usize) -> SynthView {
        SynthView {
            inputs,
            stage: if inputs == 0 {
                SynthStage::Creating
            } else {
                SynthStage::Checking { next: 0 }
            },
            pages: Seq::empty(),
        }
    }

    /// The run in the given stage, the rest unchanged.
    pub open spec fn at(self, stage: SynthStage) -> SynthView {
        SynthView { stage, ..self }
    }

    /// The run ended by `error`, with the pages built so far dropped.
    pub open spec fn aborted(self, error: ConvertError) -> SynthView {
        SynthView { inputs: self.inputs, stage: SynthStage::Aborted { error }, pages: Seq::empty() }
    }

    /// The stage and the pages agree: while inputs are checked and the
    /// document created there is no page; input `next` is worked on when
    /// exactly the `next` inputs before it have their pages; the document
    /// is written with one page per input; an aborted run has no page.
    pub open spec fn wf(self) -> bool {
        match self.stage {
            SynthStage::Checking { next } => next < self.inputs && self.pages.len() == 0,
            SynthStage::Creating => self.pages.len() == 0,
            SynthStage::Decoding { next } => next < self.inputs && self.pages.len() == next,
            SynthStage::Placing { next, geometry } => next < self.inputs && self.pages.len()
                == next,
            SynthStage::Saving => self.pages.len() == self.inputs,
            SynthStage::Finished => self.pages.len() == self.inputs,
            SynthStage::Aborted { error } => self.pages.len() == 0,
        }
    }

    /// The run has ended, in success or failure.
    pub open spec fn ended(self) -> bool {
        self.stage is Finished || self.stage is Aborted
    }

    /// The output document exists: only once the run has finished.
    pub open spec fn document_written(self) -> bool {
        self.stage is Finished
    }

    /// The state after an event. An event that does not answer the
    /// current stage's action changes nothing.
    pub open spec fn step(self, event: SynthEvent) -> SynthView {
        match (self.stage, event) {
            (SynthStage::Checking { next }, SynthEvent::InputFound) => {
                if next + 1 < self.inputs {
                    self.at(SynthStage::Checking { next: (next + 1) as usize })
                } else {
                    self.at(SynthStage::Creating)
                }
            },
            (SynthStage::Checking { next }, SynthEvent::InputMissing) => {
                self.aborted(ConvertError::InputMissing { input_index: next })
            },
            (SynthStage::Creating, SynthEvent::DocumentCreated) => {
                if self.inputs == 0 {
                    self.at(SynthStage::Saving)
                } else {
                    self.at(SynthStage::Decoding { next: 0 })
                }
            },
            (SynthStage::Creating, SynthEvent::DocumentCreateFailed) => {
                self.aborted(ConvertError::DocumentCreate)
            },
            (SynthStage::Decoding { next }, SynthEvent::ImageDecoded { width, height }) => {
                self.at(
                    SynthStage::Placing {
                        next,
                        geometry: PageGeometry::from_pixels_spec(width, height),
                    },
                )
            },
            (SynthStage::Decoding { next }, SynthEvent::ImageDecodeFailed) => {
                self.aborted(ConvertError::ImageDecode { input_index: next })
            },
            (SynthStage::Placing { next, geometry }, SynthEvent::PagePlaced) => {
                SynthView {
                    inputs: self.inputs,
                    stage: if next + 1 < self.inputs {
                        SynthStage::Decoding { next: (next + 1) as usize }
                    } else {
                        SynthStage::Saving
                    },
                    pages: self.pages.push(geometry),
                }
            },
            (SynthStage::Placing { next, geometry }, SynthEvent::PagePlacementFailed) => {
                self.aborted(ConvertError::PagePlacement { input_index: next })
            },
            (SynthStage::Saving, SynthEvent::DocumentSaved) => self.at(SynthStage::Finished),
            (SynthStage::Saving, SynthEvent::DocumentSaveFailed) => {
                self.aborted(ConvertError::DocumentSave)
            },
            _ => self,
        }
    }

    /// The state after a sequence of events, taken in order.
    pub open spec fn replay(self, events: Seq<SynthEvent>) -> SynthView
        decreases events.len(),
    {
        if events.len() == 0 {
            self
        } else {
            self.step(events[0]).replay(events.subrange(1, events.len() as int))
        }
    }
}

/// A synthesis run: every input checked for existence first, then one
/// page per image in input order, then the document written; ended by
/// the first failure, with nothing written.
#[derive(Debug)]
pub struct SynthRun {
    inputs: usize,
    stage: SynthStage,
    pages: Vec<PageGeometry>,
}

impl View for SynthRun {
    type V = SynthView;

    closed spec fn view(&self) -> SynthView {
        SynthView { inputs: self.inputs, stage: self.stage, pages: self.pages@ }
    }
}

impl SynthRun {
    /// Starts a run on `inputs` image paths.
    pub fn start(inputs: usize) -> (run: SynthRun)
        ensures
            run@ == SynthView::initial(inputs),
            run@.wf(),
    {
        let stage = if inputs == 0 {
            SynthStage::Creating
        } else {
            SynthStage::Checking { next: 0 }
        };
        SynthRun { inputs, stage, pages: Vec::new() }
    }

    /// What to do next; the current stage decides it alone.
    pub fn next_action(&self) -> (action: SynthAction)
        ensures
            match action {
                SynthAction::CheckInput { input_index } => self@.stage == (SynthStage::Checking {
                    next: input_index,
                }),
                SynthAction::CreateDocument => self@.stage == SynthStage::Creating,
                SynthAction::DecodeImage { input_index } => self@.stage == (SynthStage::Decoding {
                    next: input_index,
                }),
                SynthAction::PlaceImage { input_index, geometry, scale } => {
                    &&& self@.stage == (SynthStage::Placing { next: input_index, geometry })
                    &&& scale == geometry.cover_scale_spec()
                },
                SynthAction::SaveDocument { file_name } => {
                    &&& self@.stage == SynthStage::Saving
                    &&& file_name@ == output_document_name_spec()
                },
                SynthAction::Finish { pages } => {
                    &&& self@.stage == SynthStage::Finished
                    &&& pages == self@.pages.len()
                },
                SynthAction::Abort { error } => self@.stage == (SynthStage::Aborted { error }),
            },
    {
        match self.stage {
            SynthStage::Checking { next } => SynthAction::CheckInput { input_index: next },
            SynthStage::Creating => SynthAction::CreateDocument,
            SynthStage::Decoding { next } => SynthAction::DecodeImage { input_index: next },
            SynthStage::Placing { next, geometry } => SynthAction::PlaceImage {
                input_index: next,
                geometry,
                scale: geometry.cover_scale(),
            },
            SynthStage::Saving => SynthAction::SaveDocument { file_name: output_document_name() },
            SynthStage::Finished => SynthAction::Finish { pages: self.pages.len() },
            SynthStage::Aborted { error } => SynthAction::Abort { error },
        }
    }

    /// Takes in what happened to the action that `next_action` asked for.
    pub fn record(&mut self, event: SynthEvent)
        ensures
            final(self)@ == old(self)@.step(event),
            old(self)@.wf() ==> final(self)@.wf(),
    {
        match (self.stage, event) {
            (SynthStage::Checking { next }, SynthEvent::InputFound) => {
                if self.inputs > 0 && next < self.inputs - 1 {
                    self.stage = SynthStage::Checking { next: next + 1 };
                } else {
                    self.stage = SynthStage::Creating;
                }
            },
            (SynthStage::Checking { next }, SynthEvent::InputMissing) => {
                self.abort(ConvertError::InputMissing { input_index: next });
            },
            (SynthStage::Creating, SynthEvent::DocumentCreated) => {
                if self.inputs == 0 {
                    self.stage = SynthStage::Saving;
                } else {
                    self.stage = SynthStage::Decoding { next: 0 };
                }
            },
            (SynthStage::Creating, SynthEvent::DocumentCreateFailed) => {
                self.abort(ConvertError::DocumentCreate);
            },
            (SynthStage::Decoding { next }, SynthEvent::ImageDecoded { width, height }) => {
                self.stage = SynthStage::Placing {
                    next,
                    geometry: PageGeometry::from_pixels(width, height),
                };
            },
            (SynthStage::Decoding { next }, SynthEvent::ImageDecodeFailed) => {
                self.abort(ConvertError::ImageDecode { input_index: next });
            },
            (SynthStage::Placing { next, geometry }, SynthEvent::PagePlaced) => {
                self.pages.push(geometry);
                if self.inputs > 0 && next < self.inputs - 1 {
                    self.stage = SynthStage::Decoding { next: next + 1 };
                } else {
                    self.stage = SynthStage::Saving;
                }
            },
            (SynthStage::Placing { next, geometry }, SynthEvent::PagePlacementFailed) => {
                self.abort(ConvertError::PagePlacement { input_index: next });
            },
            (SynthStage::Saving, SynthEvent::DocumentSaved) => {
                self.stage = SynthStage::Finished;
            },
            (SynthStage::Saving, SynthEvent::DocumentSaveFailed) => {
                self.abort(ConvertError::DocumentSave);
            },
            _ => {},
        }
    }

    fn abort(&mut self, error: ConvertError)
        ensures
            final(self)@ == old(self)@.aborted(error),
    {
        self.stage = SynthStage::Aborted { error };
        self.pages = Vec::new();
    }

    /// The geometry of each page of the document being assembled, in
    /// page order.
    pub fn pages(&self) -> (pages: &Vec<PageGeometry>)
        ensures
            pages@ == self@.pages,
    {
        &self.pages
    }

    /// The number of input images.
    pub fn inputs(&self) -> (n: usize)
        ensures
            n == self@.inputs,
    {
        self.inputs
    }
}

/// `count` reports of an input found.
pub open spec fn found_events(count: nat) -> Seq<SynthEvent> {
    Seq::new(count, |i: int| SynthEvent::InputFound)
}

/// The reports of images decoded to the given pixel sizes, each followed
/// by the report of its page placed.
pub open spec fn build_events(sizes: Seq<(u32, u32)>) -> Seq<SynthEvent> {
    Seq::new(
        2 * sizes.len(),
        |i: int|
            if i % 2 == 0 {
                SynthEvent::ImageDecoded { width: sizes[i / 2].0, height: sizes[i / 2].1 }
            } else {
                SynthEvent::PagePlaced
            },
    )
}

/// The reports of a run in which everything succeeds, on images of the
/// given pixel sizes: each input found, the document created, each image
/// decoded and placed, the document written.
pub open spec fn success_events(sizes: Seq<(u32, u32)>) -> Seq<SynthEvent> {
    found_events(sizes.len()) + seq![SynthEvent::DocumentCreated] + build_events(sizes)
        + seq![SynthEvent::DocumentSaved]
}

/// The pages for images of the given pixel sizes, one point per pixel.
pub open spec fn pages_of(sizes: Seq<(u32, u32)>) -> Seq<PageGeometry> {
    Seq::new(sizes.len(), |i: int| PageGeometry::from_pixels_spec(sizes[i].0, sizes[i].1))
}

/// Every step keeps stage and pages in agreement.
pub proof fn lemma_step_keeps_wf(state: SynthView, event: SynthEvent)
    requires
        state.wf(),
    ensures
        state.step(event).wf(),
{
}

/// Replaying two sequences one after the other is replaying them joined.
pub proof fn lemma_replay_concat(state: SynthView, first: Seq<SynthEvent>, second: Seq<SynthEvent>)
    ensures
        state.replay(first + second) == state.replay(first).replay(second),
    decreases first.len(),
{
    let joined = first + second;
    if first.len() == 0 {
        assert(joined =~= second);
    } else {
        assert(joined[0] == first[0]);
        assert(joined.subrange(1, joined.len() as int) =~= first.subrange(1, first.len() as int)
            + second);
        lemma_replay_concat(state.step(first[0]), first.subrange(1, first.len() as int), second);
    }
}

/// A run that has ended stays as it is, whatever is reported to it.
pub proof fn lemma_ended_run_stays(state: SynthView, events: Seq<SynthEvent>)
    requires
        state.ended(),
    ensures
        state.replay(events) == state,
    decreases events.len(),
{
    if events.len() > 0 {
        lemma_ended_run_stays(state, events.subrange(1, events.len() as int));
    }
}

/// While inputs are found the run only moves along the list: after
/// `count` more inputs found it checks input `next + count`, or creates
/// the document where that was the last one. No page exists yet.
pub proof fn lemma_replay_found(state: SynthView, next: usize, count: nat)
    requires
        state.stage == (SynthStage::Checking { next }),
        next < state.inputs,
        next + count <= state.inputs,
    ensures
        state.replay(found_events(count)) == state.at(
            if next + count < state.inputs {
                SynthStage::Checking { next: (next + count) as usize }
            } else {
                SynthStage::Creating
            },
        ),
    decreases count,
{
    let events = found_events(count);
    if count > 0 {
        assert(events.subrange(1, events.len() as int) =~= found_events((count - 1) as nat));
        let after = state.step(events[0]);
        if next + 1 < state.inputs {
            lemma_replay_found(after, (next + 1) as usize, (count - 1) as nat);
        } else {
            assert(found_events((count - 1) as nat).len() == 0);
        }
    }
}

/// Decoding and placing the images one by one appends their pages in
/// order: from the point where input `next` is to be decoded, the
/// remaining images decoded to `sizes` and placed leave the run ready to
/// write, with one more page per image, each of its image's pixel size.
pub proof fn lemma_replay_build(state: SynthView, next: usize, sizes: Seq<(u32, u32)>)
    requires
        state.stage == (SynthStage::Decoding { next }),
        sizes.len() >= 1,
        next + sizes.len() == state.inputs,
    ensures
        state.replay(build_events(sizes)) == (SynthView {
            inputs: state.inputs,
            stage: SynthStage::Saving,
            pages: state.pages + pages_of(sizes),
        }),
    decreases sizes.len(),
{
    let events = build_events(sizes);
    let rest = sizes.subrange(1, sizes.len() as int);
    let tail = events.subrange(1, events.len() as int);
    let geometry = PageGeometry::from_pixels_spec(sizes[0].0, sizes[0].1);
    let decoded = state.step(events[0]);
    assert(events[0] == (SynthEvent::ImageDecoded { width: sizes[0].0, height: sizes[0].1 }));
    assert(decoded.stage == (SynthStage::Placing { next, geometry }));
    assert(tail[0] == SynthEvent::PagePlaced);
    let placed = decoded.step(tail[0]);
    assert(tail.subrange(1, tail.len() as int) =~= build_events(rest)) by {
        assert forall|i: int| 0 <= i < 2 * rest.len() implies tail.subrange(1, tail.len() as int)[i]
            == build_events(rest)[i] by {
            assert((i + 2) % 2 == i % 2);
            assert((i + 2) / 2 == i / 2 + 1);
        }
    }
    assert(events.len() == 2 * sizes.len());
    assert(state.replay(events) == decoded.replay(tail));
    assert(decoded.replay(tail) == placed.replay(tail.subrange(1, tail.len() as int)));
    if rest.len() == 0 {
        assert(placed.pages =~= state.pages + pages_of(sizes));
    } else {
        lemma_replay_build(placed, (next + 1) as usize, rest);
        assert(placed.pages + pages_of(rest) =~= state.pages + pages_of(sizes));
    }
}

/// Images that all exist, decode and can be placed give one document
/// with one page per image, in input order, page `i` of exactly the
/// pixel size of image `i`: the run finishes with these pages and none
/// else. An empty list gives a document without pages.
pub proof fn lemma_every_image_gets_its_page(sizes: Seq<(u32, u32)>)
    requires
        sizes.len() <= usize::MAX,
    ensures
        ({
            let end = SynthView::initial(sizes.len() as usize).replay(success_events(sizes));
            &&& end.document_written()
            &&& end.pages.len() == sizes.len()
            &&& forall|i: int|
                0 <= i < sizes.len() ==> (#[trigger] end.pages[i]).width == sizes[i].0
                    && end.pages[i].height == sizes[i].1
            &&& end.pages == pages_of(sizes)
        }),
{
    let inputs = sizes.len() as usize;
    let start = SynthView::initial(inputs);
    let found = found_events(sizes.len());
    let created = seq![SynthEvent::DocumentCreated];
    let built = build_events(sizes);
    let saved = seq![SynthEvent::DocumentSaved];
    lemma_replay_concat(start, found + created + built, saved);
    lemma_replay_concat(start, found + created, built);
    lemma_replay_concat(start, found, created);
    let checked = start.replay(found);
    if inputs > 0 {
        lemma_replay_found(start, 0, sizes.len());
    } else {
        assert(found =~= Seq::<SynthEvent>::empty());
    }
    assert(checked == start.at(SynthStage::Creating));
    let made = checked.replay(created);
    assert(created.subrange(1, 1) =~= Seq::<SynthEvent>::empty());
    assert(made == checked.step(SynthEvent::DocumentCreated).replay(created.subrange(1, 1)));
    assert(made == checked.step(SynthEvent::DocumentCreated));
    let ready = made.replay(built);
    if inputs > 0 {
        lemma_replay_build(made, 0, sizes);
        assert(made.pages + pages_of(sizes) =~= pages_of(sizes));
    } else {
        assert(built =~= Seq::<SynthEvent>::empty());
        assert(made.pages =~= pages_of(sizes));
    }
    assert(ready.stage == SynthStage::Saving);
    assert(ready.pages == pages_of(sizes));
    let end = ready.replay(saved);
    assert(saved.subrange(1, 1) =~= Seq::<SynthEvent>::empty());
    assert(end == ready.step(SynthEvent::DocumentSaved).replay(saved.subrange(1, 1)));
    assert(end == ready.step(SynthEvent::DocumentSaved));
}

/// A missing input ends the run before anything is made: where the
/// inputs before position `missing` exist and that one does not, the run
/// is aborted with that position, no page exists and no document is
/// written, whatever the position and whatever is reported afterwards.
pub proof fn lemma_missing_input_stops_everything(
    inputs: usize,
    missing: usize,
    after: Seq<SynthEvent>,
)
    requires
        missing < inputs,
    ensures
        ({
            let end = SynthView::initial(inputs).replay(
                found_events(missing as nat) + seq![SynthEvent::InputMissing] + after,
            );
            &&& end.stage == (SynthStage::Aborted {
                error: ConvertError::InputMissing { input_index: missing },
            })
            &&& end.pages.len() == 0
            &&& !end.document_written()
        }),
{
    let start = SynthView::initial(inputs);
    let found = found_events(missing as nat);
    let gone = seq![SynthEvent::InputMissing];
    lemma_replay_concat(start, found + gone, after);
    lemma_replay_concat(start, found, gone);
    lemma_replay_found(start, 0, missing as nat);
    let checked = start.replay(found);
    assert(checked.stage == (SynthStage::Checking { next: missing }));
    assert(gone.subrange(1, 1) =~= Seq::<SynthEvent>::empty());
    let stopped = checked.replay(gone);
    assert(stopped == checked.step(SynthEvent::InputMissing).replay(gone.subrange(1, 1)));
    assert(stopped == checked.step(SynthEvent::InputMissing));
    lemma_ended_run_stays(stopped, after);
}

/// Until every input is found nothing is asked of the engine: at every
/// point of a run whose input at position `missing` does not exist, the
/// run is still checking inputs or is already aborted, so no document
/// was created, no page exists and nothing is written. `seen` is the
/// number of reports taken in so far.
pub proof fn lemma_missing_input_never_builds(
    inputs: usize,
    missing: usize,
    after: Seq<SynthEvent>,
    seen: nat,
)
    requires
        missing < inputs,
        seen <= missing + 1 + after.len(),
    ensures
        ({
            let events = found_events(missing as nat) + seq![SynthEvent::InputMissing] + after;
            let now = SynthView::initial(inputs).replay(events.subrange(0, seen as int));
            &&& now.stage is Checking || now.stage is Aborted
            &&& now.pages.len() == 0
            &&& !now.document_written()
        }),
{
    let start = SynthView::initial(inputs);
    let events = found_events(missing as nat) + seq![SynthEvent::InputMissing] + after;
    let prefix = events.subrange(0, seen as int);
    if seen <= missing {
        assert(prefix =~= found_events(seen));
        lemma_replay_found(start, 0, seen);
    } else {
        let part = after.subrange(0, seen - missing - 1);
        assert(prefix =~= found_events(missing as nat) + seq![SynthEvent::InputMissing] + part);
        lemma_missing_input_stops_everything(inputs, missing, part);
    }
}

/// No document without all of its pages, and no page before every input
/// was found: in a state that stage and pages agree on, a written
/// document has one page per input, and a page exists only after the
/// checks are over.
pub proof fn lemma_all_or_nothing(state: SynthView)
    requires
        state.wf(),
    ensures
        state.document_written() ==> state.pages.len() == state.inputs,
        state.stage is Aborted ==> state.pages.len() == 0,
        state.stage is Checking ==> state.pages.len() == 0,
{
}

/// Whatever is reported to a run from its start, stage and pages stay in
/// agreement.
pub proof fn lemma_replay_keeps_wf(state: SynthView, events: Seq<SynthEvent>)
    requires
        state.wf(),
    ensures
        state.replay(events).wf(),
    decreases events.len(),
{
    if events.len() > 0 {
        lemma_step_keeps_wf(state, events[0]);
        lemma_replay_keeps_wf(state.step(events[0]), events.subrange(1, events.len() as int));
    }
}

} // verus!
