use pdf_images::error::ConvertError;
use pdf_images::raster::{PageOutcome, RasterAction, RasterRun};
use pdf_images::sizing::RenderLimits;

fn drive(run: &mut RasterRun, outcomes: &[PageOutcome]) -> (Vec<String>, Result<usize, ConvertError>) {
    let mut files: Vec<String> = Vec::new();
    let mut given = 0usize;
    loop {
        match run.next_action() {
            RasterAction::RenderPage { page_index, limits, file_name } => {
                assert_eq!(page_index, files.len());
                assert_eq!(limits, RenderLimits::standard());
                let outcome = outcomes[given];
                given += 1;
                if outcome == PageOutcome::Written {
                    files.push(file_name);
                }
                run.record(outcome);
            }
            RasterAction::Finish { pages } => return (files, Ok(pages)),
            RasterAction::Abort { error } => return (files, Err(error)),
        }
    }
}

#[test]
fn three_page_document_gives_three_files() {
    let mut run = RasterRun::start(Some(3), RenderLimits::standard());
    let (files, end) = drive(&mut run, &[PageOutcome::Written; 3]);
    assert_eq!(files, vec!["page_0001.png", "page_0002.png", "page_0003.png"]);
    assert_eq!(end, Ok(3));
    assert_eq!(run.pages_written(), 3);
}

#[test]
fn empty_document_finishes_with_no_file() {
    let mut run = RasterRun::start(Some(0), RenderLimits::standard());
    let (files, end) = drive(&mut run, &[]);
    assert!(files.is_empty());
    assert_eq!(end, Ok(0));
}

#[test]
fn unopened_document_aborts_at_once() {
    let mut run = RasterRun::start(None, RenderLimits::standard());
    let (files, end) = drive(&mut run, &[]);
    assert!(files.is_empty());
    assert_eq!(end, Err(ConvertError::DocumentOpen));
}

#[test]
fn render_failure_stops_at_its_page() {
    let mut run = RasterRun::start(Some(5), RenderLimits::standard());
    let outcomes = [PageOutcome::Written, PageOutcome::Written, PageOutcome::RenderFailed];
    let (files, end) = drive(&mut run, &outcomes);
    assert_eq!(files, vec!["page_0001.png", "page_0002.png"]);
    assert_eq!(end, Err(ConvertError::PageRender { page_index: 2 }));
    assert_eq!(run.pages_written(), 2);
}

#[test]
fn encode_failure_stops_at_its_page() {
    let mut run = RasterRun::start(Some(2), RenderLimits::standard());
    let (files, end) = drive(&mut run, &[PageOutcome::EncodeFailed]);
    assert!(files.is_empty());
    assert_eq!(end, Err(ConvertError::ImageEncode { page_index: 0 }));
}

#[test]
fn outcomes_after_the_end_change_nothing() {
    let mut run = RasterRun::start(Some(1), RenderLimits::standard());
    run.record(PageOutcome::Written);
    run.record(PageOutcome::Written);
    run.record(PageOutcome::RenderFailed);
    assert_eq!(run.pages_written(), 1);
    assert!(matches!(run.next_action(), RasterAction::Finish { pages: 1 }));

    let mut failed = RasterRun::start(Some(3), RenderLimits::standard());
    failed.record(PageOutcome::RenderFailed);
    failed.record(PageOutcome::Written);
    assert_eq!(failed.pages_written(), 0);
    assert!(matches!(
        failed.next_action(),
        RasterAction::Abort { error: ConvertError::PageRender { page_index: 0 } }
    ));
}

#[test]
fn two_runs_on_one_document_ask_for_the_same_files() {
    let mut first = RasterRun::start(Some(4), RenderLimits::standard());
    let mut second = RasterRun::start(Some(4), RenderLimits::standard());
    let (a, _) = drive(&mut first, &[PageOutcome::Written; 4]);
    let (b, _) = drive(&mut second, &[PageOutcome::Written; 4]);
    assert_eq!(a, b);
}

#[test]
fn chosen_limits_reach_every_page() {
    let limits = RenderLimits::new(40, 60);
    let mut run = RasterRun::start(Some(2), limits);
    for expected in 0..2usize {
        match run.next_action() {
            RasterAction::RenderPage { page_index, limits: given, .. } => {
                assert_eq!(page_index, expected);
                assert_eq!(given, limits);
            }
            other => panic!("unexpected action {:?}", other),
        }
        run.record(PageOutcome::Written);
    }
}
