use image::DynamicImage;
use pdf_images::error::ConvertError;
use pdf_images::sizing::PageGeometry;
use pdf_images::synth::{SynthAction, SynthEvent, SynthRun};

/// What a run asked for, and how it ended.
struct Log {
    checks: usize,
    creations: usize,
    decodes: usize,
    placements: Vec<(usize, PageGeometry, (u32, u32))>,
    saves: Vec<String>,
    end: Result<usize, ConvertError>,
}

/// Runs to the end. `exists[i]` says whether input i exists, `sizes[i]`
/// gives its pixel size where it decodes.
fn drive(
    run: &mut SynthRun,
    exists: &[bool],
    sizes: &[Option<(u32, u32)>],
    placement_fails_at: Option<usize>,
    save_ok: bool,
) -> Log {
    let mut log = Log {
        checks: 0,
        creations: 0,
        decodes: 0,
        placements: Vec::new(),
        saves: Vec::new(),
        end: Ok(0),
    };
    loop {
        match run.next_action() {
            SynthAction::CheckInput { input_index } => {
                assert_eq!(input_index, log.checks);
                log.checks += 1;
                run.record(if exists[input_index] {
                    SynthEvent::InputFound
                } else {
                    SynthEvent::InputMissing
                });
            }
            SynthAction::CreateDocument => {
                log.creations += 1;
                run.record(SynthEvent::DocumentCreated);
            }
            SynthAction::DecodeImage { input_index } => {
                assert_eq!(input_index, log.decodes);
                log.decodes += 1;
                run.record(match sizes[input_index] {
                    Some((width, height)) => SynthEvent::ImageDecoded { width, height },
                    None => SynthEvent::ImageDecodeFailed,
                });
            }
            SynthAction::PlaceImage { input_index, geometry, scale } => {
                if placement_fails_at == Some(input_index) {
                    run.record(SynthEvent::PagePlacementFailed);
                } else {
                    log.placements.push((input_index, geometry, scale));
                    run.record(SynthEvent::PagePlaced);
                }
            }
            SynthAction::SaveDocument { file_name } => {
                log.saves.push(file_name);
                run.record(if save_ok {
                    SynthEvent::DocumentSaved
                } else {
                    SynthEvent::DocumentSaveFailed
                });
            }
            SynthAction::Finish { pages } => {
                log.end = Ok(pages);
                return log;
            }
            SynthAction::Abort { error } => {
                log.end = Err(error);
                return log;
            }
        }
    }
}

#[test]
fn two_images_give_two_pages_of_their_sizes() {
    let mut run = SynthRun::start(2);
    let log = drive(&mut run, &[true, true], &[Some((300, 200)), Some((400, 400))], None, true);
    assert_eq!(log.end, Ok(2));
    assert_eq!(log.checks, 2);
    assert_eq!(log.creations, 1);
    assert_eq!(
        log.placements,
        vec![
            (0, PageGeometry { width: 300, height: 200 }, (300, 200)),
            (1, PageGeometry { width: 400, height: 400 }, (400, 400)),
        ]
    );
    assert_eq!(log.saves, vec!["output.pdf"]);
    assert_eq!(
        run.pages(),
        &vec![PageGeometry { width: 300, height: 200 }, PageGeometry { width: 400, height: 400 }]
    );
    assert_eq!(run.inputs(), 2);
}

#[test]
fn every_input_is_checked_before_any_work() {
    let mut run = SynthRun::start(3);
    for expected in 0..3usize {
        assert!(matches!(run.next_action(), SynthAction::CheckInput { input_index } if input_index == expected));
        run.record(SynthEvent::InputFound);
    }
    assert!(matches!(run.next_action(), SynthAction::CreateDocument));
}

#[test]
fn missing_input_aborts_before_any_page() {
    for missing in 0..4usize {
        let mut exists = [true; 4];
        exists[missing] = false;
        let mut run = SynthRun::start(4);
        let log = drive(&mut run, &exists, &[Some((10, 10)); 4], None, true);
        assert_eq!(log.end, Err(ConvertError::InputMissing { input_index: missing }));
        assert_eq!(log.checks, missing + 1);
        assert_eq!(log.creations, 0);
        assert_eq!(log.decodes, 0);
        assert!(log.placements.is_empty());
        assert!(log.saves.is_empty());
        assert!(run.pages().is_empty());
    }
}

#[test]
fn undecodable_image_aborts_without_a_document() {
    let mut run = SynthRun::start(3);
    let sizes = [Some((5, 6)), None, Some((7, 8))];
    let log = drive(&mut run, &[true; 3], &sizes, None, true);
    assert_eq!(log.end, Err(ConvertError::ImageDecode { input_index: 1 }));
    assert_eq!(log.decodes, 2);
    assert_eq!(log.placements.len(), 1);
    assert!(log.saves.is_empty());
    assert!(run.pages().is_empty());
}

#[test]
fn failed_placement_aborts_without_a_document() {
    let mut run = SynthRun::start(2);
    let log = drive(&mut run, &[true; 2], &[Some((5, 6)), Some((7, 8))], Some(1), true);
    assert_eq!(log.end, Err(ConvertError::PagePlacement { input_index: 1 }));
    assert!(log.saves.is_empty());
    assert!(run.pages().is_empty());
}

#[test]
fn failed_save_aborts_and_drops_the_pages() {
    let mut run = SynthRun::start(1);
    let log = drive(&mut run, &[true], &[Some((5, 6))], None, false);
    assert_eq!(log.end, Err(ConvertError::DocumentSave));
    assert_eq!(log.saves, vec!["output.pdf"]);
    assert!(run.pages().is_empty());
}

#[test]
fn failed_creation_aborts() {
    let mut run = SynthRun::start(1);
    run.record(SynthEvent::InputFound);
    assert!(matches!(run.next_action(), SynthAction::CreateDocument));
    run.record(SynthEvent::DocumentCreateFailed);
    assert!(matches!(
        run.next_action(),
        SynthAction::Abort { error: ConvertError::DocumentCreate }
    ));
}

#[test]
fn empty_list_gives_an_empty_document() {
    let mut run = SynthRun::start(0);
    let log = drive(&mut run, &[], &[], None, true);
    assert_eq!(log.end, Ok(0));
    assert_eq!(log.checks, 0);
    assert_eq!(log.creations, 1);
    assert_eq!(log.saves, vec!["output.pdf"]);
}

#[test]
fn events_out_of_turn_change_nothing() {
    let mut run = SynthRun::start(1);
    run.record(SynthEvent::DocumentSaved);
    run.record(SynthEvent::PagePlaced);
    run.record(SynthEvent::ImageDecoded { width: 1, height: 1 });
    assert!(matches!(run.next_action(), SynthAction::CheckInput { input_index: 0 }));
    run.record(SynthEvent::InputMissing);
    run.record(SynthEvent::InputFound);
    run.record(SynthEvent::DocumentCreated);
    assert!(matches!(
        run.next_action(),
        SynthAction::Abort { error: ConvertError::InputMissing { input_index: 0 } }
    ));
}

#[test]
fn page_geometry_is_the_pixel_size_exactly() {
    let mut run = SynthRun::start(1);
    let log = drive(&mut run, &[true], &[Some((1000, 800))], None, true);
    assert_eq!(log.end, Ok(1));
    assert_eq!(run.pages()[0], PageGeometry { width: 1000, height: 800 });
    assert_eq!(log.placements[0].2, (1000, 800));
}

#[test]
fn decoded_picture_reports_its_pixel_size() {
    let picture = DynamicImage::new_rgb8(300, 200);
    assert_eq!(SynthEvent::decoded(&picture), SynthEvent::ImageDecoded { width: 300, height: 200 });
    let square = DynamicImage::new_rgba8(400, 400);
    assert_eq!(SynthEvent::decoded(&square), SynthEvent::ImageDecoded { width: 400, height: 400 });
    let empty = DynamicImage::new_luma8(0, 7);
    assert_eq!(SynthEvent::decoded(&empty), SynthEvent::ImageDecoded { width: 0, height: 7 });
}

#[test]
fn two_decoded_pictures_become_two_covered_pages() {
    let pictures = [DynamicImage::new_rgb8(300, 200), DynamicImage::new_rgb8(400, 400)];
    let mut run = SynthRun::start(pictures.len());
    run.record(SynthEvent::InputFound);
    run.record(SynthEvent::InputFound);
    run.record(SynthEvent::DocumentCreated);
    for (index, picture) in pictures.iter().enumerate() {
        assert!(matches!(run.next_action(), SynthAction::DecodeImage { input_index } if input_index == index));
        run.record(SynthEvent::decoded(picture));
        match run.next_action() {
            SynthAction::PlaceImage { input_index, geometry, scale } => {
                assert_eq!(input_index, index);
                assert_eq!((geometry.width, geometry.height), (picture.width(), picture.height()));
                assert_eq!(scale, (geometry.width, geometry.height));
            }
            other => panic!("unexpected action {:?}", other),
        }
        run.record(SynthEvent::PagePlaced);
    }
    assert!(matches!(run.next_action(), SynthAction::SaveDocument { .. }));
    run.record(SynthEvent::DocumentSaved);
    assert!(matches!(run.next_action(), SynthAction::Finish { pages: 2 }));
    assert_eq!(
        run.pages(),
        &vec![PageGeometry { width: 300, height: 200 }, PageGeometry { width: 400, height: 400 }]
    );
}
