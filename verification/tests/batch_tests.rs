use image_converter::batch::{
    batch_event_list, complete_event, error_event, processing_event, progress_pct, success_event,
    Status,
};
use image_converter::error::ConvertError;

#[test]
fn progress_is_rounded_percentage() {
    assert_eq!(progress_pct(0, 3), 33);
    assert_eq!(progress_pct(1, 3), 67);
    assert_eq!(progress_pct(2, 3), 100);
    assert_eq!(progress_pct(0, 1), 100);
    assert_eq!(progress_pct(0, 4), 25);
    assert_eq!(progress_pct(199, 200), 100);
}

#[test]
fn event_constructors_fill_fields() {
    let p = processing_event(0, 2, "a.png");
    assert_eq!(p.status, Status::Processing);
    assert_eq!(p.message, "Converting a.png...");
    assert_eq!(p.progress, 50);

    let s = success_event(1, 2, "a.png", "/out/a.jpg");
    assert_eq!(s.status, Status::Success);
    assert_eq!(s.message, "a.png -> /out/a.jpg");
    assert_eq!(s.progress, 100);

    let e = error_event(0, 2, "a.png", &ConvertError::Decode("bad".to_string()));
    assert_eq!(e.status, Status::Error);
    assert_eq!(e.message, "a.png - Failed to decode image: bad");
    assert_eq!(e.progress, 50);

    let c = complete_event();
    assert_eq!(c.status, Status::Complete);
    assert_eq!(c.message, "All conversions finished.");
    assert_eq!(c.progress, 100);
}

#[test]
fn three_file_batch_with_one_corrupt_emits_seven_events() {
    // Batch of three where file two is corrupt: processing(33), success,
    // processing(67), error, processing(100), success, complete(100) —
    // seven events, in that exact order.
    let names = vec!["a.png".to_string(), "b.png".to_string(), "c.png".to_string()];
    let outcomes = vec![
        Ok("/out/a.jpg".to_string()),
        Err(ConvertError::Decode("truncated".to_string())),
        Ok("/out/c.jpg".to_string()),
    ];
    let evs = batch_event_list(&names, &outcomes);
    assert_eq!(evs.len(), 7);

    assert_eq!(evs[0].status, Status::Processing);
    assert_eq!(evs[0].progress, 33);
    assert_eq!(evs[0].message, "Converting a.png...");

    assert_eq!(evs[1].status, Status::Success);
    assert_eq!(evs[1].progress, 33);
    assert_eq!(evs[1].message, "a.png -> /out/a.jpg");

    assert_eq!(evs[2].status, Status::Processing);
    assert_eq!(evs[2].progress, 67);
    assert_eq!(evs[2].message, "Converting b.png...");

    assert_eq!(evs[3].status, Status::Error);
    assert_eq!(evs[3].progress, 67);
    assert_eq!(evs[3].message, "b.png - Failed to decode image: truncated");

    assert_eq!(evs[4].status, Status::Processing);
    assert_eq!(evs[4].progress, 100);
    assert_eq!(evs[4].message, "Converting c.png...");

    assert_eq!(evs[5].status, Status::Success);
    assert_eq!(evs[5].progress, 100);
    assert_eq!(evs[5].message, "c.png -> /out/c.jpg");

    assert_eq!(evs[6].status, Status::Complete);
    assert_eq!(evs[6].progress, 100);
    assert_eq!(evs[6].message, "All conversions finished.");
}

#[test]
fn all_failed_batch_still_completes() {
    let names = vec!["a.png".to_string()];
    let outcomes = vec![Err(ConvertError::UnsupportedFormat)];
    let evs = batch_event_list(&names, &outcomes);
    assert_eq!(evs.len(), 3);
    assert_eq!(evs[0].status, Status::Processing);
    assert_eq!(evs[1].status, Status::Error);
    assert_eq!(evs[2].status, Status::Complete);
    assert_eq!(evs[2].progress, 100);
}
