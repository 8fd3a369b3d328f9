use pdf_images::binding::{next_source, BindingSource};
use pdf_images::error::ConvertError;

#[test]
fn bundled_runtime_is_tried_first() {
    assert_eq!(next_source(None), Ok(BindingSource::Bundled));
}

#[test]
fn system_runtime_is_tried_second() {
    assert_eq!(next_source(Some(BindingSource::Bundled)), Ok(BindingSource::System));
}

#[test]
fn no_third_attempt_is_made() {
    assert_eq!(next_source(Some(BindingSource::System)), Err(ConvertError::EngineBinding));
}
