use vstd::prelude::*;

verus! {

/// Every way a run can fail. Each failure ends the whole run.
#[derive(Clone, Copy, Debug, PartialEq, Eq, Structural)]
pub enum ConvertError {
    /// The document engine could not be found at startup.
    EngineBinding,
    /// No path was given on the command line.
    Usage,
    /// The source document is missing, corrupt or encrypted.
    DocumentOpen,
    /// The page at this zero-based index could not be rendered.
    PageRender { page_index: usize },
    /// The image for the page at this zero-based index could not be written.
    ImageEncode { page_index: usize },
    /// The input at this position of the image list does not exist.
    InputMissing { input_index: usize },
    /// A new, empty document could not be created.
    DocumentCreate,
    /// The input at this position exists but could not be decoded.
    ImageDecode { input_index: usize },
    /// The image at this position could not be placed on its page.
    PagePlacement { input_index: usize },
    /// The assembled document could not be written.
    DocumentSave,
}

impl ConvertError {
    /// The position of the page or input that the failure concerns, where
    /// it concerns one.
    pub open spec fn item_spec(self) -> Option<usize> {
        match self {
            ConvertError::PageRender { page_index } => Some(page_index),
            ConvertError::ImageEncode { page_index } => Some(page_index),
            ConvertError::InputMissing { input_index } => Some(input_index),
            ConvertError::ImageDecode { input_index } => Some(input_index),
            ConvertError::PagePlacement { input_index } => Some(input_index),
            _ => None,
        }
    }

    /// The position of the page or input to name in a diagnostic.
    pub fn item(&self) -> (r: Option<usize>)
        ensures
            r == self.item_spec(),
    {
        match *self {
            ConvertError::PageRender { page_index } => Some(page_index),
            ConvertError::ImageEncode { page_index } => Some(page_index),
            ConvertError::InputMissing { input_index } => Some(input_index),
            ConvertError::ImageDecode { input_index } => Some(input_index),
            ConvertError::PagePlacement { input_index } => Some(input_index),
            _ => None,
        }
    }
}

} // verus!
