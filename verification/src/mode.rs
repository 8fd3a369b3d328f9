use vstd::prelude::*;
use vstd::string::StrSliceExecFns;
use crate::error::ConvertError;

verus! {

/// The direction of a run.
#[derive(Clone, Copy, Debug, PartialEq, Eq, Structural)]
pub enum Mode {
    /// Document to images: one image file per page.
    Rasterize,
    /// Images to document: one page per image.
    Synthesize,
}

/// Whether a path ends in the document extension, in any letter case.
pub open spec fn is_document_path_spec(path: Seq<char>) -> bool {
    let n = path.len() as int;
    &&& n >= 4
    &&& path[n - 4] == '.'
    &&& (path[n - 3] == 'p' || path[n - 3] == 'P')
    &&& (path[n - 2] == 'd' || path[n - 2] == 'D')
    &&& (path[n - 1] == 'f' || path[n - 1] == 'F')
}

/// The direction that a list of input paths selects: none for an empty
/// list, rasterization where the first path names a document, synthesis
/// otherwise.
pub open spec fn select_mode_spec(paths: Seq<Seq<char>>) -> Result<Mode, ConvertError> {
    if paths.len() == 0 {
        Err(ConvertError::Usage)
    } else if is_document_path_spec(paths[0]) {
        Ok(Mode::Rasterize)
    } else {
        Ok(Mode::Synthesize)
    }
}

/// Tests whether `path` ends in `.pdf`, ignoring letter case.
pub fn is_document_path(path: &str) -> (r: bool)
    ensures
        r == is_document_path_spec(path@),
{
    let n: usize = path.unicode_len();
    if n < 4 {
        return false;
    }
    let dot = path.get_char(n - 4);
    let p = path.get_char(n - 3);
    let d = path.get_char(n - 2);
    let f = path.get_char(n - 1);
    dot == '.' && (p == 'p' || p == 'P') && (d == 'd' || d == 'D') && (f == 'f' || f == 'F')
}

/// Chooses the direction of a run from the input paths, the program name
/// left out. Only the first path is looked at.
pub fn select_mode(paths: &Vec<String>) -> (r: Result<Mode, ConvertError>)
    ensures
        r == select_mode_spec(Seq::new(paths@.len(), |i: int| paths@[i]@)),
{
    if paths.len() == 0 {
        Err(ConvertError::Usage)
    } else if is_document_path(paths[0].as_str()) {
        Ok(Mode::Rasterize)
    } else {
        Ok(Mode::Synthesize)
    }
}

} // verus!
