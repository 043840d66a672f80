//! Where a picture goes: `<target folder>/<bucket>/<file name>`.

use crate::rules::text_view;
use vstd::prelude::*;

verus! {

/// A path with one more part adjoined, as `Path::join` of the standard
/// library gives it for the platform that the library is built for, where
/// the result is text.
pub uninterp spec fn joined_path(base: Seq<char>, part: Seq<char>) -> Option<Seq<char>>;

/// `Path::join` adjoins `part` to `base` and returns the new path. The result
/// is a function of the two paths alone; this contract gives it the name
/// [`joined_path`] and claims no more of it.
#[verifier::external_body]
fn join_path(base: &str, part: &str) -> (r: Option<String>)
    ensures
        text_view(r) == joined_path(base@, part@),
{
    match std::path::Path::new(base).join(part).to_str() {
        Some(text) => Some(text.to_owned()),
        None => None,
    }
}

/// The folder of a bucket and the file of a picture in it.
#[derive(Debug)]
pub struct CaptureLocation {
    /// The bucket's folder, to be made if it is not there.
    pub folder: String,
    /// The picture's file, in that folder.
    pub file: String,
}

/// A capture location as a mathematical value.
pub struct CaptureLocationView {
    pub folder: Seq<char>,
    pub file: Seq<char>,
}

impl View for CaptureLocation {
    type V = CaptureLocationView;

    open spec fn view(&self) -> CaptureLocationView {
        CaptureLocationView { folder: self.folder@, file: self.file@ }
    }
}

/// The view of a location that may be absent.
pub open spec fn location_view(location: Option<CaptureLocation>) -> Option<CaptureLocationView> {
    match location {
        Some(l) => Some(l@),
        None => None,
    }
}

/// The location of the file `file_name` in the bucket `bucket` under
/// `target_folder`: the folder is the target folder joined with the bucket,
/// the file is that folder joined with the file name.
pub open spec fn location_of(
    target_folder: Seq<char>,
    bucket: Seq<char>,
    file_name: Seq<char>,
) -> Option<CaptureLocationView> {
    match joined_path(target_folder, bucket) {
        None => None,
        Some(folder) => match joined_path(folder, file_name) {
            None => None,
            Some(file) => Some(CaptureLocationView { folder, file }),
        },
    }
}

/// Composes the location of a picture. It is `None` where a joined path is
/// not text.
pub fn capture_location(target_folder: &str, bucket: &str, file_name: &str) -> (r: Option<
    CaptureLocation,
>)
    ensures
        location_view(r) == location_of(target_folder@, bucket@, file_name@),
{
    let folder = match join_path(target_folder, bucket) {
        Some(folder) => folder,
        None => {
            return None;
        },
    };
    let file = match join_path(folder.as_str(), file_name) {
        Some(file) => file,
        None => {
            return None;
        },
    };
    Some(CaptureLocation { folder, file })
}

} // verus!
