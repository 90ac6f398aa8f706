//! Working-directory stager.
//!
//! A confirmed source image is copied into the data directory under a
//! deterministic per-slot name, so a later run of the same slot silently
//! replaces the previous staged copy. The copy itself is input/output done by
//! the caller; this module decides whether a selection may be staged and
//! where its staged copy must live, and proves that re-staging a slot
//! overwrites rather than accumulates.

use vstd::prelude::*;

use crate::error::{ErrorKind, ErrorModel, PipelineError};
use crate::paths::{
    extension_of, join_path, spec_extension_of, spec_join_path, spec_staged_name,
    staged_file_name, Slot,
};

verus! {

/// An input image admitted into the pipeline: its original location, the
/// deterministic destination of its staged copy, and its preserved extension.
#[derive(Debug)]
pub struct StagedImage {
    pub original_path: String,
    pub staged_path: String,
    pub extension: String,
}

/// Spec-level value of a [`StagedImage`].
pub struct StagedImageModel {
    pub original_path: Seq<char>,
    pub staged_path: Seq<char>,
    pub extension: Seq<char>,
}

impl View for StagedImage {
    type V = StagedImageModel;

    open spec fn view(&self) -> StagedImageModel {
        StagedImageModel {
            original_path: self.original_path@,
            staged_path: self.staged_path@,
            extension: self.extension@,
        }
    }
}

impl Clone for StagedImage {
    fn clone(&self) -> (r: Self)
        ensures
            r@ == self@,
    {
        StagedImage {
            original_path: self.original_path.clone(),
            staged_path: self.staged_path.clone(),
            extension: self.extension.clone(),
        }
    }
}

/// A selection is admitted exactly when it names an existing, non-directory
/// file whose name carries an extension to preserve.
pub open spec fn spec_selection_admitted(
    path: Seq<char>,
    exists_on_disk: bool,
    is_directory: bool,
) -> bool {
    exists_on_disk && !is_directory && spec_extension_of(path) is Some
}

/// The deterministic destination of the staged copy for a slot.
pub open spec fn spec_staged_destination(
    data_dir: Seq<char>,
    slot: Slot,
    extension: Seq<char>,
) -> Seq<char> {
    spec_join_path(data_dir, spec_staged_name(slot, extension))
}

/// The staged image a request for `source` in `slot` produces.
pub open spec fn spec_staged_image(
    source: Seq<char>,
    slot: Slot,
    data_dir: Seq<char>,
) -> StagedImageModel
    recommends
        spec_extension_of(source) is Some,
{
    let extension = spec_extension_of(source)->Some_0;
    StagedImageModel {
        original_path: source,
        staged_path: spec_staged_destination(data_dir, slot, extension),
        extension,
    }
}

/// The validation error a rejected selection produces, by cause.
pub open spec fn spec_stage_rejection(
    path: Seq<char>,
    exists_on_disk: bool,
    is_directory: bool,
) -> ErrorModel
    recommends
        !spec_selection_admitted(path, exists_on_disk, is_directory),
{
    ErrorModel {
        kind: ErrorKind::Validation,
        message: if !exists_on_disk {
            "selected path does not exist"@
        } else if is_directory {
            "selected path is a directory"@
        } else {
            "selected path has no extension"@
        },
    }
}

/// Validates a selection and fixes the staged copy's destination.
///
/// Succeeds exactly on existing, non-directory selections with an extension;
/// every rejection is a [`ErrorKind::Validation`] error, raised before any
/// copy is attempted.
pub fn stage_request(
    source: &str,
    slot: Slot,
    data_dir: &str,
    exists_on_disk: bool,
    is_directory: bool,
) -> (r: Result<StagedImage, PipelineError>)
    ensures
        r is Ok <==> spec_selection_admitted(source@, exists_on_disk, is_directory),
        r matches Ok(staged) ==> staged@ == spec_staged_image(source@, slot, data_dir@),
        r matches Err(e) ==> e@ == spec_stage_rejection(source@, exists_on_disk, is_directory),
{
    if !exists_on_disk {
        return Err(PipelineError::of_kind(
            ErrorKind::Validation,
            "selected path does not exist".to_owned(),
        ));
    }
    if is_directory {
        return Err(PipelineError::of_kind(
            ErrorKind::Validation,
            "selected path is a directory".to_owned(),
        ));
    }
    match extension_of(source) {
        Option::None => Err(PipelineError::of_kind(
            ErrorKind::Validation,
            "selected path has no extension".to_owned(),
        )),
        Option::Some(extension) => {
            let name = staged_file_name(slot, extension.as_str());
            let destination = join_path(data_dir, name.as_str());
            Ok(StagedImage {
                original_path: source.to_owned(),
                staged_path: destination,
                extension,
            })
        },
    }
}

/// The directory contents after a staged copy lands: the destination holds
/// the source's bytes, every other file is untouched.
pub open spec fn spec_stage_apply(
    files: Map<Seq<char>, Seq<u8>>,
    destination: Seq<char>,
    content: Seq<u8>,
) -> Map<Seq<char>, Seq<u8>> {
    files.insert(destination, content)
}

/// Staging a slot and then re-staging it leaves exactly one file at the
/// slot's deterministic destination — the later content — and adds no other
/// name to the directory: overwrite, not accumulation.
pub proof fn lemma_restage_overwrites(
    files: Map<Seq<char>, Seq<u8>>,
    destination: Seq<char>,
    first_content: Seq<u8>,
    second_content: Seq<u8>,
)
    ensures
        spec_stage_apply(spec_stage_apply(files, destination, first_content), destination, second_content)
            == spec_stage_apply(files, destination, second_content),
        spec_stage_apply(spec_stage_apply(files, destination, first_content), destination, second_content).dom()
            == files.dom().insert(destination),
        spec_stage_apply(spec_stage_apply(files, destination, first_content), destination, second_content)[destination]
            == second_content,
{
    let once = spec_stage_apply(files, destination, second_content);
    let twice = spec_stage_apply(
        spec_stage_apply(files, destination, first_content),
        destination,
        second_content,
    );
    assert(twice =~= once);
    assert(twice.dom() =~= files.dom().insert(destination));
}

} // verus!
