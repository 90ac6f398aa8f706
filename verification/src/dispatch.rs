//! Counting strategy dispatcher.
//!
//! Two strategies share one shape: translate staged paths into a positional
//! call of a capability entry point, then validate the `(count, path)` pair
//! that comes back. The failure sentinel is decoded here, immediately upon
//! return, so it never crosses into the rest of the system as if it were a
//! path.

use vstd::prelude::*;

use crate::error::{ErrorKind, ErrorModel, PipelineError};
use crate::is_sentinel;
use crate::output_is_sentinel;
use crate::stage::StagedImage;

verus! {

/// The two interchangeable counting strategies.
#[derive(Clone, Copy, Debug, PartialEq, Eq, Structural)]
pub enum Strategy {
    /// Compare two images of one scene and count connected regions of change.
    DiffConnect,
    /// Run a pre-trained cascade classifier over a single image.
    HaarCascade,
}

/// One counting request: a strategy, the staged input paths it needs, the
/// preserved extension, the directory the capability writes its output image
/// into, and — for the cascade strategy — the provisioned classifier asset.
#[derive(Debug)]
pub struct CountingRequest {
    pub strategy: Strategy,
    pub first_input: String,
    pub second_input: Option<String>,
    pub extension: String,
    pub output_dir: String,
    pub asset_path: Option<String>,
}

/// Spec-level value of a [`CountingRequest`].
pub struct CountingRequestModel {
    pub strategy: Strategy,
    pub first_input: Seq<char>,
    pub second_input: Option<Seq<char>>,
    pub extension: Seq<char>,
    pub output_dir: Seq<char>,
    pub asset_path: Option<Seq<char>>,
}

impl View for CountingRequest {
    type V = CountingRequestModel;

    open spec fn view(&self) -> CountingRequestModel {
        CountingRequestModel {
            strategy: self.strategy,
            first_input: self.first_input@,
            second_input: match self.second_input {
                Option::Some(s) => Option::Some(s@),
                Option::None => Option::None,
            },
            extension: self.extension@,
            output_dir: self.output_dir@,
            asset_path: match self.asset_path {
                Option::Some(s) => Option::Some(s@),
                Option::None => Option::None,
            },
        }
    }
}

impl CountingRequestModel {
    /// The arity invariant: comparing needs exactly two inputs and no asset,
    /// cascade detection needs exactly one input and a resolved asset.
    pub open spec fn wf(self) -> bool {
        match self.strategy {
            Strategy::DiffConnect => self.second_input is Some && self.asset_path is None,
            Strategy::HaarCascade => self.second_input is None && self.asset_path is Some,
        }
    }
}

impl CountingRequest {
    /// Builds a two-image comparison request from two staged images; the
    /// first image's extension is the request's nominal extension.
    pub fn new_diff_connect(first: &StagedImage, second: &StagedImage, output_dir: &str) -> (r:
        Self)
        ensures
            r@.wf(),
            r@.strategy == Strategy::DiffConnect,
            r@.first_input == first@.staged_path,
            r@.second_input == Option::Some(second@.staged_path),
            r@.extension == first@.extension,
            r@.output_dir == output_dir@,
    {
        CountingRequest {
            strategy: Strategy::DiffConnect,
            first_input: first.staged_path.clone(),
            second_input: Option::Some(second.staged_path.clone()),
            extension: first.extension.clone(),
            output_dir: output_dir.to_owned(),
            asset_path: Option::None,
        }
    }

    /// Builds a cascade detection request from one staged image and the
    /// provisioned classifier asset.
    pub fn new_haar_cascade(image: &StagedImage, output_dir: &str, asset_path: &str) -> (r: Self)
        ensures
            r@.wf(),
            r@.strategy == Strategy::HaarCascade,
            r@.first_input == image@.staged_path,
            r@.second_input is None,
            r@.extension == image@.extension,
            r@.output_dir == output_dir@,
            r@.asset_path == Option::Some(asset_path@),
    {
        CountingRequest {
            strategy: Strategy::HaarCascade,
            first_input: image.staged_path.clone(),
            second_input: Option::None,
            extension: image.extension.clone(),
            output_dir: output_dir.to_owned(),
            asset_path: Option::Some(asset_path.to_owned()),
        }
    }
}

/// One planned call of the capability: which module to load from source text,
/// which entry point to bind, and the four positional string arguments.
#[derive(Debug)]
pub struct BridgeCall {
    pub module_file: String,
    pub module_name: String,
    pub entry_point: String,
    pub first_arg: String,
    pub second_arg: String,
    pub third_arg: String,
    pub fourth_arg: String,
}

/// Spec-level value of a [`BridgeCall`].
pub struct BridgeCallModel {
    pub module_file: Seq<char>,
    pub module_name: Seq<char>,
    pub entry_point: Seq<char>,
    pub first_arg: Seq<char>,
    pub second_arg: Seq<char>,
    pub third_arg: Seq<char>,
    pub fourth_arg: Seq<char>,
}

impl View for BridgeCall {
    type V = BridgeCallModel;

    open spec fn view(&self) -> BridgeCallModel {
        BridgeCallModel {
            module_file: self.module_file@,
            module_name: self.module_name@,
            entry_point: self.entry_point@,
            first_arg: self.first_arg@,
            second_arg: self.second_arg@,
            third_arg: self.third_arg@,
            fourth_arg: self.fourth_arg@,
        }
    }
}

/// The call a well-formed request translates to, in positional order:
/// comparison passes both staged images, the extension, and the output
/// directory; cascade detection passes the staged image, the extension, the
/// output directory, and the classifier asset.
pub open spec fn spec_bridge_call_of(req: CountingRequestModel) -> BridgeCallModel
    recommends
        req.wf(),
{
    match req.strategy {
        Strategy::DiffConnect => BridgeCallModel {
            module_file: "diffcon.py"@,
            module_name: "diffcon"@,
            entry_point: "calculare_diff"@,
            first_arg: req.first_input,
            second_arg: req.second_input->Some_0,
            third_arg: req.extension,
            fourth_arg: req.output_dir,
        },
        Strategy::HaarCascade => BridgeCallModel {
            module_file: "haar.py"@,
            module_name: "haar"@,
            entry_point: "haar_cascade"@,
            first_arg: req.first_input,
            second_arg: req.extension,
            third_arg: req.output_dir,
            fourth_arg: req.asset_path->Some_0,
        },
    }
}

/// Translates a well-formed request into the capability call it demands.
pub fn plan_invocation(req: &CountingRequest) -> (r: BridgeCall)
    requires
        req@.wf(),
    ensures
        r@ == spec_bridge_call_of(req@),
{
    match req.strategy {
        Strategy::DiffConnect => {
            // Unreachable: a well-formed comparison request carries a
            // second input.
            let second = if let Option::Some(s) = &req.second_input {
                s.clone()
            } else {
                proof {
                    assert(false);
                }
                String::new()
            };
            BridgeCall {
                module_file: "diffcon.py".to_owned(),
                module_name: "diffcon".to_owned(),
                entry_point: "calculare_diff".to_owned(),
                first_arg: req.first_input.clone(),
                second_arg: second,
                third_arg: req.extension.clone(),
                fourth_arg: req.output_dir.clone(),
            }
        },
        Strategy::HaarCascade => {
            // Unreachable: a well-formed cascade request carries an asset.
            let asset = if let Option::Some(s) = &req.asset_path {
                s.clone()
            } else {
                proof {
                    assert(false);
                }
                String::new()
            };
            BridgeCall {
                module_file: "haar.py".to_owned(),
                module_name: "haar".to_owned(),
                entry_point: "haar_cascade".to_owned(),
                first_arg: req.first_input.clone(),
                second_arg: req.extension.clone(),
                third_arg: req.output_dir.clone(),
                fourth_arg: asset,
            }
        },
    }
}

/// A validated success of the capability: a non-negative vehicle count and
/// the real path of the output image it wrote. The failure sentinel never
/// reaches this type.
#[derive(Debug)]
pub struct CountingResult {
    pub vehicle_count: u64,
    pub output_path: String,
}

/// Spec-level value of a [`CountingResult`].
pub struct CountingResultModel {
    pub vehicle_count: u64,
    pub output_path: Seq<char>,
}

impl View for CountingResult {
    type V = CountingResultModel;

    open spec fn view(&self) -> CountingResultModel {
        CountingResultModel {
            vehicle_count: self.vehicle_count,
            output_path: self.output_path@,
        }
    }
}

impl Clone for CountingResult {
    fn clone(&self) -> (r: Self)
        ensures
            r@ == self@,
    {
        CountingResult {
            vehicle_count: self.vehicle_count,
            output_path: self.output_path.clone(),
        }
    }
}

/// The diagnostic the dispatcher attaches to a sentinel answer.
pub open spec fn spec_sentinel_message() -> Seq<char> {
    "There was a problem while saving the image"@
}

/// The diagnostic the dispatcher attaches to a malformed count.
pub open spec fn spec_negative_count_message() -> Seq<char> {
    "capability returned a negative count"@
}

/// How a raw `(count, path)` pair from the capability decodes: the sentinel
/// path is a processing failure, a negative count is a malformed answer, and
/// everything else is a success carrying exactly the returned values.
pub open spec fn spec_decode_invocation(count: i64, output_path: Seq<char>) -> Result<
    CountingResultModel,
    ErrorModel,
> {
    if is_sentinel(output_path) {
        Err(ErrorModel { kind: ErrorKind::Processing, message: spec_sentinel_message() })
    } else if count < 0 {
        Err(ErrorModel { kind: ErrorKind::Bridge, message: spec_negative_count_message() })
    } else {
        Ok(CountingResultModel { vehicle_count: count as u64, output_path })
    }
}

/// Validates the raw pair a capability invocation returned.
///
/// A returned path is the only success witness: the sentinel decodes to a
/// [`ErrorKind::Processing`] error, never to a result whose count would be
/// read as a success.
pub fn decode_invocation(count: i64, output_path: String) -> (r: Result<
    CountingResult,
    PipelineError,
>)
    ensures
        r is Ok <==> !is_sentinel(output_path@) && count >= 0,
        r matches Ok(res) ==> Ok::<CountingResultModel, ErrorModel>(res@) == spec_decode_invocation(
            count,
            output_path@,
        ),
        r matches Err(e) ==> Err::<CountingResultModel, ErrorModel>(e@) == spec_decode_invocation(
            count,
            output_path@,
        ),
{
    if output_is_sentinel(&output_path) {
        Err(PipelineError::of_kind(
            ErrorKind::Processing,
            "There was a problem while saving the image".to_owned(),
        ))
    } else if count < 0 {
        Err(PipelineError::of_kind(
            ErrorKind::Bridge,
            "capability returned a negative count".to_owned(),
        ))
    } else {
        Ok(CountingResult { vehicle_count: count as u64, output_path })
    }
}

/// The sentinel is never read as a success: whatever count came with it, its
/// decoding is a processing error, not a zero-count result.
pub proof fn lemma_sentinel_never_succeeds(count: i64, output_path: Seq<char>)
    requires
        is_sentinel(output_path),
    ensures
        spec_decode_invocation(count, output_path) matches Err(e) && e.kind
            == ErrorKind::Processing,
{
}

} // verus!
