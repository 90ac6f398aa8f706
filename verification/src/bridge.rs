//! Vision capability bridge.
//!
//! The counting algorithms live as modules of an embedded general-purpose
//! scripting runtime. The bridge loads a module from source text into a fresh
//! execution context, binds a named entry point, calls it with positional
//! string arguments under the runtime's process-wide lock, and extracts a
//! `(count, path)` pair. Everything runtime-specific sits behind one trusted
//! call; the decoding of what came back is verified.

use vstd::prelude::*;

use crate::dispatch::{
    decode_invocation, plan_invocation, spec_sentinel_message, BridgeCall, CountingRequest,
    CountingResult, Strategy,
};
use crate::error::{ErrorKind, PipelineError};
use crate::is_sentinel;
use crate::pipeline::Event;

verus! {

/// Relies on pyo3's `Python::with_gil`, `PyModule::from_code`,
/// `PyAny::getattr`, `PyAny::call1` and `PyAny::extract`: acquires the
/// runtime's global lock, loads the module source into a fresh module scoped
/// to this call, binds the entry point, calls it with the four positional
/// string arguments, and extracts an `(integer, string)` pair. Every runtime
/// diagnostic — load failure, missing entry point, or a result of another
/// shape — comes back as text; nothing is promised of the pair itself.
#[verifier::external_body]
fn invoke_entry_point(module_source: &str, call: &BridgeCall) -> Result<(i64, String), String> {
    pyo3::Python::with_gil(|py| {
        let module = pyo3::types::PyModule::from_code(
            py, module_source, call.module_file.as_str(), call.module_name.as_str(),
        ).map_err(|e| e.to_string())?;
        let entry = module.getattr(call.entry_point.as_str()).map_err(|e| e.to_string())?;
        let args = (call.first_arg.as_str(), call.second_arg.as_str(),
                    call.third_arg.as_str(), call.fourth_arg.as_str());
        let value = entry.call1(args).map_err(|e| e.to_string())?;
        value.extract::<(i64, String)>().map_err(|e| e.to_string())
    })
}

/// Performs one planned capability call and reports its outcome as the event
/// the pipeline machine expects: the raw `(count, path)` pair when the
/// capability answered, or the runtime's diagnostic when it could not be run.
pub fn capability_event(module_source: &str, call: &BridgeCall) -> (r: Event)
    ensures
        r is Invoked || r is InvokeFailed,
{
    match invoke_entry_point(module_source, call) {
        Result::Ok((count, output_path)) => Event::Invoked { count, output_path },
        Result::Err(message) => Event::InvokeFailed { message },
    }
}

/// Performs one planned capability call and validates its answer.
///
/// Whatever the capability did, the outcome is classified: a runtime
/// diagnostic is a [`ErrorKind::Bridge`] error, a sentinel answer is a
/// [`ErrorKind::Processing`] error, a negative count is a
/// [`ErrorKind::Bridge`] error, and only a real output path is a success.
pub fn run_call(module_source: &str, call: &BridgeCall) -> (r: Result<
    CountingResult,
    PipelineError,
>)
    ensures
        r matches Ok(res) ==> !is_sentinel(res@.output_path),
        r matches Err(e) ==> e.kind == ErrorKind::Bridge || e.kind == ErrorKind::Processing,
        r matches Err(e) ==> (e.kind == ErrorKind::Processing ==> e@.message
            == spec_sentinel_message()),
{
    match invoke_entry_point(module_source, call) {
        Result::Err(message) => Err(PipelineError::of_kind(ErrorKind::Bridge, message)),
        Result::Ok((count, output_path)) => decode_invocation(count, output_path),
    }
}

/// Plans the comparison call for two staged images given by path: the
/// "diffcon" module loaded from "diffcon.py", its entry point
/// "calculare_diff", and the four positional arguments in exactly this order.
pub fn plan_diff_call(
    first_image: &str,
    second_image: &str,
    extension: &str,
    save_in: &str,
) -> (r: BridgeCall)
    ensures
        r@.module_file == "diffcon.py"@,
        r@.module_name == "diffcon"@,
        r@.entry_point == "calculare_diff"@,
        r@.first_arg == first_image@,
        r@.second_arg == second_image@,
        r@.third_arg == extension@,
        r@.fourth_arg == save_in@,
{
    let request = CountingRequest {
        strategy: Strategy::DiffConnect,
        first_input: first_image.to_owned(),
        second_input: Option::Some(second_image.to_owned()),
        extension: extension.to_owned(),
        output_dir: save_in.to_owned(),
        asset_path: Option::None,
    };
    plan_invocation(&request)
}

/// Plans the cascade call for one staged image given by path: the "haar"
/// module loaded from "haar.py", its entry point "haar_cascade", and the four
/// positional arguments — image, extension, output directory, provisioned
/// classifier asset — in exactly this order.
pub fn plan_haar_call(image: &str, extension: &str, save_in: &str, asset_path: &str) -> (r:
    BridgeCall)
    ensures
        r@.module_file == "haar.py"@,
        r@.module_name == "haar"@,
        r@.entry_point == "haar_cascade"@,
        r@.first_arg == image@,
        r@.second_arg == extension@,
        r@.third_arg == save_in@,
        r@.fourth_arg == asset_path@,
{
    let request = CountingRequest {
        strategy: Strategy::HaarCascade,
        first_input: image.to_owned(),
        second_input: Option::None,
        extension: extension.to_owned(),
        output_dir: save_in.to_owned(),
        asset_path: Option::Some(asset_path.to_owned()),
    };
    plan_invocation(&request)
}

/// Counts vehicles by comparing two staged images of one scene.
///
/// The call it performs is exactly the one [`plan_diff_call`] plans from its
/// arguments; the answer is validated as [`run_call`] does.
pub fn diff_n_conn(
    module_source: &str,
    first_image: &str,
    second_image: &str,
    extension: &str,
    save_in: &str,
) -> (r: Result<CountingResult, PipelineError>)
    ensures
        r matches Ok(res) ==> !is_sentinel(res@.output_path),
        r matches Err(e) ==> e.kind == ErrorKind::Bridge || e.kind == ErrorKind::Processing,
        r matches Err(e) ==> (e.kind == ErrorKind::Processing ==> e@.message
            == spec_sentinel_message()),
{
    let call = plan_diff_call(first_image, second_image, extension, save_in);
    run_call(module_source, &call)
}

/// Counts vehicles by running the cascade classifier over one staged image.
///
/// The call it performs is exactly the one [`plan_haar_call`] plans from its
/// arguments; the answer is validated as [`run_call`] does.
pub fn haar_cascade(
    module_source: &str,
    image: &str,
    extension: &str,
    save_in: &str,
    asset_path: &str,
) -> (r: Result<CountingResult, PipelineError>)
    ensures
        r matches Ok(res) ==> !is_sentinel(res@.output_path),
        r matches Err(e) ==> e.kind == ErrorKind::Bridge || e.kind == ErrorKind::Processing,
        r matches Err(e) ==> (e.kind == ErrorKind::Processing ==> e@.message
            == spec_sentinel_message()),
{
    let call = plan_haar_call(image, extension, save_in, asset_path);
    run_call(module_source, &call)
}

} // verus!
