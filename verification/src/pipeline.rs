//! The per-request pipeline state machine.
//!
//! One request walks `Idle -> Staging -> Invoking -> Reading` and ends in
//! `Succeeded` or `Failed`; any stage-local failure collapses the request to
//! `Failed` with the stage's error, and the caller must trigger again from
//! the beginning. The machine only decides: the caller performs the actions
//! it emits (copying staged files, provisioning the asset, invoking the
//! capability, reading the output image back) and feeds the outcomes in as
//! events. A trigger that arrives while a request is in flight is refused
//! unchanged, so capability invocations serialize in trigger order.

use vstd::prelude::*;

use crate::asset::spec_asset_path;
use crate::dispatch::{
    plan_invocation, spec_bridge_call_of, spec_decode_invocation, BridgeCall, BridgeCallModel,
    CountingRequest, CountingRequestModel, CountingResult, CountingResultModel, Strategy,
};
use crate::error::{ErrorKind, ErrorModel, PipelineError};
use crate::is_sentinel;
use crate::marshal::{base64_of, encode_image_bytes, spec_base64_len, EncodedImage};
use crate::paths::Slot;
use crate::stage::{
    spec_selection_admitted, spec_stage_rejection, spec_staged_image, stage_request,
};

verus! {

/// A candidate input the user selected: its path and what the caller
/// observed of it on disk.
#[derive(Debug)]
pub struct Selection {
    pub path: String,
    pub exists_on_disk: bool,
    pub is_directory: bool,
}

/// Spec-level value of a [`Selection`].
pub struct SelectionModel {
    pub path: Seq<char>,
    pub exists_on_disk: bool,
    pub is_directory: bool,
}

impl View for Selection {
    type V = SelectionModel;

    open spec fn view(&self) -> SelectionModel {
        SelectionModel {
            path: self.path@,
            exists_on_disk: self.exists_on_disk,
            is_directory: self.is_directory,
        }
    }
}

/// One staging copy the caller must perform: full byte content from `source`
/// to `destination`, overwriting whatever is there.
#[derive(Debug)]
pub struct FileCopy {
    pub source: String,
    pub destination: String,
}

/// Spec-level value of a [`FileCopy`].
pub struct FileCopyModel {
    pub source: Seq<char>,
    pub destination: Seq<char>,
}

impl View for FileCopy {
    type V = FileCopyModel;

    open spec fn view(&self) -> FileCopyModel {
        FileCopyModel { source: self.source@, destination: self.destination@ }
    }
}

/// What drives the machine: a user trigger, or the outcome of an action the
/// caller performed.
#[derive(Debug)]
pub enum Event {
    /// The user asked for a counting run. `second` must be present exactly
    /// for the two-image strategy; `directory_exists` and `asset_exists` are
    /// what the caller observed of the data directory.
    Trigger {
        strategy: Strategy,
        first: Selection,
        second: Option<Selection>,
        data_dir: String,
        directory_exists: bool,
        asset_exists: bool,
    },
    /// The staging copies (and any asset provisioning) finished.
    StagingDone { ok: bool, message: String },
    /// The capability returned a well-shaped `(count, path)` pair.
    Invoked { count: i64, output_path: String },
    /// The capability could not be run at all.
    InvokeFailed { message: String },
    /// The output image was read back.
    OutputRead { bytes: Vec<u8> },
    /// The output image could not be read back.
    OutputReadFailed { message: String },
}

/// Spec-level value of an [`Event`].
pub enum EventModel {
    Trigger {
        strategy: Strategy,
        first: SelectionModel,
        second: Option<SelectionModel>,
        data_dir: Seq<char>,
        directory_exists: bool,
        asset_exists: bool,
    },
    StagingDone { ok: bool, message: Seq<char> },
    Invoked { count: i64, output_path: Seq<char> },
    InvokeFailed { message: Seq<char> },
    OutputRead { bytes: Seq<u8> },
    OutputReadFailed { message: Seq<char> },
}

impl View for Event {
    type V = EventModel;

    open spec fn view(&self) -> EventModel {
        match self {
            Event::Trigger { strategy, first, second, data_dir, directory_exists, asset_exists } =>
                EventModel::Trigger {
                    strategy: *strategy,
                    first: first@,
                    second: match second {
                        Option::Some(s) => Option::Some(s@),
                        Option::None => Option::None,
                    },
                    data_dir: data_dir@,
                    directory_exists: *directory_exists,
                    asset_exists: *asset_exists,
                },
            Event::StagingDone { ok, message } => EventModel::StagingDone {
                ok: *ok,
                message: message@,
            },
            Event::Invoked { count, output_path } => EventModel::Invoked {
                count: *count,
                output_path: output_path@,
            },
            Event::InvokeFailed { message } => EventModel::InvokeFailed { message: message@ },
            Event::OutputRead { bytes } => EventModel::OutputRead { bytes: bytes@ },
            Event::OutputReadFailed { message } => EventModel::OutputReadFailed {
                message: message@,
            },
        }
    }
}

/// Where one request stands.
#[derive(Debug)]
pub enum PipelineState {
    /// No request in flight.
    Idle,
    /// Waiting for the staging copies (and any asset provisioning).
    Staging { request: CountingRequest },
    /// Waiting for the capability's answer.
    Invoking { request: CountingRequest },
    /// Waiting for the output image to be read back.
    Reading { result: CountingResult },
    /// The request produced a count and an encoded output image.
    Succeeded { result: CountingResult, image: EncodedImage },
    /// The request collapsed with a stage-local error.
    Failed { error: PipelineError },
}

/// Spec-level value of a [`PipelineState`].
pub enum StateModel {
    Idle,
    Staging { request: CountingRequestModel },
    Invoking { request: CountingRequestModel },
    Reading { result: CountingResultModel },
    Succeeded { result: CountingResultModel, image: Seq<char> },
    Failed { error: ErrorModel },
}

impl View for PipelineState {
    type V = StateModel;

    open spec fn view(&self) -> StateModel {
        match self {
            PipelineState::Idle => StateModel::Idle,
            PipelineState::Staging { request } => StateModel::Staging { request: request@ },
            PipelineState::Invoking { request } => StateModel::Invoking { request: request@ },
            PipelineState::Reading { result } => StateModel::Reading { result: result@ },
            PipelineState::Succeeded { result, image } => StateModel::Succeeded {
                result: result@,
                image: image@,
            },
            PipelineState::Failed { error } => StateModel::Failed { error: error@ },
        }
    }
}

/// What the machine asks the caller to do next.
#[derive(Debug)]
pub enum Action {
    /// Nothing: either the machine is waiting for an earlier action's
    /// outcome, or the event did not apply to the current state.
    Wait,
    /// Create the data directory if asked, perform the copies in order, and
    /// write the bundled classifier asset at the given path if one is named.
    PerformStaging {
        create_directory: bool,
        copies: Vec<FileCopy>,
        write_asset: Option<String>,
    },
    /// Run the planned capability call and report its outcome.
    Invoke { call: BridgeCall },
    /// Read the output image at the given path and report its bytes.
    ReadOutput { path: String },
}

/// Spec-level value of an [`Action`].
#[verifier::ext_equal]
pub enum ActionModel {
    Wait,
    PerformStaging {
        create_directory: bool,
        copies: Seq<FileCopyModel>,
        write_asset: Option<Seq<char>>,
    },
    Invoke { call: BridgeCallModel },
    ReadOutput { path: Seq<char> },
}

impl View for Action {
    type V = ActionModel;

    open spec fn view(&self) -> ActionModel {
        match self {
            Action::Wait => ActionModel::Wait,
            Action::PerformStaging { create_directory, copies, write_asset } =>
                ActionModel::PerformStaging {
                    create_directory: *create_directory,
                    copies: copies@.map_values(|c: FileCopy| c@),
                    write_asset: match write_asset {
                        Option::Some(s) => Option::Some(s@),
                        Option::None => Option::None,
                    },
                },
            Action::Invoke { call } => ActionModel::Invoke { call: call@ },
            Action::ReadOutput { path } => ActionModel::ReadOutput { path: path@ },
        }
    }
}

/// States that accept a new trigger: no request is in flight.
pub open spec fn spec_ready(state: StateModel) -> bool {
    match state {
        StateModel::Idle => true,
        StateModel::Succeeded { .. } => true,
        StateModel::Failed { .. } => true,
        _ => false,
    }
}

/// The machine's invariant: an in-flight request respects the strategy's
/// arity, and a result that reached `Reading` or `Succeeded` never carries
/// the failure sentinel as its output path.
pub open spec fn spec_state_wf(state: StateModel) -> bool {
    match state {
        StateModel::Staging { request } => request.wf(),
        StateModel::Invoking { request } => request.wf(),
        StateModel::Reading { result } => !is_sentinel(result.output_path),
        StateModel::Succeeded { result, .. } => !is_sentinel(result.output_path),
        _ => true,
    }
}

/// The rejection a trigger with the wrong number of selections produces.
pub open spec fn spec_arity_rejection(strategy: Strategy) -> ErrorModel {
    ErrorModel {
        kind: ErrorKind::Validation,
        message: match strategy {
            Strategy::DiffConnect => "comparison needs a second selected image"@,
            Strategy::HaarCascade => "cascade detection takes a single selected image"@,
        },
    }
}

/// How a trigger from a ready state resolves: every selection is validated
/// before any copy is asked for, and a valid request is put into `Staging`
/// with the staging work it needs.
pub open spec fn spec_trigger(
    strategy: Strategy,
    first: SelectionModel,
    second: Option<SelectionModel>,
    data_dir: Seq<char>,
    directory_exists: bool,
    asset_exists: bool,
) -> (StateModel, ActionModel) {
    match strategy {
        Strategy::DiffConnect => {
            if second is None {
                (
                    StateModel::Failed { error: spec_arity_rejection(strategy) },
                    ActionModel::Wait,
                )
            } else if !spec_selection_admitted(first.path, first.exists_on_disk, first.is_directory) {
                (
                    StateModel::Failed {
                        error: spec_stage_rejection(
                            first.path,
                            first.exists_on_disk,
                            first.is_directory,
                        ),
                    },
                    ActionModel::Wait,
                )
            } else if !spec_selection_admitted(
                second->Some_0.path,
                second->Some_0.exists_on_disk,
                second->Some_0.is_directory,
            ) {
                (
                    StateModel::Failed {
                        error: spec_stage_rejection(
                            second->Some_0.path,
                            second->Some_0.exists_on_disk,
                            second->Some_0.is_directory,
                        ),
                    },
                    ActionModel::Wait,
                )
            } else {
                let first_staged = spec_staged_image(first.path, Slot::First, data_dir);
                let second_staged = spec_staged_image(second->Some_0.path, Slot::Second, data_dir);
                (
                    StateModel::Staging {
                        request: CountingRequestModel {
                            strategy: Strategy::DiffConnect,
                            first_input: first_staged.staged_path,
                            second_input: Option::Some(second_staged.staged_path),
                            extension: first_staged.extension,
                            output_dir: data_dir,
                            asset_path: Option::None,
                        },
                    },
                    ActionModel::PerformStaging {
                        create_directory: !directory_exists,
                        copies: seq![
                            FileCopyModel {
                                source: first.path,
                                destination: first_staged.staged_path,
                            },
                            FileCopyModel {
                                source: second->Some_0.path,
                                destination: second_staged.staged_path,
                            },
                        ],
                        write_asset: Option::None,
                    },
                )
            }
        },
        Strategy::HaarCascade => {
            if second is Some {
                (
                    StateModel::Failed { error: spec_arity_rejection(strategy) },
                    ActionModel::Wait,
                )
            } else if !spec_selection_admitted(first.path, first.exists_on_disk, first.is_directory) {
                (
                    StateModel::Failed {
                        error: spec_stage_rejection(
                            first.path,
                            first.exists_on_disk,
                            first.is_directory,
                        ),
                    },
                    ActionModel::Wait,
                )
            } else {
                let staged = spec_staged_image(first.path, Slot::Single, data_dir);
                (
                    StateModel::Staging {
                        request: CountingRequestModel {
                            strategy: Strategy::HaarCascade,
                            first_input: staged.staged_path,
                            second_input: Option::None,
                            extension: staged.extension,
                            output_dir: data_dir,
                            asset_path: Option::Some(spec_asset_path(data_dir)),
                        },
                    },
                    ActionModel::PerformStaging {
                        create_directory: !directory_exists,
                        copies: seq![
                            FileCopyModel { source: first.path, destination: staged.staged_path },
                        ],
                        write_asset: if asset_exists {
                            Option::None
                        } else {
                            Option::Some(spec_asset_path(data_dir))
                        },
                    },
                )
            }
        },
    }
}

/// The machine's full transition relation: what the next state is and what
/// the caller must do, for every state and event.
pub open spec fn spec_step(state: StateModel, event: EventModel) -> (StateModel, ActionModel) {
    match event {
        EventModel::Trigger { strategy, first, second, data_dir, directory_exists, asset_exists } => {
            if spec_ready(state) {
                spec_trigger(strategy, first, second, data_dir, directory_exists, asset_exists)
            } else {
                (state, ActionModel::Wait)
            }
        },
        EventModel::StagingDone { ok, message } => match state {
            StateModel::Staging { request } => {
                if ok {
                    (
                        StateModel::Invoking { request },
                        ActionModel::Invoke { call: spec_bridge_call_of(request) },
                    )
                } else {
                    (
                        StateModel::Failed {
                            error: ErrorModel { kind: ErrorKind::Io, message },
                        },
                        ActionModel::Wait,
                    )
                }
            },
            _ => (state, ActionModel::Wait),
        },
        EventModel::Invoked { count, output_path } => match state {
            StateModel::Invoking { .. } => match spec_decode_invocation(count, output_path) {
                Ok(result) => (
                    StateModel::Reading { result },
                    ActionModel::ReadOutput { path: result.output_path },
                ),
                Err(error) => (StateModel::Failed { error }, ActionModel::Wait),
            },
            _ => (state, ActionModel::Wait),
        },
        EventModel::InvokeFailed { message } => match state {
            StateModel::Invoking { .. } => (
                StateModel::Failed { error: ErrorModel { kind: ErrorKind::Bridge, message } },
                ActionModel::Wait,
            ),
            _ => (state, ActionModel::Wait),
        },
        EventModel::OutputRead { bytes } => match state {
            StateModel::Reading { result } => (
                StateModel::Succeeded { result, image: base64_of(bytes) },
                ActionModel::Wait,
            ),
            _ => (state, ActionModel::Wait),
        },
        EventModel::OutputReadFailed { message } => match state {
            StateModel::Reading { .. } => (
                StateModel::Failed {
                    error: ErrorModel { kind: ErrorKind::Presentation, message },
                },
                ActionModel::Wait,
            ),
            _ => (state, ActionModel::Wait),
        },
    }
}

/// Resolves a trigger from a ready state.
fn step_trigger(
    strategy: Strategy,
    first: Selection,
    second: Option<Selection>,
    data_dir: String,
    directory_exists: bool,
    asset_exists: bool,
) -> (r: (PipelineState, Action))
    ensures
        (r.0@, r.1@) == spec_trigger(
            strategy,
            first@,
            match second {
                Option::Some(s) => Option::Some(s@),
                Option::None => Option::None,
            },
            data_dir@,
            directory_exists,
            asset_exists,
        ),
{
    match strategy {
        Strategy::DiffConnect => {
            let second_sel = match second {
                Option::Some(s) => s,
                Option::None => {
                    return (
                        PipelineState::Failed {
                            error: PipelineError::of_kind(
                                ErrorKind::Validation,
                                "comparison needs a second selected image".to_owned(),
                            ),
                        },
                        Action::Wait,
                    );
                },
            };
            let first_staged = match stage_request(
                first.path.as_str(),
                Slot::First,
                data_dir.as_str(),
                first.exists_on_disk,
                first.is_directory,
            ) {
                Result::Ok(staged) => staged,
                Result::Err(error) => {
                    return (PipelineState::Failed { error }, Action::Wait);
                },
            };
            let second_staged = match stage_request(
                second_sel.path.as_str(),
                Slot::Second,
                data_dir.as_str(),
                second_sel.exists_on_disk,
                second_sel.is_directory,
            ) {
                Result::Ok(staged) => staged,
                Result::Err(error) => {
                    return (PipelineState::Failed { error }, Action::Wait);
                },
            };
            let request = CountingRequest::new_diff_connect(
                &first_staged,
                &second_staged,
                data_dir.as_str(),
            );
            let mut copies: Vec<FileCopy> = Vec::new();
            copies.push(FileCopy {
                source: first.path,
                destination: first_staged.staged_path,
            });
            copies.push(FileCopy {
                source: second_sel.path,
                destination: second_staged.staged_path,
            });
            let action = Action::PerformStaging {
                create_directory: !directory_exists,
                copies,
                write_asset: Option::None,
            };
            proof {
                assert(action@->PerformStaging_copies =~= spec_trigger(
                    strategy,
                    first@,
                    Option::Some(second_sel@),
                    data_dir@,
                    directory_exists,
                    asset_exists,
                ).1->PerformStaging_copies);
            }
            (PipelineState::Staging { request }, action)
        },
        Strategy::HaarCascade => {
            if second.is_some() {
                return (
                    PipelineState::Failed {
                        error: PipelineError::of_kind(
                            ErrorKind::Validation,
                            "cascade detection takes a single selected image".to_owned(),
                        ),
                    },
                    Action::Wait,
                );
            }
            let staged = match stage_request(
                first.path.as_str(),
                Slot::Single,
                data_dir.as_str(),
                first.exists_on_disk,
                first.is_directory,
            ) {
                Result::Ok(staged) => staged,
                Result::Err(error) => {
                    return (PipelineState::Failed { error }, Action::Wait);
                },
            };
            let asset = crate::asset::asset_path(data_dir.as_str());
            let request = CountingRequest::new_haar_cascade(
                &staged,
                data_dir.as_str(),
                asset.as_str(),
            );
            let mut copies: Vec<FileCopy> = Vec::new();
            copies.push(FileCopy {
                source: first.path,
                destination: staged.staged_path,
            });
            let action = Action::PerformStaging {
                create_directory: !directory_exists,
                copies,
                write_asset: if asset_exists {
                    Option::None
                } else {
                    Option::Some(asset)
                },
            };
            proof {
                assert(action@->PerformStaging_copies =~= spec_trigger(
                    strategy,
                    first@,
                    Option::None,
                    data_dir@,
                    directory_exists,
                    asset_exists,
                ).1->PerformStaging_copies);
            }
            (PipelineState::Staging { request }, action)
        },
    }
}

/// Advances the machine by one event.
///
/// The result is exactly what [`spec_step`] says; an event that does not
/// apply to the current state leaves the state unchanged and asks for
/// nothing.
pub fn step(state: PipelineState, event: Event) -> (r: (PipelineState, Action))
    requires
        spec_state_wf(state@),
    ensures
        (r.0@, r.1@) == spec_step(state@, event@),
        spec_state_wf(r.0@),
        spec_succeeded_image_len(state@, event@, r.0@),
{
    proof {
        lemma_step_preserves_wf(state@, event@);
    }
    match event {
        Event::Trigger { strategy, first, second, data_dir, directory_exists, asset_exists } => {
            let ready = match &state {
                PipelineState::Idle => true,
                PipelineState::Succeeded { .. } => true,
                PipelineState::Failed { .. } => true,
                _ => false,
            };
            if ready {
                step_trigger(strategy, first, second, data_dir, directory_exists, asset_exists)
            } else {
                (state, Action::Wait)
            }
        },
        Event::StagingDone { ok, message } => match state {
            PipelineState::Staging { request } => {
                if ok {
                    let call = plan_invocation(&request);
                    (PipelineState::Invoking { request }, Action::Invoke { call })
                } else {
                    (
                        PipelineState::Failed {
                            error: PipelineError::of_kind(ErrorKind::Io, message),
                        },
                        Action::Wait,
                    )
                }
            },
            other => (other, Action::Wait),
        },
        Event::Invoked { count, output_path } => match state {
            PipelineState::Invoking { request: _ } => {
                match crate::dispatch::decode_invocation(count, output_path) {
                    Result::Ok(result) => {
                        let path = result.output_path.clone();
                        (PipelineState::Reading { result }, Action::ReadOutput { path })
                    },
                    Result::Err(error) => (PipelineState::Failed { error }, Action::Wait),
                }
            },
            other => (other, Action::Wait),
        },
        Event::InvokeFailed { message } => match state {
            PipelineState::Invoking { request: _ } => (
                PipelineState::Failed {
                    error: PipelineError::of_kind(ErrorKind::Bridge, message),
                },
                Action::Wait,
            ),
            other => (other, Action::Wait),
        },
        Event::OutputRead { bytes } => match state {
            PipelineState::Reading { result } => {
                let image = encode_image_bytes(&bytes);
                (PipelineState::Succeeded { result, image }, Action::Wait)
            },
            other => (other, Action::Wait),
        },
        Event::OutputReadFailed { message } => match state {
            PipelineState::Reading { result: _ } => (
                PipelineState::Failed {
                    error: PipelineError::of_kind(ErrorKind::Presentation, message),
                },
                Action::Wait,
            ),
            other => (other, Action::Wait),
        },
    }
}

/// Every reachable state respects the machine's invariant: stepping from a
/// well-formed state lands in a well-formed state. In particular a result
/// carrying the failure sentinel never reaches `Reading` or `Succeeded`.
pub proof fn lemma_step_preserves_wf(state: StateModel, event: EventModel)
    requires
        spec_state_wf(state),
    ensures
        spec_state_wf(spec_step(state, event).0),
{
}

/// A trigger that arrives while a request is in flight is refused: the state
/// is unchanged and no action is asked for. Back-to-back requests therefore
/// execute one fully after the other, in trigger order.
pub proof fn lemma_busy_trigger_refused(state: StateModel, event: EventModel)
    requires
        !spec_ready(state),
        event is Trigger,
    ensures
        spec_step(state, event) == (state, ActionModel::Wait),
{
}

/// An invalid first selection never reaches staging: the request fails with
/// a validation error immediately, and no action is asked for.
pub proof fn lemma_invalid_selection_never_stages(state: StateModel, event: EventModel)
    requires
        spec_ready(state),
        event is Trigger,
        !spec_selection_admitted(
            event->Trigger_first.path,
            event->Trigger_first.exists_on_disk,
            event->Trigger_first.is_directory,
        ),
    ensures
        spec_step(state, event).0 matches StateModel::Failed { error } && error.kind
            == ErrorKind::Validation,
        spec_step(state, event).1 == ActionModel::Wait,
{
}

/// On the success edge — reading the output bytes back from `Reading` — the
/// encoded image has the encoder's exact length, so a non-empty output image
/// is displayed as a non-empty encoding.
pub open spec fn spec_succeeded_image_len(
    state: StateModel,
    event: EventModel,
    next: StateModel,
) -> bool {
    match (state, event, next) {
        (
            StateModel::Reading { .. },
            EventModel::OutputRead { bytes },
            StateModel::Succeeded { image, .. },
        ) => image.len() == spec_base64_len(bytes.len()),
        _ => true,
    }
}

/// The machine asks for a capability invocation only on the edge from
/// `Staging` into `Invoking`, so each accepted request is invoked at most
/// once, and a new invocation cannot be asked for until the machine has left
/// `Invoking` — through an answer or a bridge failure — and accepted a new
/// trigger.
pub proof fn lemma_invoke_comes_from_staging(state: StateModel, event: EventModel)
    ensures
        spec_step(state, event).1 is Invoke ==> state is Staging && spec_step(state, event).0
            is Invoking,
{
}

/// A sentinel answer from the capability fails the request as a processing
/// error — it is never read as a success, whatever count came with it.
pub proof fn lemma_sentinel_answer_fails(state: StateModel, count: i64, output_path: Seq<char>)
    requires
        state is Invoking,
        is_sentinel(output_path),
    ensures
        spec_step(state, EventModel::Invoked { count, output_path }).0 matches StateModel::Failed {
            error,
        } && error.kind == ErrorKind::Processing,
        !(spec_step(state, EventModel::Invoked { count, output_path }).0 is Succeeded),
{
}

} // verus!
