//! Asset provisioner.
//!
//! The cascade classifier asset lives under a fixed name in the application
//! data directory and is written once from bundled contents. Provisioning is
//! planned here and performed by the caller: the plan says whether the
//! directory must be created and whether the asset must be written. An asset
//! already on disk is never rewritten, so a second provisioning run performs
//! no write at all and leaves the asset's bytes untouched.

use vstd::prelude::*;

use crate::paths::{join_path, spec_join_path};

verus! {

/// The fixed file name of the classifier asset inside the data directory.
pub open spec fn spec_asset_file_name() -> Seq<char> {
    "cars.xml"@
}

/// The fixed file name of the classifier asset inside the data directory.
pub fn asset_file_name() -> (r: String)
    ensures
        r@ == spec_asset_file_name(),
{
    "cars.xml".to_owned()
}

/// Where the classifier asset lives inside `data_dir`.
pub open spec fn spec_asset_path(data_dir: Seq<char>) -> Seq<char> {
    spec_join_path(data_dir, spec_asset_file_name())
}

/// Builds the on-disk path of the classifier asset inside `data_dir`.
pub fn asset_path(data_dir: &str) -> (r: String)
    ensures
        r@ == spec_asset_path(data_dir@),
{
    let name = asset_file_name();
    join_path(data_dir, name.as_str())
}

/// What the caller must do to make the asset available: create the data
/// directory if it is missing, then write the bundled bytes if the asset file
/// is missing. Nothing is ever rewritten.
#[derive(Debug)]
pub struct ProvisionPlan {
    pub create_directory: bool,
    pub write_asset: bool,
    pub asset_path: String,
}

/// Spec-level value of a [`ProvisionPlan`].
pub struct ProvisionPlanModel {
    pub create_directory: bool,
    pub write_asset: bool,
    pub asset_path: Seq<char>,
}

impl View for ProvisionPlan {
    type V = ProvisionPlanModel;

    open spec fn view(&self) -> ProvisionPlanModel {
        ProvisionPlanModel {
            create_directory: self.create_directory,
            write_asset: self.write_asset,
            asset_path: self.asset_path@,
        }
    }
}

/// The plan provisioning demands given what is observed on disk.
pub open spec fn spec_provision_plan(
    data_dir: Seq<char>,
    directory_exists: bool,
    asset_exists: bool,
) -> ProvisionPlanModel {
    ProvisionPlanModel {
        create_directory: !directory_exists,
        write_asset: !asset_exists,
        asset_path: spec_asset_path(data_dir),
    }
}

/// Plans the provisioning of the classifier asset inside `data_dir`, given
/// whether the directory and the asset file were observed on disk.
pub fn plan_provision(data_dir: &str, directory_exists: bool, asset_exists: bool) -> (r:
    ProvisionPlan)
    ensures
        r@ == spec_provision_plan(data_dir@, directory_exists, asset_exists),
{
    ProvisionPlan {
        create_directory: !directory_exists,
        write_asset: !asset_exists,
        asset_path: asset_path(data_dir),
    }
}

/// An abstract data directory: whether it exists, and which files it holds.
pub struct DataDirModel {
    pub directory_exists: bool,
    pub files: Map<Seq<char>, Seq<u8>>,
}

/// The data directory after one provisioning run: the directory exists, and
/// the asset holds the bundled bytes unless it was already present, in which
/// case its bytes are untouched.
pub open spec fn spec_provision_apply(
    state: DataDirModel,
    asset: Seq<char>,
    bundled: Seq<u8>,
) -> DataDirModel {
    DataDirModel {
        directory_exists: true,
        files: if state.files.dom().contains(asset) {
            state.files
        } else {
            state.files.insert(asset, bundled)
        },
    }
}

/// Provisioning is idempotent: a second run changes nothing, the plan it
/// would follow performs no write, and the asset's bytes after any number of
/// runs are the bundled bytes unless the file predated the first run.
pub proof fn lemma_provision_idempotent(
    state: DataDirModel,
    data_dir: Seq<char>,
    bundled: Seq<u8>,
)
    ensures
        spec_provision_apply(
            spec_provision_apply(state, spec_asset_path(data_dir), bundled),
            spec_asset_path(data_dir),
            bundled,
        ) == spec_provision_apply(state, spec_asset_path(data_dir), bundled),
        !spec_provision_plan(
            data_dir,
            spec_provision_apply(state, spec_asset_path(data_dir), bundled).directory_exists,
            spec_provision_apply(state, spec_asset_path(data_dir), bundled).files.dom().contains(
                spec_asset_path(data_dir),
            ),
        ).write_asset,
        spec_provision_apply(state, spec_asset_path(data_dir), bundled).files[spec_asset_path(
            data_dir,
        )] == if state.files.dom().contains(spec_asset_path(data_dir)) {
            state.files[spec_asset_path(data_dir)]
        } else {
            bundled
        },
{
    let asset = spec_asset_path(data_dir);
    let once = spec_provision_apply(state, asset, bundled);
    assert(once.files.dom().contains(asset));
    assert(spec_provision_apply(once, asset, bundled) == once);
}

} // verus!
