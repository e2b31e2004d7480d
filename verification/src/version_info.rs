use crate::error::{result_view, ContractError, ContractErrorView};
use crate::storage::state_store::{Store, StoreView};
use vstd::prelude::*;

verus! {

/// The name under which this contract records itself.
pub const CRATE_NAME: &'static str = "forward_market_contract";

/// The version that instantiation and migration record.
pub const PACKAGE_VERSION: &'static str = "0.1.2";

/// The stored marker of which code version wrote the state.
#[derive(Debug, PartialEq, Eq)]
pub struct VersionInfoV1 {
    pub definition: String,
    pub version: String,
}

/// The mathematical content of a [`VersionInfoV1`].
pub struct VersionInfoV1View {
    pub definition: Seq<char>,
    pub version: Seq<char>,
}

impl View for VersionInfoV1 {
    type V = VersionInfoV1View;

    open spec fn view(&self) -> VersionInfoV1View {
        VersionInfoV1View { definition: self.definition@, version: self.version@ }
    }
}

impl DeepView for VersionInfoV1 {
    type V = VersionInfoV1View;

    open spec fn deep_view(&self) -> VersionInfoV1View {
        self@
    }
}

impl Clone for VersionInfoV1 {
    fn clone(&self) -> (r: Self)
        ensures
            r@ == self@,
    {
        VersionInfoV1 { definition: self.definition.clone(), version: self.version.clone() }
    }
}

/// What reading the version marker gives: the marker, or the error of a
/// store in which none was ever written.
pub open spec fn stored_version(store: StoreView) -> Result<VersionInfoV1View, ContractErrorView> {
    match store.version_info {
        Some(info) => Ok(info),
        None => Err(ContractErrorView::Std("version_info not found"@)),
    }
}

/// Reads the version marker; see [`stored_version`].
pub fn get_version_info(store: &Store) -> (r: Result<VersionInfoV1, ContractError>)
    ensures
        result_view(r) == stored_version(store@),
{
    match &store.version_info {
        Some(info) => Ok(info.clone()),
        None => Err(ContractError::Std("version_info not found".to_owned())),
    }
}

/// Writes the version marker.
pub fn set_version_info(store: &mut Store, version_info: &VersionInfoV1) -> (r: Result<
    (),
    ContractError,
>)
    ensures
        r is Ok,
        final(store)@ == (StoreView { version_info: Some(version_info@), ..old(store)@ }),
{
    store.version_info = Some(version_info.clone());
    Ok(())
}

} // verus!
