use crate::error::{unit_result_view, ContractError, ContractErrorView};
use crate::response::{Attribute, AttributeView, Response, ResponseView};
use crate::storage::state_store::{Store, StoreView};
use crate::util::helpers::Step;
use crate::version_info::{
    get_version_info, stored_version, VersionInfoV1, VersionInfoV1View, PACKAGE_VERSION,
};
use vstd::prelude::*;

verus! {

/// The one version from which an instance can be moved to this code.
pub const MIGRATABLE_VERSION: &'static str = "0.1.1";

/// Whether an instance at `version` can be moved to this code.
pub open spec fn migration_check(version: Seq<char>) -> Result<(), ContractErrorView> {
    if version != MIGRATABLE_VERSION@ {
        Err(ContractErrorView::IllegalMigrationVersion { version })
    } else {
        Ok(())
    }
}

/// Checks that an instance at `current_version` can be moved to this code.
pub fn validate_migration(current_version: String) -> (r: Result<(), ContractError>)
    ensures
        unit_result_view(r) == migration_check(current_version@),
{
    if current_version != MIGRATABLE_VERSION.to_owned() {
        return Err(ContractError::IllegalMigrationVersion { version: current_version });
    }
    Ok(())
}

/// What a migration reports.
pub open spec fn migration_report() -> Seq<AttributeView> {
    seq![
        AttributeView::Text { key: "action"@, value: "migrate"@ },
        AttributeView::Text { key: "new_version"@, value: PACKAGE_VERSION@ },
    ]
}

/// Moving an instance to this code: the recorded version must be the one
/// that can be migrated, and is replaced by the version of this code.
/// Nothing else changes.
pub open spec fn migrate_step(pre: StoreView) -> Step {
    match stored_version(pre) {
        Err(e) => Step::fail(pre, e),
        Ok(info) => match migration_check(info.version) {
            Err(e) => Step::fail(pre, e),
            Ok(_) => Step::done(
                StoreView {
                    version_info: Some(
                        VersionInfoV1View { definition: info.definition, version: PACKAGE_VERSION@ },
                    ),
                    ..pre
                },
                ResponseView { messages: seq![], attributes: migration_report() },
            ),
        },
    }
}

/// Moves the instance in `store` to the version of this code; see [`migrate_step`].
pub fn migrate_contract(store: &mut Store) -> (r: Result<Response, ContractError>)
    ensures
        migrate_step(old(store)@).describes(final(store)@, r),
{
    let current_version_info = match get_version_info(store) {
        Err(e) => {
            return Err(e);
        },
        Ok(info) => info,
    };
    match validate_migration(current_version_info.version) {
        Err(e) => {
            return Err(e);
        },
        Ok(_) => {},
    }
    store.version_info = Some(
        VersionInfoV1 {
            definition: current_version_info.definition,
            version: PACKAGE_VERSION.to_owned(),
        },
    );
    let response = Response::new().add_attribute(
        Attribute::Text { key: "action".to_owned(), value: "migrate".to_owned() },
    ).add_attribute(
        Attribute::Text { key: "new_version".to_owned(), value: PACKAGE_VERSION.to_owned() },
    );
    proof {
        assert(response@.messages =~= seq![]);
        assert(response@.attributes =~= migration_report());
    }
    Ok(response)
}

} // verus!
