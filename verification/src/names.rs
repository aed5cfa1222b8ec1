//! Reserved names of the fixed filesystem layout and of the default
//! entities. Each name exists once as a spec-level sequence of characters
//! (what contracts speak about) and once as the executable path component
//! or field value the surrounding application uses.

use vstd::prelude::*;

verus! {

/// Name of the application's root directory under the user's home.
pub open spec fn spec_root_dir_name() -> Seq<char> {
    ".fatherbox"@
}

/// The application's root directory, as a path component.
pub fn root_dir_name() -> (r: &'static str)
    ensures
        r@ == spec_root_dir_name(),
{
    ".fatherbox"
}

/// Name of the configuration subdirectory.
pub open spec fn spec_config_dir_name() -> Seq<char> {
    "config"@
}

/// The configuration subdirectory, as a path component.
pub fn config_dir_name() -> (r: &'static str)
    ensures
        r@ == spec_config_dir_name(),
{
    "config"
}

/// Name of the data subdirectory holding the embedded store.
pub open spec fn spec_data_dir_name() -> Seq<char> {
    "data"@
}

/// The data subdirectory, as a path component.
pub fn data_dir_name() -> (r: &'static str)
    ensures
        r@ == spec_data_dir_name(),
{
    "data"
}

/// Name of the file-storage subdirectory.
pub open spec fn spec_file_dir_name() -> Seq<char> {
    "files"@
}

/// The file-storage subdirectory, as a path component.
pub fn file_dir_name() -> (r: &'static str)
    ensures
        r@ == spec_file_dir_name(),
{
    "files"
}

/// Name of the embedded store file inside the data subdirectory.
pub open spec fn spec_data_db_name() -> Seq<char> {
    "data.db"@
}

/// The embedded store file, as a path component.
pub fn data_db_name() -> (r: &'static str)
    ensures
        r@ == spec_data_db_name(),
{
    "data.db"
}

/// Reserved display name of the default workspace.
pub open spec fn spec_default_workspace_name() -> Seq<char> {
    "default"@
}

/// The default workspace's reserved name.
pub fn default_workspace_name() -> (r: &'static str)
    ensures
        r@ == spec_default_workspace_name(),
{
    "default"
}

/// Login name of the default account.
pub open spec fn spec_default_username() -> Seq<char> {
    "default"@
}

/// The default account's login name.
pub fn default_username() -> (r: &'static str)
    ensures
        r@ == spec_default_username(),
{
    "default"
}

/// Credential the default account is created with; the account-creation
/// routine of the store layer hashes it before persisting.
pub open spec fn spec_default_password() -> Seq<char> {
    "123456"@
}

/// The default account's initial credential.
pub fn default_password() -> (r: &'static str)
    ensures
        r@ == spec_default_password(),
{
    "123456"
}

/// Display name of the default account.
pub open spec fn spec_default_nickname() -> Seq<char> {
    "default user"@
}

/// The default account's display name.
pub fn default_nickname() -> (r: &'static str)
    ensures
        r@ == spec_default_nickname(),
{
    "default user"
}

/// Provider tag of locally created accounts.
pub open spec fn spec_provider_local() -> Seq<char> {
    "local"@
}

/// The provider tag of locally created accounts.
pub fn provider_local() -> (r: &'static str)
    ensures
        r@ == spec_provider_local(),
{
    "local"
}

/// Kind tag of a file node that is a plain file.
pub open spec fn spec_file_kind() -> Seq<char> {
    "file"@
}

/// The kind tag of a plain file.
pub fn file_kind() -> (r: &'static str)
    ensures
        r@ == spec_file_kind(),
{
    "file"
}

/// Kind tag of a file node that is a directory.
pub open spec fn spec_dir_kind() -> Seq<char> {
    "directory"@
}

/// The kind tag of a directory.
pub fn dir_kind() -> (r: &'static str)
    ensures
        r@ == spec_dir_kind(),
{
    "directory"
}

} // verus!
