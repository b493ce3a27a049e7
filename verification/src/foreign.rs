//! The types of the standard library and of the capability-directory
//! crates that views hold, take and return.
//!
//! Each is opaque to the verifier: a value of it is carried through, never
//! looked into. The one exception is `std::io::ErrorKind`, a plain list of
//! variants that contracts name.

use vstd::prelude::*;

verus! {

#[verifier::external_type_specification]
#[verifier::external_body]
pub struct ExIoError(std::io::Error);

#[verifier::external_type_specification]
pub struct ExIoErrorKind(std::io::ErrorKind);

#[verifier::external_type_specification]
#[verifier::external_body]
pub struct ExPath(std::path::Path);

#[verifier::external_type_specification]
#[verifier::external_body]
pub struct ExPathBuf(std::path::PathBuf);

#[verifier::external_type_specification]
#[verifier::external_body]
pub struct ExUtf8PathBuf(camino::Utf8PathBuf);

#[verifier::external_type_specification]
#[verifier::external_body]
pub struct ExAmbientAuthority(cap_std::AmbientAuthority);

#[verifier::external_type_specification]
#[verifier::external_body]
pub struct ExDir(cap_std::fs::Dir);

#[verifier::external_type_specification]
#[verifier::external_body]
pub struct ExFile(cap_std::fs::File);

#[verifier::external_type_specification]
#[verifier::external_body]
pub struct ExReadDir(cap_std::fs::ReadDir);

#[verifier::external_type_specification]
#[verifier::external_body]
pub struct ExDirEntry(cap_std::fs::DirEntry);

#[verifier::external_type_specification]
#[verifier::external_body]
pub struct ExMetadata(cap_std::fs::Metadata);

#[verifier::external_type_specification]
#[verifier::external_body]
pub struct ExFileType(cap_std::fs::FileType);

#[verifier::external_type_specification]
#[verifier::external_body]
pub struct ExPermissions(cap_std::fs::Permissions);

#[verifier::external_type_specification]
#[verifier::external_body]
pub struct ExDirBuilder(cap_std::fs::DirBuilder);

#[verifier::external_type_specification]
#[verifier::external_body]
pub struct ExDirUtf8(cap_std::fs_utf8::Dir);

#[verifier::external_type_specification]
#[verifier::external_body]
pub struct ExFileUtf8(cap_std::fs_utf8::File);

#[verifier::external_type_specification]
#[verifier::external_body]
pub struct ExReadDirUtf8(cap_std::fs_utf8::ReadDir);

#[verifier::external_type_specification]
#[verifier::external_body]
pub struct ExDirEntryUtf8(cap_std::fs_utf8::DirEntry);

} // verus!
