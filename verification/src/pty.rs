use vstd::prelude::*;

verus! {

use portable_pty::PtySystem;

#[verifier::external_type_specification]
#[verifier::external_body]
/// A PTY master/slave pair of `portable_pty`, owning the terminal device and
/// the lifetime of the child process spawned into it. Opaque to the verifier:
/// the library only stores it and hands out borrows.
pub struct ExPtyPair(portable_pty::PtyPair);

#[verifier::external_type_specification]
#[verifier::external_body]
/// A `portable_pty` command description: a program plus its working
/// directory. Opaque to the verifier.
pub struct ExCommandBuilder(portable_pty::CommandBuilder);

/// Relies on `portable_pty::PtySystem::openpty` of the native PTY system: on
/// success it allocates a fresh PTY pair of the given size. Whether a PTY can
/// be allocated depends on the operating system, so nothing is promised of
/// the outcome.
#[verifier::external_body]
pub(crate) fn open_pty(rows: u16, cols: u16) -> (r: Result<portable_pty::PtyPair, String>) {
    let sys = portable_pty::NativePtySystem::default();
    let size = portable_pty::PtySize { rows, cols, pixel_width: 0, pixel_height: 0 };
    sys.openpty(size).map_err(|e| e.to_string())
}

/// Relies on `portable_pty::CommandBuilder::new` and `CommandBuilder::cwd`:
/// builds the description of `program` to be started in `directory`.
#[verifier::external_body]
pub(crate) fn build_command(program: &str, directory: &str) -> (r: portable_pty::CommandBuilder) {
    let mut cmd = portable_pty::CommandBuilder::new(program);
    cmd.cwd(directory);
    cmd
}

/// Relies on `portable_pty::SlavePty::spawn_command`: starts the described
/// command inside the slave side of `pair`. Success depends on the operating
/// system and the program, so nothing is promised of the outcome. The
/// returned child handle is discarded — dropping it neither kills nor reaps
/// the child; what ends the process is closing the pair's descriptors when
/// the pair itself is dropped.
#[verifier::external_body]
pub(crate) fn spawn_in_pty(pair: &portable_pty::PtyPair, cmd: portable_pty::CommandBuilder) -> (r:
    Result<(), String>) {
    match pair.slave.spawn_command(cmd) {
        Ok(_child) => Ok(()),
        Err(e) => Err(e.to_string()),
    }
}

/// Relies on `chrono::Utc::now` and `chrono::DateTime::to_rfc3339`: the
/// current UTC time rendered as an RFC 3339 timestamp. The result depends on
/// the clock, so nothing is promised of it.
#[verifier::external_body]
pub(crate) fn now_rfc3339() -> (r: String) {
    chrono::Utc::now().to_rfc3339()
}

/// Relies on `uuid::Uuid::new_v4` and its `Display` rendering: a freshly
/// drawn random version-4 UUID in hyphenated form. The result is random, so
/// nothing is promised of it. The generator aborts the process if the
/// operating system's randomness source fails — a machine-state failure, not
/// an input-dependent one.
#[verifier::external_body]
pub(crate) fn new_session_id() -> (r: String) {
    uuid::Uuid::new_v4().to_string()
}

/// Relies on `std::path::Path::exists`: whether the path currently names an
/// entry on disk. The result depends on the file system, so nothing is
/// promised of it.
#[verifier::external_body]
pub(crate) fn path_exists(path: &str) -> (r: bool) {
    std::path::Path::new(path).exists()
}

/// Relies on `std::path::Path::is_dir`: whether the path currently names a
/// directory. The result depends on the file system, so nothing is promised
/// of it.
#[verifier::external_body]
pub(crate) fn path_is_dir(path: &str) -> (r: bool) {
    std::path::Path::new(path).is_dir()
}

} // verus!
