//! Where the downloadable update installer lives on disk.
use vstd::prelude::*;

verus! {

#[verifier::external_type_specification]
#[verifier::external_body]
pub struct ExPathBuf(std::path::PathBuf);

#[verifier::external_type_specification]
#[verifier::external_body]
pub struct ExPath(std::path::Path);

/// Name of the sub-directory of the application data directory that holds updates.
pub const UPDATES_DIR: &'static str = "updates";

/// Fixed file name of the installer the server hands out to clients.
pub const INSTALLER_FILE_NAME: &'static str = "downloaded-installer.exe";

/// The application data directory, as handed to the parts that need it.
pub struct AppDataDir(pub std::path::PathBuf);

/// Whether an installer is available for download, and its size in bytes.
#[derive(Clone, Copy, Debug, PartialEq, Eq, Structural)]
pub struct UpdateInstallerInfo {
    pub available: bool,
    pub size_bytes: u64,
}

/// The components of a path buffer (`Path::components`), each as the bytes
/// of its `OsStr` (`as_encoded_bytes`): prefix, root, `.`, `..` and names,
/// with the normalisation that `components` applies (repeated separators,
/// inner `.` and a trailing separator do not count).
pub uninterp spec fn path_components(p: std::path::PathBuf) -> Seq<Seq<u8>>;

/// The components of a borrowed path, in the same form as `path_components`.
pub uninterp spec fn dir_components(p: &std::path::Path) -> Seq<Seq<u8>>;

/// Whether `c` may stand in a plain file name: an ASCII letter or digit,
/// `-`, `_` or `.`.
pub open spec fn name_char(c: char) -> bool {
    ('a' <= c && c <= 'z') || ('A' <= c && c <= 'Z') || ('0' <= c && c <= '9') || c == '-'
        || c == '_' || c == '.'
}

/// A plain file name: not empty, made of name characters only, and neither
/// `.` nor `..`.  Such a name has no separator, prefix or root on any
/// platform, so it is one normal path component.
pub open spec fn plain_name(s: Seq<char>) -> bool {
    &&& s.len() > 0
    &&& forall|i: int| 0 <= i < s.len() ==> name_char(#[trigger] s[i])
    &&& s != seq!['.']
    &&& s != seq!['.', '.']
}

/// The bytes of an ASCII text.
pub open spec fn ascii_bytes(s: Seq<char>) -> Seq<u8> {
    s.map_values(|c: char| c as u8)
}

/// Whether a byte is a path separator on some platform: `/` or `\`.
pub open spec fn separator_byte(x: u8) -> bool {
    x == 47u8 || x == 92u8
}

/// Whether a component, as bytes, starts with two separators: the shape of
/// every Windows prefix other than a drive letter (`\\server\share`,
/// `\\?\C:`, `\\.\COM1`, ...).
pub open spec fn network_style_prefix(b: Seq<u8>) -> bool {
    b.len() >= 2 && separator_byte(b[0]) && separator_byte(b[1])
}

/// Components that a plain name extends by one, with nothing rewritten:
/// those of every path whose first component (the only place a prefix can
/// stand) does not start with two separators.
pub open spec fn extends_plainly(c: Seq<Seq<u8>>) -> bool {
    c.len() == 0 || !network_style_prefix(c[0])
}

/// Calls `std::path::Path::to_path_buf`: an owned copy of the path, with the
/// same components.
#[verifier::external_body]
fn to_path_buf(p: &std::path::Path) -> (r: std::path::PathBuf)
    ensures
        path_components(r) == dir_components(p),
{
    p.to_path_buf()
}

/// Calls `std::path::Path::join` with a plain file name.  Where the path
/// extends plainly (no Windows prefix, though a drive letter may stand),
/// joining writes a separator where one is needed and then the name, and
/// rewrites nothing, so the joined components are the path's own with the
/// name after them.  Of a path with a network-style prefix nothing is
/// stated: a verbatim one such as `\\?\C:` is normalised when joined and
/// may gain a root, and a bare `\\server` takes the name as its share.  The
/// separator written between the parts (`/` or `\`) is the platform's and
/// is left unsaid.
#[verifier::external_body]
fn join_path(base: &std::path::PathBuf, part: &str) -> (r: std::path::PathBuf)
    requires
        plain_name(part@),
    ensures
        extends_plainly(path_components(*base)) ==> path_components(r) == path_components(
            *base,
        ).push(ascii_bytes(part@)),
{
    base.join(part)
}

/// Path of the installer file: `<app data dir>/updates/downloaded-installer.exe`.
/// Unless the data directory starts with a Windows network-style prefix
/// (`\\server`, `\\?\`, ...), its components are exactly the
/// directory's followed by those two names (for `/data`, `/`, `.`,
/// `C:\Users\me` alike).
pub fn update_installer_path(app_data_dir: &std::path::Path) -> (r: std::path::PathBuf)
    ensures
        extends_plainly(dir_components(app_data_dir)) ==> path_components(r) == dir_components(
            app_data_dir,
        ).push(ascii_bytes(UPDATES_DIR@)).push(ascii_bytes(INSTALLER_FILE_NAME@)),
{
    proof {
        reveal_strlit("updates");
        reveal_strlit("downloaded-installer.exe");
        assert(UPDATES_DIR@ =~= seq!['u', 'p', 'd', 'a', 't', 'e', 's']);
        assert(plain_name(UPDATES_DIR@));
        assert(INSTALLER_FILE_NAME@ =~= seq![
            'd', 'o', 'w', 'n', 'l', 'o', 'a', 'd', 'e', 'd', '-', 'i', 'n', 's', 't', 'a', 'l',
            'l', 'e', 'r', '.', 'e', 'x', 'e',
        ]);
        assert(plain_name(INSTALLER_FILE_NAME@));
    }
    let base = to_path_buf(app_data_dir);
    let updates = join_path(&base, UPDATES_DIR);
    proof {
        let d = dir_components(app_data_dir);
        if extends_plainly(d) {
            let u = d.push(ascii_bytes(UPDATES_DIR@));
            assert(path_components(updates) == u);
            if d.len() == 0 {
                assert(u[0] == ascii_bytes(UPDATES_DIR@));
                assert(u[0][0] == 117u8);
                assert(!network_style_prefix(u[0]));
            } else {
                assert(u[0] == d[0]);
            }
            assert(extends_plainly(u));
        }
    }
    join_path(&updates, INSTALLER_FILE_NAME)
}

/// An installer is available exactly when the path names a regular file;
/// its size is then the file's length, and 0 otherwise.
pub open spec fn installer_info_spec(metadata: Option<(bool, u64)>) -> UpdateInstallerInfo {
    match metadata {
        Some((is_file, len)) if is_file => UpdateInstallerInfo { available: true, size_bytes: len },
        _ => UpdateInstallerInfo { available: false, size_bytes: 0 },
    }
}

/// What is reported for the installer, given what the file system said about
/// the installer path: `Some((is_file, len))` when its metadata could be read.
pub fn installer_info(metadata: Option<(bool, u64)>) -> (info: UpdateInstallerInfo)
    ensures
        info == installer_info_spec(metadata),
{
    match metadata {
        Some((true, len)) => UpdateInstallerInfo { available: true, size_bytes: len },
        _ => UpdateInstallerInfo { available: false, size_bytes: 0 },
    }
}

} // verus!
