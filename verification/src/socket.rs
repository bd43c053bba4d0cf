//! Where the Wayland socket of a display lies.

use vstd::prelude::*;

use crate::error::CaptureError;

verus! {

/// The byte that separates the parts of a path.
pub const SEPARATOR: u8 = 0x2f;

/// The path starts at the root.
pub open spec fn is_absolute(path: Seq<u8>) -> bool {
    path.len() > 0 && path[0] == SEPARATOR
}

/// A relative path taken from a directory: one separator between the two.
pub open spec fn path_in(directory: Seq<u8>, path: Seq<u8>) -> Seq<u8> {
    if directory.len() > 0 && directory.last() != SEPARATOR {
        directory.push(SEPARATOR) + path
    } else {
        directory + path
    }
}

fn starts_at_root(path: &[u8]) -> (r: bool)
    ensures
        r == is_absolute(path@),
{
    path.len() > 0 && path[0] == SEPARATOR
}

fn append_bytes(path: &mut Vec<u8>, bytes: &[u8])
    ensures
        final(path)@ == old(path)@ + bytes@,
{
    let mut i: usize = 0;
    let ghost start = path@;
    while i < bytes.len()
        invariant
            i <= bytes.len(),
            path@ == start + bytes@.take(i as int),
        decreases bytes.len() - i,
    {
        path.push(bytes[i]);
        i = i + 1;
        assert(path@ =~= start + bytes@.take(i as int));
    }
    assert(bytes@.take(bytes@.len() as int) =~= bytes@);
}

/// What becomes of the name of a display.
pub open spec fn is_socket_of(
    display: Seq<u8>,
    runtime_dir: Option<Seq<u8>>,
    r: Result<Vec<u8>, CaptureError>,
) -> bool {
    match r {
        Ok(path) => {
            &&& is_absolute(path@)
            &&& if is_absolute(display) {
                path@ == display
            } else {
                runtime_dir is Some && is_absolute(runtime_dir->0) && path@ == path_in(runtime_dir->0, display)
            }
        },
        Err(CaptureError::RuntimeDirNotSet) => !is_absolute(display) && runtime_dir is None,
        Err(CaptureError::RuntimeDirNotAbsolute) => {
            !is_absolute(display) && runtime_dir is Some && !is_absolute(runtime_dir->0)
        },
        Err(_) => false,
    }
}

/// The socket of a Wayland display. A display that is an absolute path is the
/// socket itself; any other is looked up in the runtime directory, which has to
/// be set and absolute. Either way the socket is an absolute path.
pub fn wayland_socket_path(display: &[u8], runtime_dir: Option<&[u8]>) -> (r: Result<Vec<u8>, CaptureError>)
    ensures
        is_socket_of(
            display@,
            match runtime_dir {
                Some(directory) => Some(directory@),
                None => None,
            },
            r,
        ),
{
    let mut path: Vec<u8> = Vec::new();
    if starts_at_root(display) {
        append_bytes(&mut path, display);
        assert(path@ =~= display@);
        return Ok(path);
    }
    match runtime_dir {
        None => Err(CaptureError::RuntimeDirNotSet),
        Some(directory) => {
            if !starts_at_root(directory) {
                return Err(CaptureError::RuntimeDirNotAbsolute);
            }
            append_bytes(&mut path, directory);
            assert(path@ =~= directory@);
            if directory[directory.len() - 1] != SEPARATOR {
                path.push(SEPARATOR);
            }
            append_bytes(&mut path, display);
            Ok(path)
        },
    }
}

/// A display that starts with a slash is its own socket, whatever the runtime
/// directory. Any other lies in that directory, whose path is in front of it with
/// one slash between; without one that starts with a slash there is no socket.
pub proof fn law_sockets_lie_in_the_runtime_directory(
    display: Seq<u8>,
    runtime_dir: Option<Seq<u8>>,
    r: Result<Vec<u8>, CaptureError>,
)
    requires
        is_socket_of(display, runtime_dir, r),
    ensures
        ({
            let rooted = display.len() > 0 && display[0] == 0x2f;
            let usable = runtime_dir is Some && runtime_dir->0.len() > 0 && runtime_dir->0[0] == 0x2f;
            &&& r is Ok <==> rooted || usable
            &&& r is Ok && rooted ==> r->Ok_0@ == display
            &&& r is Ok && !rooted ==> {
                let path = r->Ok_0;
                let directory = runtime_dir->0;
                let slash = if directory.last() == 0x2f { 0int } else { 1 };
                &&& path@.len() == directory.len() + slash + display.len()
                &&& path@.take(directory.len() as int) == directory
                &&& path@.skip(directory.len() + slash) == display
                &&& path@[directory.len() + slash - 1] == 0x2f
            }
            &&& r is Err && runtime_dir is None ==> r->Err_0 is RuntimeDirNotSet
            &&& r is Err && runtime_dir is Some ==> r->Err_0 is RuntimeDirNotAbsolute
        }),
{
    if r is Ok && !is_absolute(display) {
        let directory = runtime_dir->0;
        let slash = if directory.last() == 0x2f { 0int } else { 1 };
        let path = r->Ok_0@;
        assert(path.take(directory.len() as int) =~= directory);
        assert(path.skip(directory.len() + slash) =~= display);
    }
}

} // verus!
