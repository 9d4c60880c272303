use vstd::prelude::*;

verus! {

/// Size of the byte image of an initialized POSIX file-actions object on
/// the reference platform.
pub const FILE_ACTIONS_IMAGE_SIZE: usize = 80;

/// Size of the byte image of an initialized POSIX spawn-attributes
/// object on the reference platform.
pub const SPAWN_ATTRS_IMAGE_SIZE: usize = 336;

/// One remote spawn request, as carried by the wire envelope. The two
/// byte images are transported verbatim and reinterpreted in the server
/// as the platform's own structures; `argv` and `envp` arrive without
/// their terminating null, which the server appends before the spawn.
pub struct ApiPosixSpawnArgs {
    /// A filename to search on `PATH` when `search_path` is set, else a
    /// literal path.
    pub executable: String,
    /// Byte image of the client's file-actions object.
    pub file_actions: Vec<u8>,
    /// Byte image of the client's spawn-attributes object; carried, not
    /// interpreted.
    pub spawn_attrs: Vec<u8>,
    /// Argument vector of the target.
    pub argv: Vec<String>,
    /// `KEY=VALUE` environment of the target.
    pub envp: Vec<String>,
    /// Selects the path-searching spawn variant.
    pub search_path: bool,
    /// The client's PID in the shared PID namespace.
    pub client_pid: i32,
}

/// Why a request was rejected before any system call.
#[derive(Clone, Copy, PartialEq, Eq, Structural, Debug)]
pub enum RequestError {
    /// The file-actions image has the wrong size.
    BadFileActionsLen { len: usize },
    /// The spawn-attributes image has the wrong size.
    BadSpawnAttrsLen { len: usize },
    /// No process can have this PID.
    BadClientPid { pid: i32 },
}

/// A request the server may act on.
pub open spec fn wf_request(r: ApiPosixSpawnArgs) -> bool {
    &&& r.file_actions@.len() == FILE_ACTIONS_IMAGE_SIZE
    &&& r.spawn_attrs@.len() == SPAWN_ATTRS_IMAGE_SIZE
    &&& r.client_pid > 0
}

/// Checks a request before any system call; a rejection surfaces to the
/// client as a request-format error. Accepts exactly the well-formed
/// requests, and names the first fault in image order.
pub fn validate_request(r: &ApiPosixSpawnArgs) -> (res: Result<(), RequestError>)
    ensures
        res is Ok <==> wf_request(*r),
        r.file_actions@.len() != FILE_ACTIONS_IMAGE_SIZE ==> res == Err::<(), RequestError>(
            (RequestError::BadFileActionsLen { len: r.file_actions@.len() as usize }),
        ),
        r.file_actions@.len() == FILE_ACTIONS_IMAGE_SIZE && r.spawn_attrs@.len()
            != SPAWN_ATTRS_IMAGE_SIZE ==> res == Err::<(), RequestError>(
            (RequestError::BadSpawnAttrsLen { len: r.spawn_attrs@.len() as usize }),
        ),
        r.file_actions@.len() == FILE_ACTIONS_IMAGE_SIZE && r.spawn_attrs@.len()
            == SPAWN_ATTRS_IMAGE_SIZE && r.client_pid <= 0 ==> res == Err::<(), RequestError>(
            (RequestError::BadClientPid { pid: r.client_pid }),
        ),
{
    if r.file_actions.len() != FILE_ACTIONS_IMAGE_SIZE {
        Err(RequestError::BadFileActionsLen { len: r.file_actions.len() })
    } else if r.spawn_attrs.len() != SPAWN_ATTRS_IMAGE_SIZE {
        Err(RequestError::BadSpawnAttrsLen { len: r.spawn_attrs.len() })
    } else if r.client_pid <= 0 {
        Err(RequestError::BadClientPid { pid: r.client_pid })
    } else {
        Ok(())
    }
}

} // verus!
