use vstd::prelude::*;

verus! {

/// The URI under which the renderer asks for the application's own root
/// document.
pub const VIRTUAL_HOST_ROOT: &'static str = "tauri://localhost";

/// Name of the directory, under the working directory, that is watched and
/// served.
pub const WATCH_DIR_NAME: &'static str = "watch-me";

/// File name of the root document inside the watched directory.
pub const ROOT_DOCUMENT: &'static str = "index.html";

/// The virtual-host root URI as characters.
pub open spec fn virtual_host_root() -> Seq<char> {
    "tauri://localhost"@
}

/// Where a resource request goes.
#[derive(Clone, Copy, Debug, PartialEq, Eq, Structural)]
pub enum Route {
    /// The request names the virtual host: its body is the root document
    /// as it is on disk now.
    RootDocument,
    /// Any other request: the response is left alone.
    PassThrough,
}

/// The root document could not be read when a request asked for it
/// (missing, no permission, an I/O error).
#[derive(Clone, Copy, Debug, PartialEq, Eq, Structural)]
pub struct AssetReadFailure;

/// What happened to a response body.
#[derive(Clone, Copy, Debug, PartialEq, Eq, Structural)]
pub enum Interception {
    /// The body now holds the bytes that were read.
    Substituted,
    /// The read failed; the body is unchanged and the failure is to be
    /// logged.
    ReadFailed,
    /// The request was not for the virtual host; the body is unchanged.
    PassedThrough,
}

/// The route of a request for `uri`: an exact match with the virtual-host
/// root, or nothing.
pub open spec fn route_of(uri: Seq<char>) -> Route {
    if uri == virtual_host_root() {
        Route::RootDocument
    } else {
        Route::PassThrough
    }
}

/// Routes a request by its URI: only the exact virtual-host root is
/// served from disk, everything else passes through.
pub fn route(uri: &str) -> (r: Route)
    ensures
        r == route_of(uri@),
{
    let given = uri.to_owned();
    let root = VIRTUAL_HOST_ROOT.to_owned();
    proof {
        reveal_strlit("tauri://localhost");
    }
    if given == root {
        Route::RootDocument
    } else {
        Route::PassThrough
    }
}

/// Puts the outcome of reading the root document into the response body.
/// Nothing is kept between calls: the body holds exactly the bytes of this
/// read, or stays as it was when the read failed.
pub fn substitute(body: &mut Vec<u8>, read: Result<Vec<u8>, AssetReadFailure>) -> (r: Interception)
    ensures
        match read {
            Ok(bytes) => r == Interception::Substituted && final(body)@ == bytes@,
            Err(_) => r == Interception::ReadFailed && final(body)@ == old(body)@,
        },
{
    match read {
        Ok(bytes) => {
            *body = bytes;
            Interception::Substituted
        },
        Err(_) => Interception::ReadFailed,
    }
}

/// Handles one intercepted request: `read` is the outcome of reading the
/// root document at the moment of the request, and is only looked at when
/// the request is for the virtual host.
pub fn intercept(uri: &str, body: &mut Vec<u8>, read: Result<Vec<u8>, AssetReadFailure>) -> (r: Interception)
    ensures
        route_of(uri@) == Route::PassThrough ==> r == Interception::PassedThrough && final(body)@ == old(body)@,
        route_of(uri@) == Route::RootDocument ==> match read {
            Ok(bytes) => r == Interception::Substituted && final(body)@ == bytes@,
            Err(_) => r == Interception::ReadFailed && final(body)@ == old(body)@,
        },
{
    match route(uri) {
        Route::RootDocument => substitute(body, read),
        Route::PassThrough => Interception::PassedThrough,
    }
}

} // verus!
