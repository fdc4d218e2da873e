use vstd::prelude::*;

verus! {

/// The states a project goes through.
#[derive(Clone, Copy, Debug, PartialEq, Eq, Structural)]
pub enum ProjectState {
    Creating,
    Attaching,
    Starting,
    Started,
    Ready,
    Rebooting,
    Stopping,
    Stopped,
    Destroying,
    Destroyed,
    Errored,
}

/// What the proxy does with a request.
#[derive(Clone, Copy, Debug, PartialEq, Eq, Structural)]
pub enum Route {
    /// Forward to the project's deployer.
    Forward,
    /// 404: no such project.
    NotFound,
    /// 502: the project is not ready.
    NotReady,
    /// 503: the gateway is degraded.
    Degraded,
}

/// The project label of a host name: everything before its first dot, or the
/// whole name where it has none.
pub open spec fn label_of(host: Seq<char>) -> Seq<char> {
    if exists|i: int| 0 <= i < host.len() && host[i] == '.' {
        let i = choose|i: int|
            0 <= i < host.len() && host[i] == '.' && forall|j: int| 0 <= j < i ==> host[j] != '.';
        host.subrange(0, i)
    } else {
        host
    }
}

/// Splits a host name on its first dot and returns the part before it.
pub fn project_label(host: &str) -> (r: &str)
    ensures
        r@ == label_of(host@),
{
    let n = host.unicode_len();
    let mut i: usize = 0;
    while i < n
        invariant
            n == host@.len(),
            i <= n,
            forall|j: int| 0 <= j < i ==> host@[j] != '.',
        decreases n - i,
    {
        if host.get_char(i) == '.' {
            proof {
                let k = choose|k: int|
                    0 <= k < host@.len() && host@[k] == '.' && forall|j: int|
                        0 <= j < k ==> host@[j] != '.';
                assert(host@[k] == '.' && (k < i ==> false));
                assert(k == i);
            }
            return host.substring_char(0, i);
        }
        i = i + 1;
    }
    proof {
        assert(host@.subrange(0, n as int) == host@);
    }
    host.substring_char(0, n)
}

/// Where a request goes, given whether the gateway is degraded and the state
/// of the project it names, if that project exists: only a ready project gets
/// traffic.
pub fn route(degraded: bool, project: Option<ProjectState>) -> (r: Route)
    ensures
        r == Route::Forward <==> !degraded && project == Some(ProjectState::Ready),
        degraded ==> r == Route::Degraded,
        !degraded && project is None ==> r == Route::NotFound,
        !degraded && project is Some && project != Some(ProjectState::Ready) ==> r
            == Route::NotReady,
{
    if degraded {
        Route::Degraded
    } else {
        match project {
            None => Route::NotFound,
            Some(ProjectState::Ready) => Route::Forward,
            Some(_) => Route::NotReady,
        }
    }
}

} // verus!
