//! The client runtime's overall state, as it follows from whether the
//! render assets and the world are loaded and whether either failed.

use vstd::prelude::*;

verus! {

/// How far the client runtime has come.
#[derive(Debug, Clone, Copy, PartialEq, Eq, Structural)]
pub enum ClientRuntimeState {
    Inactive,
    AssetsReady,
    WorldReady,
    Ready,
    AssetError,
}

pub open spec fn client_state_name(state: ClientRuntimeState) -> Seq<char> {
    match state {
        ClientRuntimeState::Inactive => "inactive"@,
        ClientRuntimeState::AssetsReady => "assets-ready"@,
        ClientRuntimeState::WorldReady => "world-ready"@,
        ClientRuntimeState::Ready => "ready"@,
        ClientRuntimeState::AssetError => "asset-error"@,
    }
}

impl ClientRuntimeState {
    /// The name under which the state is reported.
    pub fn as_str(self) -> (r: &'static str)
        ensures
            r@ == client_state_name(self),
    {
        match self {
            ClientRuntimeState::Inactive => "inactive",
            ClientRuntimeState::AssetsReady => "assets-ready",
            ClientRuntimeState::WorldReady => "world-ready",
            ClientRuntimeState::Ready => "ready",
            ClientRuntimeState::AssetError => "asset-error",
        }
    }
}

impl Default for ClientRuntimeState {
    fn default() -> (r: Self)
        ensures
            r == ClientRuntimeState::Inactive,
    {
        ClientRuntimeState::Inactive
    }
}

/// The state that follows from the parts: an error in either wins, else
/// ready when both are loaded, else whichever one is.
pub open spec fn runtime_state(
    has_error: bool,
    assets_ready: bool,
    world_ready: bool,
) -> ClientRuntimeState {
    if has_error {
        ClientRuntimeState::AssetError
    } else if assets_ready && world_ready {
        ClientRuntimeState::Ready
    } else if assets_ready {
        ClientRuntimeState::AssetsReady
    } else if world_ready {
        ClientRuntimeState::WorldReady
    } else {
        ClientRuntimeState::Inactive
    }
}

/// The runtime's state, from whether the render assets or the world
/// reported an error and whether each is loaded.
pub fn client_runtime_state(
    render_error: bool,
    world_error: bool,
    assets_ready: bool,
    world_ready: bool,
) -> (r: ClientRuntimeState)
    ensures
        r == runtime_state(render_error || world_error, assets_ready, world_ready),
{
    if render_error || world_error {
        return ClientRuntimeState::AssetError;
    }
    if assets_ready && world_ready {
        ClientRuntimeState::Ready
    } else if assets_ready {
        ClientRuntimeState::AssetsReady
    } else if world_ready {
        ClientRuntimeState::WorldReady
    } else {
        ClientRuntimeState::Inactive
    }
}

/// The runtime's last error: the world's, else the render assets'.
pub fn client_runtime_last_error<'a>(world_error: Option<&'a str>, render_error: Option<&'a str>) -> (r:
    Option<&'a str>)
    ensures
        r == (if world_error is Some {
            world_error
        } else {
            render_error
        }),
{
    match world_error {
        Some(e) => Some(e),
        None => render_error,
    }
}

/// An error wins over any progress: whatever is loaded, a reported error
/// makes the state an asset error; and only an error does.
pub proof fn lemma_error_wins(has_error: bool, assets_ready: bool, world_ready: bool)
    ensures
        has_error ==> runtime_state(has_error, assets_ready, world_ready)
            == ClientRuntimeState::AssetError,
        !has_error ==> runtime_state(has_error, assets_ready, world_ready)
            != ClientRuntimeState::AssetError,
{
}

} // verus!
