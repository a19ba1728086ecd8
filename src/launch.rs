use vstd::prelude::*;
use crate::models::{Game, GameView, Settings, SettingsView};
use crate::paths::{file_name_of, join_path, joined, opt_view, parent_of, path_file_name, path_parent};

verus! {

/// The DLL overrides handed to the runtime: the Direct3D, shader compiler
/// and NVIDIA API libraries load their native builds, and the menu builder
/// is disabled.
pub const DLL_OVERRIDES: &'static str = "d3d10core,d3d11,d3d12,d3d12core,d3d8,d3d9,d3dcompiler_33,d3dcompiler_34,d3dcompiler_35,d3dcompiler_36,d3dcompiler_37,d3dcompiler_38,d3dcompiler_39,d3dcompiler_40,d3dcompiler_41,d3dcompiler_42,d3dcompiler_43,d3dcompiler_46,d3dcompiler_47,d3dx10,d3dx10_33,d3dx10_34,d3dx10_35,d3dx10_36,d3dx10_37,d3dx10_38,d3dx10_39,d3dx10_40,d3dx10_41,d3dx10_42,d3dx10_43,d3dx11_42,d3dx11_43,d3dx9_24,d3dx9_25,d3dx9_26,d3dx9_27,d3dx9_28,d3dx9_29,d3dx9_30,d3dx9_31,d3dx9_32,d3dx9_33,d3dx9_34,d3dx9_35,d3dx9_36,d3dx9_37,d3dx9_38,d3dx9_39,d3dx9_40,d3dx9_41,d3dx9_42,d3dx9_43,dxgi,nvapi,nvapi64,nvofapi64=n;winemenubuilder=";

/// Why a game could not be started.
pub enum LaunchError {
    /// The executable path has no parent directory or no file name.
    InvalidExePath,
    /// The process could not be spawned; carries the system's message.
    SpawnFailed(String),
}

/// Everything needed to spawn a game: the launcher binary, its single
/// argument, its working directory and its environment, in order.
pub struct LaunchPlan {
    pub program: String,
    pub arg: String,
    pub current_dir: String,
    pub env: Vec<(String, String)>,
}

/// What a `LaunchPlan` holds.
pub struct PlanView {
    pub program: Seq<char>,
    pub arg: Seq<char>,
    pub current_dir: Seq<char>,
    pub env: Seq<(Seq<char>, Seq<char>)>,
}

/// The views of a list of environment variables.
pub open spec fn env_view(env: Seq<(String, String)>) -> Seq<(Seq<char>, Seq<char>)> {
    env.map_values(|p: (String, String)| (p.0@, p.1@))
}

impl View for LaunchPlan {
    type V = PlanView;

    open spec fn view(&self) -> PlanView {
        PlanView {
            program: self.program@,
            arg: self.arg@,
            current_dir: self.current_dir@,
            env: env_view(self.env@),
        }
    }
}

/// The view of `DLL_OVERRIDES`.
pub open spec fn dll_overrides() -> Seq<char> {
    DLL_OVERRIDES@
}

/// The runtime's wine binary: `files/bin/wine` under the runtime root.
pub open spec fn wine_binary(proton_path: Seq<char>) -> Seq<char> {
    joined(joined(joined(proton_path, "files"@), "bin"@), "wine"@)
}

/// The launcher shim's entry point: `umu-run` under its root.
pub open spec fn launcher_binary(umu_path: Seq<char>) -> Seq<char> {
    joined(umu_path, "umu-run"@)
}

/// The environment a game runs with, in the order it is set.
pub open spec fn launch_env(game: GameView, settings: SettingsView) -> Seq<(Seq<char>, Seq<char>)> {
    seq![
        ("WINEPREFIX"@, game.wine_prefix),
        ("PROTONPATH"@, settings.proton_path),
        ("GAME_NAME"@, game.name),
        ("WINEDEBUG"@, "-all"@),
        ("DXVK_LOG_LEVEL"@, "debug"@),
        ("PROTON_LOG"@, "1"@),
        ("UMU_LOG"@, "debug"@),
        ("WINEARCH"@, "win64"@),
        ("WINE"@, wine_binary(settings.proton_path)),
        ("WINEESYNC"@, "0"@),
        ("WINEFSYNC"@, "1"@),
        ("WINE_FULLSCREEN_FSR"@, "1"@),
        ("DXVK_NVAPIHACK"@, "0"@),
        ("DXVK_ENABLE_NVAPI"@, "1"@),
        ("WINEDLLOVERRIDES"@, dll_overrides()),
        ("WINE_LARGE_ADDRESS_AWARE"@, "1"@),
        ("STORE"@, "none"@),
        ("GAMEID"@, "umu-default"@),
        ("PROTON_VERB"@, "run"@),
    ]
}

/// The plan for `game`, whose executable lies in `exe_dir` under the name
/// `exe_name`.
pub open spec fn planned(game: GameView, settings: SettingsView, exe_dir: Seq<char>, exe_name: Seq<char>) -> PlanView {
    PlanView {
        program: launcher_binary(settings.umu_path),
        arg: exe_name,
        current_dir: exe_dir,
        env: launch_env(game, settings),
    }
}

/// What launching gives, from the directory and the file name that the
/// executable path splits into.
pub open spec fn launch_result(game: GameView, settings: SettingsView, exe_dir: Option<Seq<char>>, exe_name: Option<Seq<char>>) -> Result<PlanView, ()> {
    match (exe_dir, exe_name) {
        (Some(d), Some(n)) => Ok(planned(game, settings, d, n)),
        _ => Err(()),
    }
}

/// The view of a launch result: the plan, or `()` for an invalid executable
/// path.
pub open spec fn result_view(r: Result<LaunchPlan, LaunchError>) -> Result<PlanView, ()> {
    match r {
        Ok(p) => Ok(p@),
        Err(LaunchError::InvalidExePath) => Err(()),
        Err(LaunchError::SpawnFailed(_)) => Err(()),
    }
}

/// One environment variable.
fn var(name: &str, value: String) -> (r: (String, String))
    ensures
        r.0@ == name@,
        r.1@ == value@,
{
    (String::from_str(name), value)
}

/// Builds the environment of `launch_env`.
fn build_env(game: &Game, settings: &Settings) -> (r: Vec<(String, String)>)
    ensures
        env_view(r@) == launch_env(game@, settings@),
{
    proof {
        reveal_strlit("files");
        reveal_strlit("bin");
        reveal_strlit("wine");
    }
    let files = join_path(settings.proton_path.as_str(), "files");
    let bin = join_path(files.as_str(), "bin");
    let wine = join_path(bin.as_str(), "wine");
    let mut env: Vec<(String, String)> = Vec::new();
    env.push(var("WINEPREFIX", game.wine_prefix.clone()));
    env.push(var("PROTONPATH", settings.proton_path.clone()));
    env.push(var("GAME_NAME", game.name.clone()));
    env.push(var("WINEDEBUG", String::from_str("-all")));
    env.push(var("DXVK_LOG_LEVEL", String::from_str("debug")));
    env.push(var("PROTON_LOG", String::from_str("1")));
    env.push(var("UMU_LOG", String::from_str("debug")));
    env.push(var("WINEARCH", String::from_str("win64")));
    env.push(var("WINE", wine));
    env.push(var("WINEESYNC", String::from_str("0")));
    env.push(var("WINEFSYNC", String::from_str("1")));
    env.push(var("WINE_FULLSCREEN_FSR", String::from_str("1")));
    env.push(var("DXVK_NVAPIHACK", String::from_str("0")));
    env.push(var("DXVK_ENABLE_NVAPI", String::from_str("1")));
    env.push(var("WINEDLLOVERRIDES", String::from_str(DLL_OVERRIDES)));
    env.push(var("WINE_LARGE_ADDRESS_AWARE", String::from_str("1")));
    env.push(var("STORE", String::from_str("none")));
    env.push(var("GAMEID", String::from_str("umu-default")));
    env.push(var("PROTON_VERB", String::from_str("run")));
    assert(env_view(env@) =~= launch_env(game@, settings@));
    env
}

/// Builds the launch plan from the executable's directory and file name;
/// either one missing makes the path invalid.
pub fn plan_with(game: &Game, settings: &Settings, exe_dir: Option<String>, exe_name: Option<String>) -> (r: Result<LaunchPlan, LaunchError>)
    ensures
        result_view(r) == launch_result(game@, settings@, opt_view(exe_dir), opt_view(exe_name)),
        r is Err ==> r->Err_0 is InvalidExePath,
{
    match (exe_dir, exe_name) {
        (Some(dir), Some(name)) => {
            proof {
                reveal_strlit("umu-run");
            }
            let program = join_path(settings.umu_path.as_str(), "umu-run");
            Ok(LaunchPlan { program, arg: name, current_dir: dir, env: build_env(game, settings) })
        },
        _ => Err(LaunchError::InvalidExePath),
    }
}

/// Plans the launch of `game`: the launcher shim runs with the executable's
/// file name as its argument, from the executable's directory, with the
/// runtime's environment. No file is looked at.
pub fn launch_plan(game: &Game, settings: &Settings) -> (r: Result<LaunchPlan, LaunchError>)
    ensures
        result_view(r) == launch_result(game@, settings@, parent_of(game.exe_path@), file_name_of(game.exe_path@)),
        r is Err ==> r->Err_0 is InvalidExePath,
{
    let dir = path_parent(game.exe_path.as_str());
    let name = path_file_name(game.exe_path.as_str());
    plan_with(game, settings, dir, name)
}

} // verus!
