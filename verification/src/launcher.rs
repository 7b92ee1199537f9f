//! Starting and stopping the target application: assembling the launch
//! command, its wrapper selection and its environment-variable set from
//! the descriptor, and deciding the session-lifecycle transitions the
//! monitor reports. Spawning, waiting and event emission stay in the
//! unverified shell.

use vstd::prelude::*;
use vstd::string::*;
use crate::command::CommandPlan;
use crate::command::env_is;
use crate::config::Config;
use crate::config::KeyValue;
use crate::strutil::join_path;

verus! {

/// The library-routing rule that switches the graphics stack: route the
/// graphics libraries natively when the translation layer is enabled,
/// through the built-ins otherwise.
pub open spec fn dxvk_base_rule(enabled: bool) -> Seq<char> {
    if enabled {
        "d3d9,d3d10,d3d10_1,d3d10core,d3d11,dxgi=n"@
    } else {
        "d3d9,d3d10,d3d10_1,d3d10core,d3d11,dxgi=b"@
    }
}

/// The fixed helper-suppression rule, always appended last so no user
/// override can shadow it.
pub open spec fn helper_suppression_rule() -> Seq<char> {
    "winemenubuilder="@
}

/// The ordered override elements: the graphics-layer base rule, then the
/// user overrides as `key=value`, then the helper-suppression rule.
pub open spec fn override_elems(enabled: bool, user: Seq<KeyValue>) -> Seq<Seq<char>> {
    seq![dxvk_base_rule(enabled)] + user.map_values(|kv: KeyValue| kv.key@ + "="@ + kv.value@)
        + seq![helper_suppression_rule()]
}

/// Elements joined with a semicolon between neighbours.
pub open spec fn join_semi(elems: Seq<Seq<char>>) -> Seq<char>
    decreases elems.len(),
{
    if elems.len() == 0 {
        Seq::empty()
    } else if elems.len() == 1 {
        elems[0]
    } else {
        elems[0] + ";"@ + join_semi(elems.skip(1))
    }
}

/// Joining after appending one element appends a semicolon and that
/// element.
pub proof fn lemma_join_push(elems: Seq<Seq<char>>, x: Seq<char>)
    requires
        elems.len() > 0,
    ensures
        join_semi(elems.push(x)) == join_semi(elems) + ";"@ + x,
    decreases elems.len(),
{
    if elems.len() == 1 {
        assert(elems.push(x).skip(1) =~= seq![x]);
        assert(elems.push(x)[0] == elems[0]);
        assert(join_semi(seq![x]) == x);
        assert(join_semi(elems.push(x)) =~= elems[0] + ";"@ + x);
        assert(join_semi(elems) + ";"@ + x =~= elems[0] + ";"@ + x);
    } else {
        assert(elems.push(x).skip(1) =~= elems.skip(1).push(x));
        lemma_join_push(elems.skip(1), x);
        assert(elems.push(x)[0] == elems[0]);
        assert(join_semi(elems.push(x)) =~= join_semi(elems) + ";"@ + x);
    }
}

/// The helper-suppression rule stands last in the override elements, and
/// the assembled override string ends with a semicolon followed by that
/// rule — whatever the graphics-layer setting and however many user
/// overrides there are, in whatever order.
pub proof fn lemma_helper_suppression_last(enabled: bool, user: Seq<KeyValue>)
    ensures
        override_elems(enabled, user).len() >= 2,
        override_elems(enabled, user).last() == helper_suppression_rule(),
        join_semi(override_elems(enabled, user)) == join_semi(
            (seq![dxvk_base_rule(enabled)] + user.map_values(
                |kv: KeyValue| kv.key@ + "="@ + kv.value@,
            )),
        ) + ";"@ + helper_suppression_rule(),
        (";"@ + helper_suppression_rule()).is_suffix_of(
            join_semi(override_elems(enabled, user)),
        ),
{
    let front = seq![dxvk_base_rule(enabled)] + user.map_values(
        |kv: KeyValue| kv.key@ + "="@ + kv.value@,
    );
    assert(override_elems(enabled, user) =~= front.push(helper_suppression_rule()));
    lemma_join_push(front, helper_suppression_rule());
    let joined = join_semi(override_elems(enabled, user));
    let tail = ";"@ + helper_suppression_rule();
    assert(joined =~= join_semi(front) + tail);
    assert(joined.subrange(joined.len() - tail.len(), joined.len() as int) =~= tail);
}

/// The assembled override string for a descriptor: base rule, user
/// overrides in order, helper suppression last, semicolon-joined.
pub fn build_dll_overrides(enabled: bool, user: &Vec<KeyValue>) -> (r: String)
    ensures
        r@ == join_semi(override_elems(enabled, user@)),
{
    let ghost map_fn = |kv: KeyValue| kv.key@ + "="@ + kv.value@;
    let mut out = if enabled {
        String::from_str("d3d9,d3d10,d3d10_1,d3d10core,d3d11,dxgi=n")
    } else {
        String::from_str("d3d9,d3d10,d3d10_1,d3d10core,d3d11,dxgi=b")
    };
    let ghost base = seq![dxvk_base_rule(enabled)];
    proof {
        assert(join_semi(base) == dxvk_base_rule(enabled));
        assert(base + user@.subrange(0, 0).map_values(map_fn) =~= base);
    }
    let mut i: usize = 0;
    while i < user.len()
        invariant
            i <= user@.len(),
            out@ == join_semi(base + user@.subrange(0, i as int).map_values(map_fn)),
        decreases user@.len() - i,
    {
        let ghost elems = base + user@.subrange(0, i as int).map_values(map_fn);
        proof {
            lemma_join_push(elems, map_fn(user@[i as int]));
            assert(elems.push(map_fn(user@[i as int])) =~= base + user@.subrange(
                0,
                i as int + 1,
            ).map_values(map_fn));
        }
        out.append(";");
        out.append(user[i].key.as_str());
        out.append("=");
        out.append(user[i].value.as_str());
        proof {
            assert(out@ =~= join_semi(elems) + ";"@ + map_fn(user@[i as int]));
        }
        i += 1;
    }
    let ghost front = base + user@.map_values(map_fn);
    proof {
        assert(user@.subrange(0, user@.len() as int) =~= user@);
        lemma_join_push(front, helper_suppression_rule());
        assert(front.push(helper_suppression_rule()) =~= override_elems(enabled, user@));
    }
    out.append(";");
    out.append("winemenubuilder=");
    proof {
        assert(out@ =~= join_semi(front) + ";"@ + helper_suppression_rule());
    }
    out
}

/// A launch description: the program to spawn (the application command or
/// a wrapper), its arguments, the environment variables to add, and the
/// working directory.
#[derive(Debug)]
pub struct LaunchPlan {
    pub program: String,
    pub args: Vec<String>,
    pub envs: Vec<KeyValue>,
    pub working_dir: String,
}

/// The performance-overlay wrapper is used: it is configured and present
/// on the host.
pub open spec fn use_mangohud(c: Config, mangohud_available: bool) -> bool {
    mangohud_available && c.game.mangohud
}

/// The scheduling wrapper is used: the overlay is not, and the wrapper is
/// configured and present on the host.
pub open spec fn use_gamemode(c: Config, mangohud_available: bool, gamemode_available: bool) -> bool {
    !use_mangohud(c, mangohud_available) && c.wine.feral_gamemode && gamemode_available
}

/// The launch plan for a descriptor, given which optional wrapper
/// commands the host offers: wrapper and argument selection, the user
/// environment variables in order, then the prefix, the two
/// synchronisation flags as `"1"`/`"0"`, and the assembled
/// library-routing override string.
pub fn launch_game(c: &Config, gamemode_available: bool, mangohud_available: bool) -> (r:
    LaunchPlan)
    ensures
        use_mangohud(*c, mangohud_available) ==> (r.program@ == "mangohud"@ && r.args@.len() == 3
            && r.args@[0]@ == "gamemoderun"@ && r.args@[1]@ == c.wine.path@ + "/"@ + "wine"@
            && r.args@[2]@ == c.game.launcher@),
        use_gamemode(*c, mangohud_available, gamemode_available) ==> (r.program@ == "gamemoderun"@
            && r.args@.len() == 2 && r.args@[0]@ == c.wine.path@ + "/"@ + "wine"@ && r.args@[1]@
            == c.game.launcher@),
        !use_mangohud(*c, mangohud_available) && !use_gamemode(
            *c,
            mangohud_available,
            gamemode_available,
        ) ==> (r.program@ == c.wine.path@ + "/"@ + "wine"@ && r.args@.len() == 1 && r.args@[0]@
            == c.game.launcher@),
        r.envs@.len() == c.game.environment_variables@.len() + 4,
        forall|i: int|
            0 <= i < c.game.environment_variables@.len() ==> (r.envs@[i].key@
                == c.game.environment_variables@[i].key@ && r.envs@[i].value@
                == c.game.environment_variables@[i].value@),
        env_is(
            r.envs@[c.game.environment_variables@.len() as int],
            "WINEPREFIX"@,
            c.game.prefix@,
        ),
        env_is(
            r.envs@[c.game.environment_variables@.len() as int + 1],
            "WINEESYNC"@,
            if c.wine.esync {
                "1"@
            } else {
                "0"@
            },
        ),
        env_is(
            r.envs@[c.game.environment_variables@.len() as int + 2],
            "WINEFSYNC"@,
            if c.wine.fsync {
                "1"@
            } else {
                "0"@
            },
        ),
        env_is(
            r.envs@[c.game.environment_variables@.len() as int + 3],
            "WINEDLLOVERRIDES"@,
            join_semi(override_elems(c.dxvk.enabled, c.game.dll_overrides@)),
        ),
        r.working_dir@ == c.game.directory@,
{
    let wine_cmd = join_path(c.wine.path.as_str(), "wine");
    let overrides = build_dll_overrides(c.dxvk.enabled, &c.game.dll_overrides);

    let program: String;
    let mut args: Vec<String> = Vec::new();
    if mangohud_available && c.game.mangohud {
        program = String::from_str("mangohud");
        args.push(String::from_str("gamemoderun"));
        args.push(wine_cmd);
    } else if c.wine.feral_gamemode && gamemode_available {
        program = String::from_str("gamemoderun");
        args.push(wine_cmd);
    } else {
        program = wine_cmd;
    }
    args.push(c.game.launcher.clone());

    let mut envs: Vec<KeyValue> = Vec::new();
    let mut i: usize = 0;
    while i < c.game.environment_variables.len()
        invariant
            i <= c.game.environment_variables@.len(),
            envs@.len() == i,
            forall|j: int|
                0 <= j < i ==> (envs@[j].key@ == c.game.environment_variables@[j].key@
                    && envs@[j].value@ == c.game.environment_variables@[j].value@),
        decreases c.game.environment_variables@.len() - i,
    {
        envs.push(c.game.environment_variables[i].clone());
        i += 1;
    }
    envs.push(
        KeyValue {
            key: String::from_str("WINEPREFIX"),
            value: c.game.prefix.clone(),
        },
    );
    envs.push(
        KeyValue {
            key: String::from_str("WINEESYNC"),
            value: if c.wine.esync {
                String::from_str("1")
            } else {
                String::from_str("0")
            },
        },
    );
    envs.push(
        KeyValue {
            key: String::from_str("WINEFSYNC"),
            value: if c.wine.fsync {
                String::from_str("1")
            } else {
                String::from_str("0")
            },
        },
    );
    envs.push(KeyValue { key: String::from_str("WINEDLLOVERRIDES"), value: overrides });

    LaunchPlan { program, args, envs, working_dir: c.game.directory.clone() }
}

/// The session-lifecycle states the monitor reports.
#[derive(Debug, Clone, Copy, PartialEq, Eq, Structural)]
pub enum GameSessionState {
    Launching,
    Running,
    Stopped,
}

/// What the monitor can observe of a session.
#[derive(Debug, Clone, Copy, PartialEq, Eq, Structural)]
pub enum GameSessionEvent {
    /// The spawn itself failed.
    SpawnFailed,
    /// The spawned process exited. It is typically a thin wrapper, so the
    /// session is now considered running, not finished.
    WrapperExited,
    /// Every process sharing the prefix has quiesced.
    SessionQuiesced,
}

/// The next state of the session monitor and the state tag to emit, if
/// any.
pub open spec fn session_step_spec(s: GameSessionState, e: GameSessionEvent) -> (
    GameSessionState,
    Option<Seq<char>>,
) {
    match (s, e) {
        (GameSessionState::Launching, GameSessionEvent::SpawnFailed) => (
            GameSessionState::Stopped,
            Some("GameStopped"@),
        ),
        (GameSessionState::Launching, GameSessionEvent::WrapperExited) => (
            GameSessionState::Running,
            Some("GameRunning"@),
        ),
        (GameSessionState::Running, GameSessionEvent::SessionQuiesced) => (
            GameSessionState::Stopped,
            Some("GameStopped"@),
        ),
        _ => (s, None),
    }
}

/// One step of the session monitor: the two-phase wait first reports the
/// session running when the spawned wrapper exits, then reports it
/// stopped when the whole session quiesces; a failed spawn reports
/// stopped at once. Any other observation changes nothing.
pub fn game_session_step(s: &GameSessionState, e: &GameSessionEvent) -> (r: (
    GameSessionState,
    Option<String>,
))
    ensures
        r.0 == session_step_spec(*s, *e).0,
        r.1 is Some <==> session_step_spec(*s, *e).1 is Some,
        r.1 is Some ==> r.1->0@ == session_step_spec(*s, *e).1->0,
{
    match (s, e) {
        (GameSessionState::Launching, GameSessionEvent::SpawnFailed) => (
            GameSessionState::Stopped,
            Some(String::from_str("GameStopped")),
        ),
        (GameSessionState::Launching, GameSessionEvent::WrapperExited) => (
            GameSessionState::Running,
            Some(String::from_str("GameRunning")),
        ),
        (GameSessionState::Running, GameSessionEvent::SessionQuiesced) => (
            GameSessionState::Stopped,
            Some(String::from_str("GameStopped")),
        ),
        _ => (*s, None),
    }
}

/// The command that forcibly terminates every process sharing the
/// prefix: the layer's server control binary with its kill switch.
pub fn stop_game(c: &Config) -> (p: CommandPlan)
    ensures
        p.program@ == c.wine.path@ + "/"@ + "wineserver"@,
        p.args@.len() == 1,
        p.args@[0]@ == "-k"@,
        p.envs@.len() == 1,
        env_is(p.envs@[0], "WINEPREFIX"@, c.game.prefix@),
        p.cwd is None,
{
    let mut args: Vec<String> = Vec::new();
    args.push(String::from_str("-k"));
    let mut envs: Vec<KeyValue> = Vec::new();
    envs.push(KeyValue { key: String::from_str("WINEPREFIX"), value: c.game.prefix.clone() });
    CommandPlan {
        program: join_path(c.wine.path.as_str(), "wineserver"),
        args,
        envs,
        cwd: None,
    }
}

} // verus!
