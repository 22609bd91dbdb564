//! The playback coordinator: a single-flight execution slot guaranteeing at
//! most one audio clip plays at a time, a one-shot cancellation signal
//! installed per session and exchanged atomically, and the expansion of the
//! configured command template into the player invocation.
//!
//! The caller drives the outside work (spawning the player process, racing
//! its completion against the cancellation signal, the timed start delay)
//! and reports back what happened; every decision — who may acquire the
//! slot, who wins a stop request, what outcome a session reports, how the
//! template is expanded — is taken here.

use vstd::prelude::*;
use crate::config::EnvConfig;

verus! {

/// Declares std::io::Error, carried opaquely through spawn-failure outcomes.
#[verifier::external_type_specification]
#[verifier::external_body]
pub struct ExIoError(std::io::Error);

/// Declares shell_words::ParseError, the error of shell-word splitting.
#[verifier::external_type_specification]
#[verifier::external_body]
pub struct ExParseError(shell_words::ParseError);

/// Why a playback attempt failed. A player process that runs and exits with
/// a non-zero code is not a failure: it is reported as success and left to
/// the caller to log.
#[derive(Debug)]
pub enum PlayAudioError {
    /// The slot is already occupied by another session.
    AlreadyPlaying,
    /// The player process could not be spawned or waited for.
    ChildProcessError(std::io::Error),
    /// The configured command template could not be tokenized.
    CommandParseError,
}

/// Why a stop request had no effect.
#[derive(Debug, PartialEq, Eq, Structural)]
pub enum StopAudioError {
    /// No session holds a cancellation signal: nothing is playing.
    AlreadyStopped,
}

/// The tokenization that shell-word splitting gives a command template:
/// `None` exactly when the template is rejected (an unmatched quote).
pub uninterp spec fn shell_split(s: Seq<char>) -> Option<Seq<Seq<char>>>;

/// Relies on shell_words::split: it tokenizes a command line by POSIX
/// shell-word rules, as a function of the input string alone, and its only
/// error is an unmatched quote.
#[verifier::external_body]
fn split_shell_words(s: &str) -> (r: Result<Vec<String>, shell_words::ParseError>)
    ensures
        (match r {
            Ok(tokens) => shell_split(s@) == Some(tokens.deep_view()),
            Err(_) => shell_split(s@) is None,
        }),
{
    shell_words::split(s)
}

/// Settings a coordinator is built from.
pub struct PlayerConfig {
    pub ahm_host: String,
    pub ahm_port: u16,
    pub player_start_delay: u64,
    pub player_command: String,
}

impl PlayerConfig {
    /// The player settings drawn from the environment configuration.
    pub fn from(env: &EnvConfig) -> (config: PlayerConfig)
        ensures
            config.ahm_host@ == env.ahm_host@,
            config.ahm_port == env.ahm_port,
            config.player_start_delay == env.player_start_delay,
            config.player_command@ == env.player_command@,
    {
        PlayerConfig {
            player_command: env.player_command.clone(),
            player_start_delay: env.player_start_delay,
            ahm_port: env.ahm_port,
            ahm_host: env.ahm_host.clone(),
        }
    }
}

/// The coordinator's abstract state: whether the slot is held, whether a
/// cancellation signal is installed, and the configured settings.
pub struct PlayerView {
    pub slot_occupied: bool,
    pub cancel_signal: bool,
    pub ahm_host: Seq<char>,
    pub ahm_port: u16,
    pub player_start_delay: u64,
    pub player_command: Seq<char>,
}

impl PlayerView {
    /// The same coordinator with the slot held or free.
    pub open spec fn with_slot(self, occupied: bool) -> PlayerView {
        PlayerView { slot_occupied: occupied, ..self }
    }

    /// The same coordinator with the cancellation signal installed or taken.
    pub open spec fn with_cancel(self, installed: bool) -> PlayerView {
        PlayerView { cancel_signal: installed, ..self }
    }
}

/// One attempted acquisition of the playback slot: it succeeds exactly when
/// the slot is free, and then holds the slot; a rejected attempt changes
/// nothing.
pub open spec fn spec_try_acquire(pre: PlayerView, post: PlayerView, acquired: bool) -> bool {
    if pre.slot_occupied {
        !acquired && post == pre
    } else {
        acquired && post == pre.with_slot(true)
    }
}

/// Installing a fresh cancellation signal at the start of a session; a
/// leftover signal is reported as stale, to be fired and discarded by the
/// caller with a warning.
pub open spec fn spec_arm_cancel(pre: PlayerView, post: PlayerView, stale: bool) -> bool {
    stale == pre.cancel_signal && post == pre.with_cancel(true)
}

/// One stop request: it wins exactly when a cancellation signal is
/// installed, and takes that signal; otherwise there was nothing to stop and
/// nothing changes.
pub open spec fn spec_request_stop(pre: PlayerView, post: PlayerView, stopped: bool) -> bool {
    if pre.cancel_signal {
        stopped && post == pre.with_cancel(false)
    } else {
        !stopped && post == pre
    }
}

/// A session ending on any path — a natural exit, a cancellation, a failed
/// spawn, or a rejected template: the slot is released and the cancellation
/// signal is cleared, so no stop intent persists into a later session.
pub open spec fn spec_finish(pre: PlayerView, post: PlayerView) -> bool {
    post == pre.with_cancel(false).with_slot(false)
}

/// Exclusive hold of the playback slot, created only by a successful
/// `try_lock` and given back when the session finishes.
pub struct PlayerLock {
    _token: (),
}

/// What the caller captured of the finished player process.
pub struct ProcessOutput {
    pub exit_code: Option<i32>,
    pub stdout: Vec<u8>,
    pub stderr: Vec<u8>,
}

impl ProcessOutput {
    /// Whether the process exited with a non-zero code — a warning-level
    /// condition, never a session failure.
    pub fn is_abnormal_exit(&self) -> (r: bool)
        ensures
            r == (self.exit_code matches Some(code) && code != 0),
    {
        match self.exit_code {
            Some(code) => code != 0,
            None => false,
        }
    }
}

/// How a session came to its end.
pub enum SessionEvent {
    /// The command template was rejected before any process was started.
    TemplateRejected,
    /// The player process could not be spawned.
    SpawnFailed(std::io::Error),
    /// The player process won the race and exited on its own.
    ProcessExited(ProcessOutput),
    /// The cancellation signal won the race; the process was killed.
    Cancelled,
}

/// The playback coordinator.
pub struct Player {
    slot_occupied: bool,
    cancel_signal: bool,
    ahm_host: String,
    ahm_port: u16,
    player_start_delay: u64,
    player_command: String,
}

impl View for Player {
    type V = PlayerView;

    closed spec fn view(&self) -> PlayerView {
        PlayerView {
            slot_occupied: self.slot_occupied,
            cancel_signal: self.cancel_signal,
            ahm_host: self.ahm_host@,
            ahm_port: self.ahm_port,
            player_start_delay: self.player_start_delay,
            player_command: self.player_command@,
        }
    }
}

impl Player {
    /// A fresh coordinator: slot free, no cancellation signal installed.
    pub fn new(player_config: &PlayerConfig) -> (player: Player)
        ensures
            player@ == (PlayerView {
                slot_occupied: false,
                cancel_signal: false,
                ahm_host: player_config.ahm_host@,
                ahm_port: player_config.ahm_port,
                player_start_delay: player_config.player_start_delay,
                player_command: player_config.player_command@,
            }),
    {
        Player {
            slot_occupied: false,
            cancel_signal: false,
            ahm_host: player_config.ahm_host.clone(),
            ahm_port: player_config.ahm_port,
            player_start_delay: player_config.player_start_delay,
            player_command: player_config.player_command.clone(),
        }
    }

    /// Non-blocking acquisition of the playback slot: rejected immediately
    /// with `AlreadyPlaying` while any session holds it.
    pub fn try_lock(&mut self) -> (r: Result<PlayerLock, PlayAudioError>)
        ensures
            spec_try_acquire(old(self)@, final(self)@, r is Ok),
            old(self)@.slot_occupied ==> (r matches Err(PlayAudioError::AlreadyPlaying)),
    {
        if self.slot_occupied {
            Err(PlayAudioError::AlreadyPlaying)
        } else {
            self.slot_occupied = true;
            Ok(PlayerLock { _token: () })
        }
    }

    /// Installs the session's fresh cancellation signal, telling the caller
    /// whether a stale one was still in place and must be fired and
    /// discarded with a warning.
    pub fn arm_cancel_signal(&mut self, _lock: &PlayerLock) -> (stale: bool)
        requires
            old(self)@.slot_occupied,
        ensures
            spec_arm_cancel(old(self)@, final(self)@, stale),
    {
        let stale = self.cancel_signal;
        self.cancel_signal = true;
        stale
    }

    /// A stop request: takes the installed cancellation signal, if any, so
    /// that exactly one of several concurrent requests wins; the rest are
    /// told there was nothing to stop.
    pub fn stop_playing(&mut self) -> (r: Result<(), StopAudioError>)
        ensures
            spec_request_stop(old(self)@, final(self)@, r is Ok),
            !old(self)@.cancel_signal ==> r == Err::<(), StopAudioError>(StopAudioError::AlreadyStopped),
    {
        if self.cancel_signal {
            self.cancel_signal = false;
            Ok(())
        } else {
            Err(StopAudioError::AlreadyStopped)
        }
    }

    /// Ends the session that holds `lock`, releasing the slot and clearing
    /// the cancellation signal on every path, and decides the reported
    /// outcome: cancellation and a process exit — whatever its code — are
    /// success; a rejected template or a failed spawn are the session's own
    /// errors.
    pub fn finish_playback(&mut self, lock: PlayerLock, event: SessionEvent) -> (r: Result<
        (),
        PlayAudioError,
    >)
        requires
            old(self)@.slot_occupied,
        ensures
            spec_finish(old(self)@, final(self)@),
            (match event {
                SessionEvent::TemplateRejected => r matches Err(PlayAudioError::CommandParseError),
                SessionEvent::SpawnFailed(err) => r matches Err(
                    PlayAudioError::ChildProcessError(e),
                ) && e == err,
                SessionEvent::ProcessExited(_) => r is Ok,
                SessionEvent::Cancelled => r is Ok,
            }),
    {
        let PlayerLock { _token } = lock;
        match event {
            SessionEvent::TemplateRejected => {
                self.cancel_signal = false;
                self.slot_occupied = false;
                Err(PlayAudioError::CommandParseError)
            },
            SessionEvent::SpawnFailed(err) => {
                self.cancel_signal = false;
                self.slot_occupied = false;
                Err(PlayAudioError::ChildProcessError(err))
            },
            SessionEvent::ProcessExited(_) => {
                self.cancel_signal = false;
                self.slot_occupied = false;
                Ok(())
            },
            SessionEvent::Cancelled => {
                self.cancel_signal = false;
                self.slot_occupied = false;
                Ok(())
            },
        }
    }

    /// The configured command template.
    pub fn player_command(&self) -> (r: &String)
        ensures
            r@ == self@.player_command,
    {
        &self.player_command
    }

    /// The configured wait before the player process is spawned.
    pub fn player_start_delay(&self) -> (r: u64)
        ensures
            r == self@.player_start_delay,
    {
        self.player_start_delay
    }

    /// The routing device's host.
    pub fn ahm_host(&self) -> (r: &String)
        ensures
            r@ == self@.ahm_host,
    {
        &self.ahm_host
    }

    /// The routing device's port.
    pub fn ahm_port(&self) -> (r: u16)
        ensures
            r == self@.ahm_port,
    {
        self.ahm_port
    }
}

/// The resolved player invocation: the program and its arguments after
/// placeholder substitution.
pub struct CommandLine {
    pub program: String,
    pub args: Vec<String>,
}

/// A template token after substitution: the placeholder token stands for the
/// audio file's path, every other token is kept as written.
pub open spec fn spec_subst_token(token: Seq<char>, path: Seq<char>) -> Seq<char> {
    if token == "%f"@ {
        path
    } else {
        token
    }
}

/// How a command line is assembled from the template's tokens: the first
/// token names the program — and is never substituted — and the remaining
/// tokens become the arguments, with each placeholder replaced by the path.
pub open spec fn spec_command_line(tokens: Seq<Seq<char>>, path: Seq<char>, cl: CommandLine) -> bool {
    &&& cl.program@ == tokens[0]
    &&& cl.args.deep_view() == tokens.skip(1).map_values(|t: Seq<char>| spec_subst_token(t, path))
}

/// Assembles the player invocation from already-split template tokens; an
/// empty token list leaves no program to run and is rejected.
pub fn command_from_tokens(tokens: &Vec<String>, path: &str) -> (r: Result<
    CommandLine,
    PlayAudioError,
>)
    ensures
        tokens@.len() == 0 ==> (r matches Err(PlayAudioError::CommandParseError)),
        tokens@.len() > 0 ==> (r matches Ok(cl) && spec_command_line(
            tokens.deep_view(),
            path@,
            cl,
        )),
{
    if tokens.len() == 0 {
        return Err(PlayAudioError::CommandParseError);
    }
    let program = tokens[0].clone();
    let placeholder: String = "%f".to_owned();
    let mut args: Vec<String> = Vec::new();
    let mut i: usize = 1;
    while i < tokens.len()
        invariant
            1 <= i <= tokens@.len(),
            placeholder@ == "%f"@,
            args.deep_view() =~= tokens.deep_view().subrange(1, i as int).map_values(
                |t: Seq<char>| spec_subst_token(t, path@),
            ),
        decreases tokens@.len() - i,
    {
        let token = &tokens[i];
        if *token == placeholder {
            args.push(path.to_owned());
        } else {
            args.push(token.clone());
        }
        proof {
            let dv = tokens.deep_view();
            let f = |t: Seq<char>| spec_subst_token(t, path@);
            assert(dv.subrange(1, i + 1) =~= dv.subrange(1, i as int).push(dv[i as int]));
            assert(dv.subrange(1, i as int).push(dv[i as int]).map_values(f) =~= dv.subrange(
                1,
                i as int,
            ).map_values(f).push(f(dv[i as int])));
            assert(args.deep_view() =~= dv.subrange(1, i + 1).map_values(f));
        }
        i = i + 1;
    }
    proof {
        assert(tokens.deep_view().subrange(1, tokens@.len() as int) =~= tokens.deep_view().skip(1));
    }
    Ok(CommandLine { program, args })
}

/// Expands the configured command template for one audio file: the template
/// is split into shell words, and each placeholder token among the arguments
/// is replaced by the file's path.
pub fn build_command_line(template: &str, path: &str) -> (r: Result<CommandLine, PlayAudioError>)
    ensures
        (match shell_split(template@) {
            Some(tokens) => {
                &&& tokens.len() == 0 ==> (r matches Err(PlayAudioError::CommandParseError))
                &&& tokens.len() > 0 ==> (r matches Ok(cl) && spec_command_line(tokens, path@, cl))
            },
            None => r matches Err(PlayAudioError::CommandParseError),
        }),
{
    let tokens = match split_shell_words(template) {
        Ok(tokens) => tokens,
        Err(_) => {
            return Err(PlayAudioError::CommandParseError);
        },
    };
    command_from_tokens(&tokens, path)
}

/// While a session is active, exactly one acquisition attempt succeeds: of
/// any run of attempts starting from a free slot, the first acquires the
/// slot and every later one is rejected, until the session releases it.
pub proof fn lemma_acquire_exactly_one(states: Seq<PlayerView>, acquired: Seq<bool>)
    requires
        states.len() == acquired.len() + 1,
        acquired.len() >= 1,
        !states[0].slot_occupied,
        forall|k: int| 0 <= k < acquired.len() ==> spec_try_acquire(
            states[k],
            states[k + 1],
            acquired[k],
        ),
    ensures
        acquired[0],
        forall|k: int| 1 <= k < acquired.len() ==> !acquired[k],
{
    assert(spec_try_acquire(states[0], states[1], acquired[0]));
    assert forall|k: int| 1 <= k < acquired.len() implies !acquired[k] by {
        lemma_slot_stays_occupied(states, acquired, k);
        assert(spec_try_acquire(states[k], states[k + 1], acquired[k]));
    }
}

proof fn lemma_slot_stays_occupied(states: Seq<PlayerView>, acquired: Seq<bool>, i: int)
    requires
        states.len() == acquired.len() + 1,
        !states[0].slot_occupied,
        forall|k: int| 0 <= k < acquired.len() ==> spec_try_acquire(
            states[k],
            states[k + 1],
            acquired[k],
        ),
        1 <= i < states.len(),
    ensures
        states[i].slot_occupied,
    decreases i,
{
    if i == 1 {
        assert(spec_try_acquire(states[0], states[1], acquired[0]));
    } else {
        lemma_slot_stays_occupied(states, acquired, i - 1);
        assert(spec_try_acquire(states[i - 1], states[i], acquired[i - 1]));
    }
}

/// A cancellation signal exists only while a session holds the slot: every
/// coordinator step — an acquisition attempt, the arming of a session's
/// signal (which only a slot holder may do), a stop request, or a session's
/// end — preserves that invariant.
pub proof fn lemma_signal_only_while_occupied(pre: PlayerView, post: PlayerView, flag: bool)
    requires
        pre.cancel_signal ==> pre.slot_occupied,
        spec_try_acquire(pre, post, flag) || (spec_arm_cancel(pre, post, flag)
            && pre.slot_occupied) || spec_request_stop(pre, post, flag) || spec_finish(pre, post),
    ensures
        post.cancel_signal ==> post.slot_occupied,
{
}

/// Of two stop requests raced against one active session, exactly one wins
/// and takes the cancellation signal; the other is told there was nothing to
/// stop and changes nothing.
pub proof fn lemma_stop_exactly_one(
    p0: PlayerView,
    p1: PlayerView,
    p2: PlayerView,
    first_won: bool,
    second_won: bool,
)
    requires
        p0.cancel_signal,
        spec_request_stop(p0, p1, first_won),
        spec_request_stop(p1, p2, second_won),
    ensures
        first_won,
        !second_won,
        p2 == p1,
{
}

/// A stop request issued after a session has installed its cancellation
/// signal and before the session cleared it is observed: it takes the
/// signal, and the cancelled session still releases the slot with no signal
/// left behind.
pub proof fn lemma_stop_reaches_active_session(
    p0: PlayerView,
    p1: PlayerView,
    p2: PlayerView,
    p3: PlayerView,
    stale: bool,
    stopped: bool,
)
    requires
        p0.slot_occupied,
        spec_arm_cancel(p0, p1, stale),
        spec_request_stop(p1, p2, stopped),
        spec_finish(p2, p3),
    ensures
        stopped,
        !p3.slot_occupied,
        !p3.cancel_signal,
{
}

/// As soon as a session ends — naturally, cancelled, or on one of its own
/// errors — the slot is free and the next acquisition attempt succeeds; the
/// cancellation signal is gone, so a stop request arriving between the two
/// sessions is told there is nothing to stop.
pub proof fn lemma_slot_free_after_finish(
    p0: PlayerView,
    p1: PlayerView,
    p2: PlayerView,
    q: PlayerView,
    acquired: bool,
    stopped: bool,
)
    requires
        spec_finish(p0, p1),
        spec_try_acquire(p1, p2, acquired),
        spec_request_stop(p1, q, stopped),
    ensures
        !p1.slot_occupied,
        !p1.cancel_signal,
        acquired,
        !stopped,
{
}

} // verus!
