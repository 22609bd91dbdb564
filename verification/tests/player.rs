use voice_relay::config::EnvConfig;
use voice_relay::player::{
    build_command_line, command_from_tokens, PlayAudioError, Player, PlayerConfig, ProcessOutput,
    SessionEvent, StopAudioError,
};

fn test_config() -> PlayerConfig {
    PlayerConfig {
        ahm_host: "127.0.0.1".to_owned(),
        ahm_port: 51325,
        player_start_delay: 250,
        player_command: "sh -c %f".to_owned(),
    }
}

fn exited(code: i32) -> SessionEvent {
    SessionEvent::ProcessExited(ProcessOutput {
        exit_code: Some(code),
        stdout: Vec::new(),
        stderr: Vec::new(),
    })
}

#[test]
fn second_acquire_is_busy_until_release() {
    let mut player = Player::new(&test_config());
    let lock = player.try_lock().expect("first acquisition failed");
    assert!(matches!(
        player.try_lock(),
        Err(PlayAudioError::AlreadyPlaying)
    ));
    assert!(matches!(
        player.try_lock(),
        Err(PlayAudioError::AlreadyPlaying)
    ));
    player
        .finish_playback(lock, exited(0))
        .expect("session should report success");
    player.try_lock().expect("slot should be free again");
}

#[test]
fn stop_without_session_is_already_stopped() {
    let mut player = Player::new(&test_config());
    assert_eq!(player.stop_playing(), Err(StopAudioError::AlreadyStopped));
    assert_eq!(player.stop_playing(), Err(StopAudioError::AlreadyStopped));
}

#[test]
fn exactly_one_of_two_stops_wins() {
    let mut player = Player::new(&test_config());
    let lock = player.try_lock().expect("acquisition failed");
    let stale = player.arm_cancel_signal(&lock);
    assert!(!stale);
    let first = player.stop_playing();
    let second = player.stop_playing();
    assert_eq!(first, Ok(()));
    assert_eq!(second, Err(StopAudioError::AlreadyStopped));
    player
        .finish_playback(lock, SessionEvent::Cancelled)
        .expect("cancelled session should report success");
}

#[test]
fn slot_is_free_after_any_session_end() {
    let mut player = Player::new(&test_config());

    // ends naturally, with a non-zero exit code (a warning, not a failure)
    let lock = player.try_lock().expect("acquisition failed");
    player.arm_cancel_signal(&lock);
    player
        .finish_playback(lock, exited(1))
        .expect("non-zero exit is still success");
    // ends cancelled
    let lock = player.try_lock().expect("slot should be free");
    player.arm_cancel_signal(&lock);
    player.stop_playing().expect("stop should win");
    player
        .finish_playback(lock, SessionEvent::Cancelled)
        .expect("cancelled session should report success");
    // ends on a spawn failure
    let lock = player.try_lock().expect("slot should be free");
    player.arm_cancel_signal(&lock);
    let err = player
        .finish_playback(
            lock,
            SessionEvent::SpawnFailed(std::io::Error::from(std::io::ErrorKind::NotFound)),
        )
        .expect_err("spawn failure is a session error");
    assert!(matches!(err, PlayAudioError::ChildProcessError(_)));

    player.try_lock().expect("slot should be free at the end");
}

#[test]
fn natural_completion_end_to_end() {
    let mut player = Player::new(&test_config());
    let lock = player.try_lock().expect("acquisition failed");
    let stale = player.arm_cancel_signal(&lock);
    assert!(!stale);
    let cl = build_command_line(player.player_command().as_str(), "/tmp/clip.wav")
        .expect("template should parse");
    assert_eq!(cl.program, "sh");
    assert_eq!(cl.args, vec!["-c".to_owned(), "/tmp/clip.wav".to_owned()]);
    player
        .finish_playback(lock, exited(0))
        .expect("exit code zero is success");
    // the slot is immediately free and no stop intent persists
    assert_eq!(player.stop_playing(), Err(StopAudioError::AlreadyStopped));
    player.try_lock().expect("second acquisition should succeed");
}

#[test]
fn cancelled_session_end_to_end() {
    let mut player = Player::new(&test_config());
    let lock = player.try_lock().expect("acquisition failed");
    player.arm_cancel_signal(&lock);
    // a stop issued while the session is running is observed
    player.stop_playing().expect("stop should win");
    // the session's race is decided by the cancellation, not an exit code
    player
        .finish_playback(lock, SessionEvent::Cancelled)
        .expect("cancellation is reported as success");
    assert_eq!(player.stop_playing(), Err(StopAudioError::AlreadyStopped));
    player.try_lock().expect("slot should be free");
}

#[test]
fn rejected_template_frees_slot_and_clears_signal() {
    let mut player = Player::new(&test_config());
    let lock = player.try_lock().expect("acquisition failed");
    let stale = player.arm_cancel_signal(&lock);
    assert!(!stale);
    assert!(matches!(
        build_command_line("sh -c 'unclosed", "/tmp/clip.wav"),
        Err(PlayAudioError::CommandParseError)
    ));
    let err = player
        .finish_playback(lock, SessionEvent::TemplateRejected)
        .expect_err("a rejected template is a session error");
    assert!(matches!(err, PlayAudioError::CommandParseError));
    // the session is over: no stop intent persists, and a stop request is
    // told there is nothing to stop
    assert_eq!(player.stop_playing(), Err(StopAudioError::AlreadyStopped));
    // the slot is free again and the next session starts with a fresh signal
    let lock = player.try_lock().expect("slot should be free");
    let stale = player.arm_cancel_signal(&lock);
    assert!(!stale);
    player
        .finish_playback(lock, SessionEvent::Cancelled)
        .expect("cancelled session should report success");
}

#[test]
fn empty_template_is_rejected() {
    assert!(matches!(
        build_command_line("", "/tmp/clip.wav"),
        Err(PlayAudioError::CommandParseError)
    ));
    assert!(matches!(
        command_from_tokens(&Vec::new(), "/tmp/clip.wav"),
        Err(PlayAudioError::CommandParseError)
    ));
}

#[test]
fn placeholder_substitution_is_per_token() {
    // only a whole token equal to the placeholder is substituted
    let cl = build_command_line("mpv --really-quiet --file=%f %f", "/a b/clip.wav")
        .expect("template should parse");
    assert_eq!(cl.program, "mpv");
    assert_eq!(
        cl.args,
        vec![
            "--really-quiet".to_owned(),
            "--file=%f".to_owned(),
            "/a b/clip.wav".to_owned(),
        ]
    );
    // the program token is never substituted
    let cl = build_command_line("%f %f", "/tmp/clip.wav").expect("template should parse");
    assert_eq!(cl.program, "%f");
    assert_eq!(cl.args, vec!["/tmp/clip.wav".to_owned()]);
    // quoting in the template is preserved by the shell-word split: a quoted
    // placeholder is still one token and is substituted
    let cl = build_command_line("sh -c '%f'", "/tmp/clip.wav").expect("template should parse");
    assert_eq!(cl.args, vec!["-c".to_owned(), "/tmp/clip.wav".to_owned()]);
    // a quoted word with a space stays one argument
    let cl = build_command_line("play 'two words' %f", "clip.wav").expect("template should parse");
    assert_eq!(cl.program, "play");
    assert_eq!(cl.args, vec!["two words".to_owned(), "clip.wav".to_owned()]);
}

#[test]
fn abnormal_exit_is_flagged_for_logging() {
    let output = ProcessOutput {
        exit_code: Some(1),
        stdout: b"testoutput".to_vec(),
        stderr: Vec::new(),
    };
    assert!(output.is_abnormal_exit());
    let output = ProcessOutput {
        exit_code: Some(0),
        stdout: Vec::new(),
        stderr: Vec::new(),
    };
    assert!(!output.is_abnormal_exit());
    let output = ProcessOutput {
        exit_code: None,
        stdout: Vec::new(),
        stderr: Vec::new(),
    };
    assert!(!output.is_abnormal_exit());
}

#[test]
fn player_config_is_drawn_from_environment_config() {
    let env = EnvConfig {
        ahm_host: "mixer.local".to_owned(),
        ahm_port: 4000,
        bot_token: "token".to_owned(),
        admin_users: vec![7],
        player_command: "mpv %f".to_owned(),
        player_start_delay: 125,
        data_dir: "./data".to_owned(),
    };
    let config = PlayerConfig::from(&env);
    assert_eq!(config.ahm_host, "mixer.local");
    assert_eq!(config.ahm_port, 4000);
    assert_eq!(config.player_start_delay, 125);
    assert_eq!(config.player_command, "mpv %f");

    let player = Player::new(&config);
    assert_eq!(player.ahm_host().as_str(), "mixer.local");
    assert_eq!(player.ahm_port(), 4000);
    assert_eq!(player.player_start_delay(), 125);
    assert_eq!(player.player_command().as_str(), "mpv %f");
}
