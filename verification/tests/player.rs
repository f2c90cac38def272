use bcp::player::{engine_action, EngineAction, PlayerCommand};

#[test]
fn commands_need_a_loaded_track_except_play_and_shutdown() {
    assert_eq!(engine_action(false, &PlayerCommand::Play(vec![1, 2])), EngineAction::StartNew);
    assert_eq!(engine_action(true, &PlayerCommand::Play(vec![])), EngineAction::StartNew);
    assert_eq!(engine_action(false, &PlayerCommand::Pause), EngineAction::Ignore);
    assert_eq!(engine_action(true, &PlayerCommand::Pause), EngineAction::PauseLoaded);
    assert_eq!(engine_action(true, &PlayerCommand::Resume), EngineAction::ResumeLoaded);
    assert_eq!(engine_action(false, &PlayerCommand::Seek(5000)), EngineAction::Ignore);
    assert_eq!(engine_action(true, &PlayerCommand::Seek(5000)), EngineAction::SeekLoaded);
    assert_eq!(engine_action(false, &PlayerCommand::Shutdown), EngineAction::Stop);
}
