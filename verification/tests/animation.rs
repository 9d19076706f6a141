use bevy_tutorial::{CharacterSheet, FrameAnimation, GameState};

#[test]
fn bat_frames_sit_in_fifth_row() {
    let sheet = CharacterSheet::new();
    assert_eq!(sheet.bat_frames, [51, 52, 53]);
}

#[test]
fn bat_animation_starts_on_first_frame() {
    let animation = CharacterSheet::new().bat_animation();
    assert_eq!(animation.frames(), &[51, 52, 53]);
    assert_eq!(animation.current_frame(), 0);
    assert_eq!(animation.sprite_index(), 51);
}

#[test]
fn advancing_cycles_through_frames() {
    let mut animation = CharacterSheet::new().bat_animation();
    assert_eq!(animation.advance_frame(), 52);
    assert_eq!(animation.advance_frame(), 53);
    assert_eq!(animation.advance_frame(), 51);
    assert_eq!(animation.current_frame(), 0);
}

#[test]
fn single_frame_animation_stays_put() {
    let mut animation = FrameAnimation::new(vec![7]);
    assert_eq!(animation.advance_frame(), 7);
    assert_eq!(animation.current_frame(), 0);
}

#[test]
fn game_states_compare() {
    assert_ne!(GameState::StartMenu, GameState::Combat);
    assert_eq!(GameState::Overworld, GameState::Overworld);
}
