use rock_paper_scissors::game::{Hand, Outcome, Round, State};

#[test]
fn fresh_session_starts_at_round_zero() {
    let s = State::new();
    assert_eq!(s.num_rounds(), 0);
    assert_eq!(s.win_count(), 0);
    assert_eq!(s.draw_count(), 0);
    assert_eq!(s.loss_count(), 0);
    assert!(s.last_round().is_none());
    assert!(s.selected_round().is_none());
    assert!(s.last_human_vs_computer().is_none());
    let current = s.current_round().expect("a session always has a round");
    assert_eq!(current.i, 0);
    assert_eq!(current.num1(), 1);
    assert!(current.human.is_none());
}

#[test]
fn each_throw_moves_one_counter_and_grows_history() {
    let mut s = State::new();
    for n in 1..=5usize {
        let before = (s.win_count(), s.draw_count(), s.loss_count());
        s.human_throw(Hand::Paper);
        let after = (s.win_count(), s.draw_count(), s.loss_count());
        let moved = (after.0 - before.0) + (after.1 - before.1) + (after.2 - before.2);
        assert_eq!(moved, 1);
        assert_eq!(after.0 + after.1 + after.2, s.num_rounds());
        assert_eq!(s.num_rounds(), n);
        assert_eq!(s.current_round().unwrap().i, n);
    }
}

#[test]
fn mocked_scissors_against_rock_is_a_win() {
    let nonce = [9u8; 32];
    let opening = Round::from_parts(0, Hand::Scissors, &nonce);
    let mut s = State::starting_with(opening);
    s.human_throw(Hand::Rock);
    assert_eq!(s.win_count(), 1);
    assert_eq!(s.draw_count(), 0);
    assert_eq!(s.loss_count(), 0);
    assert_eq!(s.num_rounds(), 1);
    assert_eq!(s.history()[0].human, Some(Hand::Rock));
    assert_eq!(s.history()[0].computer, Hand::Scissors);
}

#[test]
fn scoreboard_follows_the_outcomes() {
    let hands = [Hand::Rock, Hand::Paper, Hand::Scissors, Hand::Rock, Hand::Paper];
    let mut s = State::new();
    let mut wins = 0usize;
    let mut draws = 0usize;
    let mut losses = 0usize;
    for h in hands {
        let opponent = s.current_round().unwrap().computer;
        match Hand::outcome(h, opponent) {
            Outcome::Win => wins += 1,
            Outcome::Draw => draws += 1,
            Outcome::Lose => losses += 1,
        }
        s.human_throw(h);
        assert_eq!(s.win_count(), wins);
        assert_eq!(s.draw_count(), draws);
        assert_eq!(s.loss_count(), losses);
    }
    assert_eq!(s.num_rounds(), hands.len());
}

#[test]
fn history_keeps_rounds_at_their_index() {
    let mut s = State::new();
    for _ in 0..4 {
        s.human_throw(Hand::Scissors);
    }
    assert_eq!(s.history().len(), 4);
    for (k, round) in s.history().iter().enumerate() {
        assert_eq!(round.i, k);
        assert!(round.human.is_some());
        assert!(round.verify_commitment());
    }
    let last = s.last_round().unwrap();
    assert_eq!(last.i, 3);
    let (human, _computer) = s.last_human_vs_computer().unwrap();
    assert_eq!(human, Hand::Scissors);
}

#[test]
fn selection_finds_the_round_and_a_throw_clears_it() {
    let mut s = State::new();
    for _ in 0..3 {
        s.human_throw(Hand::Rock);
    }
    s.set_selected_round(1);
    let inspected = s.selected_round().expect("index 1 is archived");
    assert_eq!(inspected.i, 1);
    s.human_throw(Hand::Paper);
    assert!(s.selected_round().is_none());
}

#[test]
fn out_of_range_selection_yields_none() {
    let mut s = State::new();
    s.human_throw(Hand::Rock);
    s.set_selected_round(5);
    assert!(s.selected_round().is_none());
}
