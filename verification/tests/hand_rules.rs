use rock_paper_scissors::hand::Beats;
use rock_paper_scissors::hand::Hand;
use rock_paper_scissors::particle::Particle;

const HANDS: [Hand; 3] = [Hand::Rock, Hand::Paper, Hand::Scissors];

#[test]
fn rock_beats_scissors() {
    assert_eq!(Hand::Rock.beats(), Hand::Scissors);
}

#[test]
fn scissors_beat_paper() {
    assert_eq!(Hand::Scissors.beats(), Hand::Paper);
}

#[test]
fn paper_beats_rock() {
    assert_eq!(Hand::Paper.beats(), Hand::Rock);
}

#[test]
fn beats_returns_after_three_steps_and_not_before() {
    for hand in HANDS {
        assert_ne!(hand.beats(), hand);
        assert_ne!(hand.beats().beats(), hand);
        assert_eq!(hand.beats().beats().beats(), hand);
    }
}

#[test]
fn no_two_hands_beat_the_same_hand() {
    for a in HANDS {
        for b in HANDS {
            if a != b {
                assert_ne!(a.beats(), b.beats());
            }
        }
    }
}

#[test]
fn of_two_different_hands_exactly_one_wins() {
    for a in HANDS {
        for b in HANDS {
            let a_wins = a.beats() == b;
            let b_wins = b.beats() == a;
            if a == b {
                assert!(!a_wins && !b_wins);
            } else {
                assert!(a_wins != b_wins);
            }
        }
    }
}

#[test]
fn from_roll_maps_zero_one_and_the_rest() {
    assert_eq!(Hand::from_roll(0), Hand::Rock);
    assert_eq!(Hand::from_roll(1), Hand::Paper);
    assert_eq!(Hand::from_roll(2), Hand::Scissors);
}

#[test]
fn from_roll_takes_any_other_number_for_scissors() {
    assert_eq!(Hand::from_roll(3), Hand::Scissors);
    assert_eq!(Hand::from_roll(-1), Hand::Scissors);
    assert_eq!(Hand::from_roll(i32::MAX), Hand::Scissors);
    assert_eq!(Hand::from_roll(i32::MIN), Hand::Scissors);
}

#[test]
fn defeated_particle_takes_the_winning_hand() {
    let mut particle = Particle { body: (1.5f64, -2.0f64), hand: Hand::Scissors };
    particle.handle_match(Hand::Rock);
    assert_eq!(particle.hand, Hand::Rock);
    assert_eq!(particle.body, (1.5, -2.0));
}

#[test]
fn winning_particle_keeps_its_hand() {
    let mut particle = Particle { body: 7u8, hand: Hand::Rock };
    particle.handle_match(Hand::Scissors);
    assert_eq!(particle.hand, Hand::Rock);
    assert_eq!(particle.body, 7);
}

#[test]
fn equal_hands_stay_as_they_are() {
    for hand in HANDS {
        let mut particle = Particle { body: (), hand };
        particle.handle_match(hand);
        assert_eq!(particle.hand, hand);
    }
}

#[test]
fn handle_match_follows_the_rule_for_every_pair() {
    for own in HANDS {
        for other in HANDS {
            let mut particle = Particle { body: 0i32, hand: own };
            particle.handle_match(other);
            let expected = if other.beats() == own { other } else { own };
            assert_eq!(particle.hand, expected);
        }
    }
}

#[test]
fn a_match_leaves_both_sides_with_the_same_hand() {
    for a in HANDS {
        for b in HANDS {
            let mut left = Particle { body: (), hand: a };
            let mut right = Particle { body: (), hand: b };
            left.handle_match(b);
            right.handle_match(a);
            assert_eq!(left.hand, right.hand);
            assert!(left.hand == a || left.hand == b);
        }
    }
}

#[test]
fn settling_one_side_first_gives_the_same_pair() {
    for a in HANDS {
        for b in HANDS {
            let mut left = Particle { body: (), hand: a };
            let mut right = Particle { body: (), hand: b };
            left.handle_match(b);
            right.handle_match(left.hand);
            let mut left_at_once = Particle { body: (), hand: a };
            let mut right_at_once = Particle { body: (), hand: b };
            left_at_once.handle_match(b);
            right_at_once.handle_match(a);
            assert_eq!(left.hand, left_at_once.hand);
            assert_eq!(right.hand, right_at_once.hand);
        }
    }
}

struct Coin {
    heads: bool,
}

impl Beats for Coin {
    fn beats(&self) -> Self {
        Coin { heads: !self.heads }
    }
}

fn third_in_line<T: Beats>(first: &T) -> T {
    first.beats().beats()
}

#[test]
fn beats_can_be_followed_through_the_trait() {
    assert_eq!(third_in_line(&Hand::Rock), Hand::Paper);
    assert_eq!(third_in_line(&Hand::Paper), Hand::Scissors);
    assert_eq!(third_in_line(&Hand::Scissors), Hand::Rock);
    assert!(third_in_line(&Coin { heads: true }).heads);
}
