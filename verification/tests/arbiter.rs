use snake::heading::Heading;
use snake::heading::KeySet;
use snake::heading::resolve;

fn keys(left: bool, right: bool, up: bool, down: bool) -> KeySet {
    KeySet { left, right, up, down }
}

#[test]
fn opposite_of_each_heading() {
    assert_eq!(Heading::Up.opposite(), Heading::Down);
    assert_eq!(Heading::Down.opposite(), Heading::Up);
    assert_eq!(Heading::Left.opposite(), Heading::Right);
    assert_eq!(Heading::Right.opposite(), Heading::Left);
}

#[test]
fn opposite_twice_returns_the_heading() {
    for h in [Heading::Up, Heading::Down, Heading::Left, Heading::Right] {
        assert_eq!(h.opposite().opposite(), h);
    }
}

#[test]
fn left_beats_right_when_both_held() {
    assert_eq!(resolve(keys(true, true, false, false), Heading::Up), Heading::Left);
}

#[test]
fn up_beats_down_when_both_held() {
    assert_eq!(resolve(keys(false, false, true, true), Heading::Left), Heading::Up);
}

#[test]
fn no_keys_keeps_the_current_heading() {
    for h in [Heading::Up, Heading::Down, Heading::Left, Heading::Right] {
        assert_eq!(resolve(KeySet::none(), h), h);
    }
}

#[test]
fn reversal_is_refused_for_each_heading() {
    assert_eq!(resolve(keys(false, false, false, true), Heading::Up), Heading::Up);
    assert_eq!(resolve(keys(false, false, true, false), Heading::Down), Heading::Down);
    assert_eq!(resolve(keys(false, true, false, false), Heading::Left), Heading::Left);
    assert_eq!(resolve(keys(true, false, false, false), Heading::Right), Heading::Right);
}

#[test]
fn resolved_heading_is_never_the_opposite() {
    let headings = [Heading::Up, Heading::Down, Heading::Left, Heading::Right];
    let flags = [false, true];
    for h in headings {
        for l in flags {
            for r in flags {
                for u in flags {
                    for d in flags {
                        let next = resolve(keys(l, r, u, d), h);
                        assert_ne!(next, h.opposite());
                    }
                }
            }
        }
    }
}

#[test]
fn forbidden_candidate_is_skipped_in_priority_order() {
    // Right is forbidden while heading Left, so Up, the next held
    // candidate, wins.
    assert_eq!(resolve(keys(false, true, true, false), Heading::Left), Heading::Up);
    // Left is forbidden while heading Right, so Down wins over it.
    assert_eq!(resolve(keys(true, false, false, true), Heading::Right), Heading::Down);
}
