use cloud_waiter::guessing::{Game, Hint};

#[test]
fn secret_is_drawn_from_the_range() {
    for _ in 0..200 {
        let game = Game::new(1, 100);
        assert!(1 <= game.secret && game.secret < 100);
        assert_eq!(game.tries, 0);
    }
}

#[test]
fn range_of_one_number_leaves_no_choice() {
    assert_eq!(Game::new(41, 42), Game { secret: 41, tries: 0 });
    assert_eq!(Game::new(u32::MAX - 1, u32::MAX).secret, u32::MAX - 1);
}

#[test]
fn secret_varies() {
    let first = Game::new(0, u32::MAX).secret;
    let mut differs = false;
    for _ in 0..20 {
        if Game::new(0, u32::MAX).secret != first {
            differs = true;
        }
    }
    assert!(differs);
}

#[test]
fn guesses_are_answered_and_counted() {
    let mut game = Game { secret: 42, tries: 0 };
    assert_eq!(game.guess(Some(10)), Some(Hint::TooSmall));
    assert_eq!(game.guess(Some(41)), Some(Hint::TooSmall));
    assert_eq!(game.guess(Some(90)), Some(Hint::TooBig));
    assert_eq!(game.guess(Some(43)), Some(Hint::TooBig));
    assert_eq!(game.guess(Some(42)), Some(Hint::Win));
    assert_eq!(game, Game { secret: 42, tries: 5 });
}

#[test]
fn what_is_no_number_is_counted_without_a_hint() {
    let mut game = Game { secret: 42, tries: 3 };
    assert_eq!(game.guess(None), None);
    assert_eq!(game, Game { secret: 42, tries: 4 });
}

#[test]
fn guesses_at_the_limits() {
    let mut game = Game { secret: 0, tries: 0 };
    assert_eq!(game.guess(Some(0)), Some(Hint::Win));
    assert_eq!(game.guess(Some(u32::MAX)), Some(Hint::TooBig));
    let mut game = Game { secret: u32::MAX, tries: u32::MAX - 1 };
    assert_eq!(game.guess(Some(0)), Some(Hint::TooSmall));
    assert_eq!(game.tries, u32::MAX);
}
