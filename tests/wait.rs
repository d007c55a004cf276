use bouyomi::error::MyError;
use bouyomi::wait::Waiter;

fn polls_with(limit: i16, replies: &[Result<bool, MyError>]) -> (usize, usize) {
    let mut w = Waiter::new(limit);
    let mut polls = 0;
    let mut sleeps = 0;
    while w.next_poll() {
        let reply = match &replies[polls] {
            Ok(b) => Ok(*b),
            Err(_) => Err(MyError::OtherError(String::from("failed"))),
        };
        polls += 1;
        if w.after_poll(reply) {
            sleeps += 1;
        }
    }
    assert!(w.is_finished());
    (polls, sleeps)
}

#[test]
fn wait_polls_at_most_limit_minus_one() {
    let all_playing: Vec<Result<bool, MyError>> = (0..10).map(|_| Ok(true)).collect();
    assert_eq!(polls_with(5, &all_playing), (4, 4));
    assert_eq!(polls_with(2, &all_playing), (1, 1));
}

#[test]
fn wait_without_room_makes_no_poll() {
    assert_eq!(polls_with(1, &[]), (0, 0));
    assert_eq!(polls_with(0, &[]), (0, 0));
    assert_eq!(polls_with(-3, &[]), (0, 0));
}

#[test]
fn wait_stops_at_first_not_playing_without_sleeping() {
    let replies = vec![Ok(true), Ok(true), Ok(false), Ok(true)];
    assert_eq!(polls_with(60, &replies), (3, 2));
    assert_eq!(polls_with(60, &[Ok(false)]), (1, 0));
}

#[test]
fn wait_stops_on_a_failed_poll() {
    let replies = vec![Ok(true), Err(MyError::OtherError(String::new()))];
    assert_eq!(polls_with(60, &replies), (2, 1));
}
