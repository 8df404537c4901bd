use etcd::Error;
use etcd::WatchError;
use etcd::kv::WatchRace;

#[test]
fn watch_times_out_when_the_timer_fires_first() {
    let mut race: WatchRace<u32> = WatchRace::begin(true);
    assert!(!race.is_decided());
    race.on_timeout();
    assert!(race.is_decided());
    // The long poll loses the race; its late result must be discarded.
    race.on_outcome(Ok(42));
    assert_eq!(race.into_result(), Err(WatchError::Timeout));
}

#[test]
fn watch_resolves_when_the_response_arrives_first() {
    let mut race: WatchRace<u32> = WatchRace::begin(true);
    race.on_outcome(Ok(7));
    assert!(race.is_decided());
    // The timer loses the race; its firing changes nothing.
    race.on_timeout();
    assert_eq!(race.into_result(), Ok(7));
}

#[test]
fn watch_without_timer_stays_pending_until_the_poll_ends() {
    let mut race: WatchRace<u32> = WatchRace::begin(false);
    assert!(!race.is_decided());
    race.on_outcome(Err(vec![Error::Transport]));
    assert!(race.is_decided());
    assert_eq!(
        race.into_result(),
        Err(WatchError::Other(vec![Error::Transport]))
    );
}

#[test]
fn watch_failure_keeps_every_endpoint_error_in_order() {
    let mut race: WatchRace<u32> = WatchRace::begin(true);
    race.on_outcome(Err(vec![Error::Transport, Error::UnexpectedStatus(502)]));
    race.on_timeout();
    assert_eq!(
        race.into_result(),
        Err(WatchError::Other(vec![
            Error::Transport,
            Error::UnexpectedStatus(502)
        ]))
    );
}
