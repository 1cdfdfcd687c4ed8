use ss::pool::make_connection::MakeWebsocketStreamConnection;
use ss::pool::{settle, Checkout, Inner, Placement, Settled, Winner};
use tokio::sync::oneshot;

fn wait(pool: &mut Inner<Vec<u8>>) -> oneshot::Receiver<Vec<u8>> {
    match pool.checkout() {
        Checkout::Wait(rx) => rx,
        Checkout::Ready(conn) => panic!("unexpected idle connection {:?}", conn),
    }
}

fn ready(pool: &mut Inner<Vec<u8>>) -> Vec<u8> {
    match pool.checkout() {
        Checkout::Ready(conn) => conn,
        Checkout::Wait(_) => panic!("nothing idle"),
    }
}

#[test]
fn a_new_pool_is_empty() {
    let pool: Inner<u32> = Inner::new(10);
    assert_eq!(pool.idle_len(), 0);
    assert_eq!(pool.waiting(), 0);
    assert_eq!(pool.max_idle(), 10);
}

#[test]
fn test_pool() {
    let mut pool: Inner<Vec<u8>> = Inner::new(10);
    let rx = wait(&mut pool);
    let mut conn: Vec<u8> = Vec::new();
    conn.extend_from_slice(b"hello world\n");
    drop(rx);
    assert_eq!(pool.put(conn), Placement::Idle);
    assert_eq!(ready(&mut pool), b"hello world\n".to_vec());
    drop(pool);
}

#[test]
fn idle_never_exceeds_the_bound() {
    for bound in 0..4usize {
        for returned in 0..8usize {
            let mut pool: Inner<Vec<u8>> = Inner::new(bound);
            let mut dropped = 0;
            for i in 0..returned {
                match pool.put(vec![i as u8]) {
                    Placement::Idle => assert!(i < bound),
                    Placement::Dropped => {
                        assert!(i >= bound);
                        dropped += 1;
                    }
                    other => panic!("unexpected {:?}", other),
                }
                assert!(pool.idle_len() <= bound);
            }
            assert_eq!(pool.idle_len(), returned.min(bound));
            assert_eq!(dropped, returned - returned.min(bound));
        }
    }
}

#[test]
fn five_returns_into_a_bound_of_two() {
    let mut pool: Inner<Vec<u8>> = Inner::new(2);
    let placed: Vec<Placement> = (0..5u8).map(|i| pool.put(vec![i])).collect();
    assert_eq!(
        placed,
        vec![
            Placement::Idle,
            Placement::Idle,
            Placement::Dropped,
            Placement::Dropped,
            Placement::Dropped
        ]
    );
    assert_eq!(pool.idle_len(), 2);
    assert_eq!(ready(&mut pool), vec![1]);
    assert_eq!(ready(&mut pool), vec![0]);
    assert_eq!(pool.idle_len(), 0);
}

#[test]
fn a_waiter_gets_the_returned_connection() {
    let mut pool: Inner<Vec<u8>> = Inner::new(4);
    let mut rx = wait(&mut pool);
    assert_eq!(pool.waiting(), 1);
    assert_eq!(pool.put(vec![7]), Placement::HandedOff { skipped: 0 });
    assert_eq!(rx.try_recv().unwrap(), vec![7]);
    assert_eq!(pool.idle_len(), 0);
    assert_eq!(pool.waiting(), 0);
}

#[test]
fn a_canceled_waiter_is_skipped() {
    let mut pool: Inner<Vec<u8>> = Inner::new(4);
    let gone = wait(&mut pool);
    let mut live = wait(&mut pool);
    let mut later = wait(&mut pool);
    drop(gone);
    assert_eq!(pool.waiting(), 3);
    assert_eq!(pool.put(vec![1]), Placement::HandedOff { skipped: 1 });
    assert_eq!(live.try_recv().unwrap(), vec![1]);
    assert!(later.try_recv().is_err());
    assert_eq!(pool.waiting(), 1);
    assert_eq!(pool.idle_len(), 0);
    assert_eq!(pool.put(vec![2]), Placement::HandedOff { skipped: 0 });
    assert_eq!(later.try_recv().unwrap(), vec![2]);
}

#[test]
fn a_closed_waiter_is_skipped() {
    let mut pool: Inner<Vec<u8>> = Inner::new(4);
    let mut closed = wait(&mut pool);
    closed.close();
    assert_eq!(pool.put(vec![1]), Placement::Idle);
    assert!(closed.try_recv().is_err());
    assert_eq!(pool.waiting(), 0);
    assert_eq!(pool.idle_len(), 1);
}

#[test]
fn when_every_waiter_is_gone_the_connection_idles_or_drops() {
    let mut pool: Inner<Vec<u8>> = Inner::new(1);
    for _ in 0..3 {
        drop(wait(&mut pool));
    }
    assert_eq!(pool.put(vec![1]), Placement::Idle);
    assert_eq!(pool.waiting(), 0);
    assert_eq!(pool.idle_len(), 1);

    let mut pool: Inner<Vec<u8>> = Inner::new(0);
    for _ in 0..3 {
        drop(wait(&mut pool));
    }
    assert_eq!(pool.put(vec![1]), Placement::Dropped);
    assert_eq!(pool.waiting(), 0);
    assert_eq!(pool.idle_len(), 0);
}

#[test]
fn a_returned_connection_is_leased_again() {
    let mut pool: Inner<Vec<u8>> = Inner::new(10);
    let first = wait(&mut pool);
    let built = vec![42];
    drop(first);
    assert_eq!(pool.put(built), Placement::Idle);
    assert_eq!(ready(&mut pool), vec![42]);
    assert_eq!(pool.idle_len(), 0);
}

#[test]
fn the_first_release_serves_the_oldest_waiter() {
    let mut pool: Inner<Vec<u8>> = Inner::new(1);
    let mut oldest = wait(&mut pool);
    let mut middle = wait(&mut pool);
    let mut newest = wait(&mut pool);
    assert_eq!(pool.put(vec![1]), Placement::HandedOff { skipped: 0 });
    assert_eq!(oldest.try_recv().unwrap(), vec![1]);
    assert!(middle.try_recv().is_err());
    assert_eq!(pool.put(vec![2]), Placement::HandedOff { skipped: 0 });
    assert_eq!(middle.try_recv().unwrap(), vec![2]);
    assert_eq!(pool.put(vec![3]), Placement::HandedOff { skipped: 0 });
    assert_eq!(newest.try_recv().unwrap(), vec![3]);
    assert_eq!(pool.put(vec![4]), Placement::Idle);
    assert_eq!(pool.put(vec![5]), Placement::Dropped);
    assert_eq!(pool.idle_len(), 1);
}

#[test]
fn nobody_waits_while_something_is_idle() {
    let mut pool: Inner<Vec<u8>> = Inner::new(2);
    pool.put(vec![1]);
    pool.put(vec![2]);
    assert_eq!(ready(&mut pool), vec![2]);
    assert_eq!(pool.waiting(), 0);
    assert_eq!(ready(&mut pool), vec![1]);
    let _rx = wait(&mut pool);
    assert_eq!(pool.waiting(), 1);
    assert_eq!(pool.idle_len(), 0);
}

#[test]
fn the_race_settles() {
    let out: Settled<u8, &str> = settle(Winner::Builder(Ok(1)), true);
    assert!(matches!(out, Settled::Lease { conn: 1, detach_builder: false }));
    let out: Settled<u8, &str> = settle(Winner::Builder(Err("refused")), true);
    assert!(matches!(out, Settled::BuilderFailed("refused")));
    let out: Settled<u8, &str> = settle(Winner::Waiter(Ok(2)), true);
    assert!(matches!(out, Settled::Lease { conn: 2, detach_builder: true }));
    let out: Settled<u8, &str> = settle(Winner::Waiter(Ok(3)), false);
    assert!(matches!(out, Settled::Lease { conn: 3, detach_builder: false }));

    let out: Settled<u8, &str> = settle(Winner::Waiter(Err(gone_error())), true);
    assert!(matches!(out, Settled::WaiterFailed(_)));
}

fn gone_error() -> oneshot::error::RecvError {
    let (tx, rx) = oneshot::channel::<u8>();
    drop(tx);
    tokio::runtime::Builder::new_current_thread().build().unwrap().block_on(rx).unwrap_err()
}

#[test]
fn the_maker_keeps_what_it_was_given() {
    let mt = MakeWebsocketStreamConnection::new("wss://proxy.example/".to_string(), "s3".to_string());
    assert_eq!(mt.server_url.as_str(), "wss://proxy.example/");
    assert_eq!(mt.authorization.as_str(), "s3");
    let copy = mt.clone();
    assert_eq!(copy.server_url, mt.server_url);
    assert_eq!(copy.authorization, mt.authorization);
}
