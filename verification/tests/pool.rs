use playground::error::Error;
use playground::pool::Pool;

#[test]
fn a_pool_hands_out_fresh_identifiers() {
    let mut pool = Pool::new(3);
    assert_eq!(pool.busy_count(), 0);
    assert_eq!(pool.acquire(), Ok(0));
    assert_eq!(pool.acquire(), Ok(1));
    assert_eq!(pool.acquire(), Ok(2));
    assert_eq!(pool.busy_count(), 3);
    assert!(pool.is_busy(0) && pool.is_busy(1) && pool.is_busy(2));
    assert!(!pool.is_busy(3));
}

#[test]
fn a_full_pool_fails_at_once() {
    let mut pool = Pool::new(2);
    assert_eq!(pool.acquire(), Ok(0));
    assert_eq!(pool.acquire(), Ok(1));
    assert_eq!(pool.acquire(), Err(Error::ResourcesExhausted));
    assert_eq!(pool.acquire(), Err(Error::ResourcesExhausted));
    assert_eq!(pool.busy_count(), 2);
}

#[test]
fn a_pool_without_slots_is_always_full() {
    let mut pool = Pool::new(0);
    assert_eq!(pool.acquire(), Err(Error::ResourcesExhausted));
    assert_eq!(pool.busy_count(), 0);
}

#[test]
fn a_released_slot_can_be_taken_again_under_a_new_identifier() {
    let mut pool = Pool::new(2);
    assert_eq!(pool.acquire(), Ok(0));
    assert_eq!(pool.acquire(), Ok(1));
    assert!(pool.release(0));
    assert_eq!(pool.busy_count(), 1);
    assert!(!pool.is_busy(0));
    assert!(pool.is_busy(1));
    assert_eq!(pool.acquire(), Ok(2));
    assert_eq!(pool.acquire(), Err(Error::ResourcesExhausted));
}

#[test]
fn releasing_twice_is_releasing_once() {
    let mut pool = Pool::new(2);
    assert_eq!(pool.acquire(), Ok(0));
    assert_eq!(pool.acquire(), Ok(1));
    assert!(pool.release(1));
    assert!(!pool.release(1));
    assert!(!pool.release(7));
    assert_eq!(pool.busy_count(), 1);
    assert!(pool.is_busy(0));
}
