use mcu_link::pool::{BufferPool, FRAME_CAPACITY};

#[test]
fn pool_hands_out_each_buffer_once() {
    let mut pool = BufferPool::new(3);
    assert_eq!(pool.available(), 3);
    let a = pool.acquire().unwrap();
    let b = pool.acquire().unwrap();
    let c = pool.acquire().unwrap();
    assert_eq!(pool.available(), 0);
    assert!(pool.acquire().is_none());
    pool.release(b);
    assert_eq!(pool.available(), 1);
    let d = pool.acquire().unwrap();
    assert!(pool.acquire().is_none());
    pool.release(a);
    pool.release(c);
    pool.release(d);
    assert_eq!(pool.available(), 3);
}

#[test]
fn empty_pool() {
    let mut pool = BufferPool::new(0);
    assert_eq!(pool.available(), 0);
    assert!(pool.acquire().is_none());
}

#[test]
fn acquired_buffer_is_empty_and_bounded() {
    let mut pool = BufferPool::new(1);
    let mut buf = pool.acquire().unwrap();
    assert!(buf.contents().is_empty());
    for i in 0..FRAME_CAPACITY {
        assert!(buf.push(i as u8));
    }
    assert!(!buf.push(7));
    assert_eq!(buf.contents().len(), FRAME_CAPACITY);
    pool.release(buf);
    let mut again = pool.acquire().unwrap();
    assert!(again.contents().is_empty());
    again.write_slice(b"S\n");
    assert_eq!(again.contents(), b"S\n");
}
