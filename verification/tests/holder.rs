use signal_interner::src::Asrc;
use signal_interner::atomic_boxed::AtomicBox;
use signal_interner::holder::{AtomicArc, BlockHolder, UninitArray, BLOCK_SIZE};
use std::sync::Arc;

#[test]
fn test_holder() {
    let mut block: UninitArray<String, 32> = UninitArray::default();
    let nice = block.set(0, "hello".to_string());
    println!("{}", nice);
    assert_eq!(nice, "hello");
}

#[test]
fn uninit_array_set_and_get() {
    let mut block: UninitArray<u32, 4> = UninitArray::default();
    assert_eq!(block.get(2), None);
    block.set(2, 7);
    assert_eq!(block.get(2), Some(&7));
    assert_eq!(block.get(1), None);
    block.set(2, 9);
    assert_eq!(block.get(2), Some(&9));
}

#[test]
fn block_holder_insert_and_get() {
    let mut holder: BlockHolder<usize> = BlockHolder::new(4);
    assert_eq!(holder.size(), 0);
    assert_eq!(holder.capacity(), 4 * BLOCK_SIZE);
    for i in 0..100 {
        let r = holder.insert(i * 3);
        assert_eq!(*r, i * 3);
    }
    assert_eq!(holder.size(), 100);
    assert_eq!(holder.capacity(), 4 * BLOCK_SIZE);
    for i in 0..100 {
        assert_eq!(holder.get(i), Some(&(i * 3)));
    }
    assert_eq!(holder.get(100), None);
}

#[test]
fn block_holder_fills_every_slot() {
    let mut holder: BlockHolder<u8> = BlockHolder::new(2);
    for i in 0..64u32 {
        holder.insert((i % 200) as u8);
    }
    assert_eq!(holder.size(), holder.capacity());
    assert_eq!(holder.get(32), Some(&32));
    assert_eq!(holder.get(63), Some(&63));
    assert_eq!(holder.get(64), None);
}

#[test]
fn block_holder_without_blocks_has_no_room() {
    let holder: BlockHolder<u8> = BlockHolder::new(0);
    assert_eq!(holder.capacity(), 0);
    assert_eq!(holder.size(), 0);
    assert_eq!(holder.get(0), None);
}

#[test]
fn atomic_box_exchange_with_current_stamp() {
    let mut b = AtomicBox::new(5u32);
    let stamp = b.raw();
    assert_eq!(stamp, 0);
    let r = b.compare_exchange(stamp, Box::new(6));
    assert_eq!(r, Ok(Box::new(5)));
    assert_eq!(*b, 6);
    assert_eq!(b.raw(), 1);
}

#[test]
fn atomic_box_exchange_with_stale_stamp() {
    let mut b = AtomicBox::new(5u32);
    let stamp = b.raw();
    b.compare_exchange(stamp, Box::new(6)).unwrap();
    let r = b.compare_exchange(stamp, Box::new(8));
    assert_eq!(r, Err(Box::new(8)));
    assert_eq!(*b, 6);
    assert_eq!(b.raw(), 1);
}

#[test]
fn atomic_box_try_apply() {
    let mut b = AtomicBox::new(10i64);
    let r = b.try_apply(|v: &i64| *v * 2 + 1);
    assert_eq!(r, Ok(Box::new(10)));
    assert_eq!(*b, 21);
    assert_eq!(b.raw(), 1);
}

#[test]
fn atomic_arc_try_chain() {
    let mut a = AtomicArc::new(3u32);
    let r = a.try_chain(|last: Arc<u32>| *last + 4);
    assert_eq!(r, Ok(Arc::new(3)));
    let r = a.try_chain(|last: Arc<u32>| *last * 10);
    assert_eq!(r, Ok(Arc::new(7)));
}

#[test]
fn block_holder_capacity_whole_blocks() {
    let mut holder: BlockHolder<u32> = BlockHolder::new(3);
    for i in 0..70u32 {
        holder.insert(i);
        assert!(holder.size() <= holder.capacity());
        assert_eq!(holder.capacity() % BLOCK_SIZE, 0);
    }
    assert_eq!(holder.capacity(), 96);
}

#[test]
fn block_holder_chain_starts_with_one_block() {
    let mut holder: BlockHolder<u32> = BlockHolder::new(1);
    assert_eq!(holder.current().depth(), 0);
    assert!(holder.current().previous().is_none());
    holder.insert(1);
    assert_eq!(holder.current().depth(), 0);
    assert!(holder.current().previous().is_none());
}

#[test]
fn uninit_array_last_slot() {
    let mut block: UninitArray<u8, 32> = UninitArray::default();
    block.set(31, 5);
    assert_eq!(block.get(31), Some(&5));
    assert_eq!(block.get(30), None);
}

#[test]
fn asrc_try_replace() {
    let mut a = Asrc::new(5u32);
    let r = a.try_replace(|last: Arc<u32>| *last * 3);
    assert_eq!(r, Ok(Arc::new(5)));
    let r = a.try_replace(|last: Arc<u32>| *last + 1);
    assert_eq!(r, Ok(Arc::new(15)));
}
