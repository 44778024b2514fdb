use engine::triple_buffer::{TripleBuffer, TripleConfig, TripleError};

#[test]
fn test_bitwise() {
    // test conversions to and from the config using the bitwise conversions
    let first = TripleConfig::default();
    let first_num: u32 = first.into();
    let second: TripleConfig = first_num.into();

    assert_ne!(first_num, 0);
    assert_eq!(first, second);
}

#[test]
fn default_config_word_is_996() {
    let word: u32 = TripleConfig::default().into();
    assert_eq!(word, 996);
}

#[test]
fn word_fields_are_two_bits() {
    assert_eq!(TripleConfig::idx1(0b11_10_01_00_11), 3);
    assert_eq!(TripleConfig::idx2(0b11_10_01_00_11), 0);
    assert_eq!(TripleConfig::idx3(0b11_10_01_00_11), 1);
    assert_eq!(TripleConfig::read(0b11_10_01_00_11), 2);
    assert_eq!(TripleConfig::write(0b11_10_01_00_11), 3);
}

#[test]
fn read_lock_takes_newest_unwritten_state() {
    let cfg = TripleConfig { idx1: 2, idx2: 0, idx3: 1, read: 3, write: 2 };
    let next = cfg.acquire_read_step().unwrap();
    assert_eq!(next, TripleConfig { read: 0, ..cfg });
    assert!(next.acquire_read_step().is_none());
}

#[test]
fn write_lock_takes_oldest_unread_state() {
    let cfg = TripleConfig { idx1: 2, idx2: 0, idx3: 1, read: 1, write: 3 };
    let next = cfg.acquire_write_step().unwrap();
    assert_eq!(next, TripleConfig { write: 0, ..cfg });
    assert!(next.acquire_write_step().is_none());
}

#[test]
fn write_release_moves_state_to_front() {
    let cfg = TripleConfig { idx1: 0, idx2: 1, idx3: 2, read: 0, write: 2 };
    let next = cfg.clear_write_step(2).unwrap();
    assert_eq!(next, TripleConfig { idx1: 2, idx2: 0, idx3: 1, read: 0, write: 3 });
}

#[test]
fn read_then_write_on_fresh_buffer() {
    let (reader, writer) = TripleBuffer::new_copy(7u32);
    {
        let read = reader.get_read().unwrap();
        assert_eq!(*read.state().unwrap(), 7);
        // a second read lock is refused while the first is held
        assert!(matches!(reader.get_read(), Err(TripleError::ReadUpdate)));
        let mut write = writer.get_write().unwrap();
        *write.state_mut().unwrap() = 9;
        assert!(matches!(writer.get_write(), Err(TripleError::WriteUpdate)));
    }
    let read = reader.get_read().unwrap();
    assert_eq!(*read.state().unwrap(), 9);
}

#[test]
fn read_lock_on_a_word_naming_no_state_gives_its_field() {
    // idx1 = 3, idx2 = 1, idx3 = 2, read = 3, write = 0
    let word = std::sync::atomic::AtomicU32::new(3 | (1 << 2) | (2 << 4) | (3 << 6));
    assert_eq!(TripleConfig::acquire_read(&word).unwrap(), 3);
    // the read field is 3 again, so a second attempt gives the same
    assert_eq!(TripleConfig::acquire_read(&word).unwrap(), 3);
}

#[test]
fn write_release_of_any_state_keeps_the_others_in_order() {
    let cfg = TripleConfig { idx1: 0, idx2: 1, idx3: 2, read: 3, write: 3 };
    let next = cfg.clear_write_step(1).unwrap();
    assert_eq!(next, TripleConfig { idx1: 1, idx2: 0, idx3: 2, read: 3, write: 3 });
    let word = std::sync::atomic::AtomicU32::new(cfg.into());
    TripleConfig::clear_write(&word, 2);
    let after: TripleConfig = word.load(std::sync::atomic::Ordering::SeqCst).into();
    assert_eq!(after, TripleConfig { idx1: 2, idx2: 0, idx3: 1, read: 3, write: 3 });
}
