use byteorder::{ByteOrder, LittleEndian};
use emscripten_env::layout::{compute_layout, MemoryLayout};
use emscripten_env::memory::{emscripten_set_up_memory, initialize_memory};

fn checksum(bytes: &[u8]) -> u64 {
    bytes.iter().enumerate().fold(0u64, |acc, (i, b)| acc.wrapping_mul(31).wrapping_add((*b as u64) ^ (i as u64)))
}

fn patterned(len: usize) -> Vec<u8> {
    (0..len).map(|i| (i * 7 + 3) as u8).collect()
}

#[test]
fn writes_dynamic_base_at_dynamictop_ptr() {
    let layout = compute_layout(215536);
    let mut mem = patterned(216624 + 64);
    let before = mem.clone();
    initialize_memory(&mut mem, &layout);
    assert_eq!(&mem[216624..216628], &[0x40, 0x4e, 0x53, 0x00]);
    assert_eq!(LittleEndian::read_u32(&mem[216624..216628]), 5459520);
    assert_eq!(checksum(&mem[..216624]), checksum(&before[..216624]));
    assert_eq!(checksum(&mem[216628..]), checksum(&before[216628..]));
    assert_eq!(mem.len(), before.len());
}

#[test]
fn writes_at_the_very_end() {
    let layout = MemoryLayout { dynamictop_ptr: 12, stacktop: 16, stack_max: 32, dynamic_base: 0x0102_0304 };
    let mut mem = vec![0xaa; 16];
    initialize_memory(&mut mem, &layout);
    assert_eq!(mem[..12].to_vec(), vec![0xaa; 12]);
    assert_eq!(&mem[12..], &[0x04, 0x03, 0x02, 0x01]);
}

#[test]
fn initialising_twice_is_the_same() {
    let layout = compute_layout(1000);
    let mut once = patterned(4096);
    initialize_memory(&mut once, &layout);
    let mut twice = once.clone();
    initialize_memory(&mut twice, &layout);
    assert_eq!(once, twice);
}

#[test]
fn default_set_up() {
    let mut mem = vec![0u8; 216628];
    emscripten_set_up_memory(&mut mem);
    assert_eq!(LittleEndian::read_u32(&mem[216624..]), 5459520);
    assert!(mem[..216624].iter().all(|b| *b == 0));
}
