use lander::rand::Random;

#[test]
fn cyclic_byte_stream() {
    let mut r = Random::from_bytes(vec![1, 2, 3]);
    assert_eq!(r.next(), 1);
    assert_eq!(r.next(), 2);
    assert_eq!(r.next(), 3);
    // the buffer is reused, not refreshed
    assert_eq!(r.next(), 1);
    assert_eq!(r.next(), 2);
}

#[test]
fn bit_draws() {
    let mut r = Random::from_bytes(vec![0b1011_0110, 0b1111_1111, 0xAB, 0x7F]);
    assert_eq!(r.nextbits(3), 0b110);
    assert_eq!(r.nextbits(0), 0); // draws nothing
    assert_eq!(r.nextbits(7), 0b111_1111);
    assert_eq!(r.nextbits(8), 0xAB); // a full byte for wide requests
    assert_eq!(r.nextbits(1), 1);
}

#[test]
fn bounded_draws() {
    // two bytes little-endian, scaled by max over 65535, rounded down
    let mut top = Random::from_bytes(vec![255, 255]);
    assert_eq!(top.rand(10), 10);
    let mut zero = Random::from_bytes(vec![0, 0]);
    assert_eq!(zero.rand(1_000), 0);
    let mut mid = Random::from_bytes(vec![255, 127]);
    // value 32767 of 65535: just under half
    assert_eq!(mid.rand(100), 49);
    let mut any = Random::from_bytes(vec![77, 200]);
    assert_eq!(any.rand(0), 0);
    assert_eq!(any.rand(-5), 0);
    // nothing was consumed by the refused draws
    assert_eq!(any.next(), 77);
}

#[test]
fn sign_draws() {
    let mut r = Random::from_bytes(vec![2, 3, 0, 255]);
    assert_eq!(r.sign(), 1);
    assert_eq!(r.sign(), -1);
    assert_eq!(r.sign(), 1);
    assert_eq!(r.sign(), -1);
}

#[test]
fn entropy_buffer_size() {
    let r = Random::new();
    assert_eq!(r.data.len(), 1024);
    assert_eq!(r.ptr, 0);
}
