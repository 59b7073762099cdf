use ferro_noise::rng::{split_max, Xorshift, PCG};

#[test]
fn pcg_i8_generate_random() {
    let mut rand = PCG::default();
    let x = rand.next::<i8>();
    assert_eq!(x, 4);
}

#[test]
fn pcg_i16_generate_random() {
    let mut rand = PCG::default();
    let x = rand.next::<i16>();
    assert_eq!(x, 4);
}

#[test]
fn pcg_i32_generate_random() {
    let mut rand = PCG::default();
    let x = rand.next::<i32>();
    assert_eq!(x, -1065353212);
}

#[test]
fn pcg_i64_generate_random() {
    let mut rand = PCG::default();
    let x = rand.next::<i64>();
    assert_eq!(x, 1437742715042267140);
}

#[test]
fn pcg_u8_generate_random() {
    let mut rand = PCG::default();
    let x = rand.next::<u8>();
    assert_eq!(x, 4);
}

#[test]
fn pcg_u16_generate_random() {
    let mut rand = PCG::default();
    let x = rand.next::<u16>();
    assert_eq!(x, 4);
}

#[test]
fn pcg_u32_generate_random() {
    let mut rand = PCG::default();
    let x = rand.next::<u32>();
    assert_eq!(x, 3229614084);
}

#[test]
fn pcg_u64_generate_random() {
    let mut rand = PCG::default();
    let x = rand.next::<u64>();
    assert_eq!(x, 1437742715042267140);
}

#[test]
fn pcg_bool_generate_random() {
    let mut rand = PCG::default();
    let x = rand.next::<bool>();
    assert_eq!(x, true);
}

#[test]
fn xorshift_i8_generate_random() {
    let mut rand = Xorshift::default();
    let x = rand.next::<i8>();
    assert_eq!(x, -91);
}

#[test]
fn xorshift_i16_generate_random() {
    let mut rand = Xorshift::default();
    let x = rand.next::<i16>();
    assert_eq!(x, -15195);
}

#[test]
fn xorshift_i32_generate_random() {
    let mut rand = Xorshift::default();
    let x = rand.next::<i32>();
    assert_eq!(x, 1008649381);
}

#[test]
fn xorshift_i64_generate_random() {
    let mut rand = Xorshift::default();
    let x = rand.next::<i64>();
    assert_eq!(x, 1130587310604076197);
}

#[test]
fn xorshift_u8_generate_random() {
    let mut rand = Xorshift::default();
    let x = rand.next::<u8>();
    assert_eq!(x, 165);
}

#[test]
fn xorshift_u16_generate_random() {
    let mut rand = Xorshift::default();
    let x = rand.next::<u16>();
    assert_eq!(x, 50341);
}

#[test]
fn xorshift_u32_generate_random() {
    let mut rand = Xorshift::default();
    let x = rand.next::<u32>();
    assert_eq!(x, 1008649381);
}

#[test]
fn xorshift_u64_generate_random() {
    let mut rand = Xorshift::default();
    let x = rand.next::<u64>();
    assert_eq!(x, 1130587310604076197);
}

#[test]
fn xorshift_bool_generate_random() {
    let mut rand = Xorshift::default();
    let x = rand.next::<bool>();
    assert!(x);
}

#[test]
fn pcg_sequence_advances() {
    let mut rand = PCG::new(42);
    let a = rand.next_u64();
    let b = rand.next_u64();
    assert_ne!(a, b);
    let mut again = PCG::new(42);
    assert_eq!(again.next_u64(), a);
    assert_eq!(again.next_u64(), b);
}

#[test]
fn pcg_increment_changes_stream() {
    let mut a = PCG::new(42);
    let mut b = PCG::new_with_increment(42, 54654654654654);
    assert_ne!(a.next_u64(), b.next_u64());
    let mut c = PCG::new_with_multiplier(42, 987654321, 123456789);
    let mut d = PCG::new_with_multiplier(42, 987654321, 123456789);
    assert_eq!(c.next::<u32>(), d.next::<u32>());
}

#[test]
fn split_max_spreads_seed() {
    assert_ne!(split_max(0), 0);
    assert_ne!(split_max(1), split_max(2));
    let mut x = Xorshift::new(382548641);
    let mut y = Xorshift::default();
    assert_eq!(x.next_u64(), y.next_u64());
}
