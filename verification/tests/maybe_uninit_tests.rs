use layout_wrappers::maybe_uninit::{AsMaybeUninit, MaybeUninit, RawSlot};

#[test]
fn write_then_assume_init() {
    let mut m = MaybeUninit::<u64>::uninit();
    m.write(0x0123_4567_89ab_cdef);
    assert_eq!(m.assume_init(), 0x0123_4567_89ab_cdef);

    let mut s = MaybeUninit::<String>::uninit();
    s.write(String::from("hello"));
    assert_eq!(s.assume_init(), "hello");
}

#[test]
fn write_then_assume_init_ref() {
    let mut m = MaybeUninit::<(u8, u32)>::uninit();
    m.write((7, 70));
    assert_eq!(m.assume_init_ref(), &(7, 70));
    assert_eq!(m.assume_init_ref(), &(7, 70));
}

#[test]
fn assume_init_mut_writes_through() {
    let mut m = MaybeUninit::<Vec<u8>>::uninit();
    m.write(vec![1, 2]);
    m.assume_init_mut().push(3);
    assert_eq!(m.assume_init_ref(), &vec![1, 2, 3]);
    *m.assume_init_mut() = vec![9];
    assert_eq!(m.assume_init(), vec![9]);
}

#[test]
fn second_write_replaces_the_first() {
    let mut m = MaybeUninit::<u16>::uninit();
    m.write(1);
    m.write(2);
    assert_eq!(m.assume_init(), 2);
}

#[test]
fn raw_conversions_reach_the_stored_value() {
    let slot = RawSlot::Init(5u32);
    assert_eq!(<u32 as AsMaybeUninit>::raw_from_maybe_uninit(&slot), &5);

    let mut slot = RawSlot::Init(String::from("a"));
    <String as AsMaybeUninit>::raw_mut_from_maybe_uninit(&mut slot).push('b');
    assert_eq!(<String as AsMaybeUninit>::raw_from_maybe_uninit(&slot), "ab");
}

#[test]
fn uninit_vec_has_the_asked_length() {
    assert_eq!(MaybeUninit::<u64>::uninit_vec(0).len(), 0);
    assert_eq!(MaybeUninit::<u64>::uninit_vec(5).len(), 5);
}

#[test]
fn vec_assume_init_keeps_order_and_length() {
    let mut slots = MaybeUninit::<String>::uninit_vec(4);
    // Written out of order: each container stands on its own.
    slots[2].write(String::from("c"));
    slots[0].write(String::from("a"));
    slots[3].write(String::from("d"));
    slots[1].write(String::from("b"));
    assert_eq!(slots[2].assume_init_ref(), "c");
    let vals = MaybeUninit::vec_assume_init(slots);
    assert_eq!(vals, vec!["a", "b", "c", "d"]);

    let none: Vec<u8> = MaybeUninit::vec_assume_init(MaybeUninit::uninit_vec(0));
    assert_eq!(none, Vec::<u8>::new());

    let mut one = MaybeUninit::<u8>::uninit_vec(1);
    one[0].write(9);
    assert_eq!(MaybeUninit::vec_assume_init(one), vec![9]);
}

#[test]
fn containers_nest() {
    let mut outer = MaybeUninit::<MaybeUninit<u32>>::uninit();
    outer.write(MaybeUninit::uninit());
    outer.assume_init_mut().write(5);
    assert_eq!(outer.assume_init_ref().assume_init_ref(), &5);
    assert_eq!(outer.assume_init().assume_init(), 5);
}

#[test]
fn copies_of_a_container_are_independent() {
    let mut a = MaybeUninit::<u8>::uninit();
    a.write(1);
    let mut b = a;
    b.write(2);
    assert_eq!(a.assume_init(), 1);
    assert_eq!(b.clone().assume_init(), 2);
}
