use pointers_threads::pointers::{
    danger_pointer_val_inc, unsafe_raw_vector_element_mutability, MySelfRefState,
    MySelfReference, MySelfReferencePinned,
};
use pointers_threads::threads1::lib_th1c::{MyS, MyS2};

#[test]
fn self_reference_reads_through_pointer() {
    let mut my_self_ref = MySelfReference::new(3u8);
    my_self_ref.put_ptr();
    assert_eq!(3u8, my_self_ref.get_val());
    let (val, ptr) = my_self_ref.get_addresses();
    assert_eq!(val, ptr);
    my_self_ref.update_val(8u8);
    assert_eq!(my_self_ref.get_val(), 8);
    let (val, ptr) = my_self_ref.get_addresses();
    assert_eq!(val, ptr);
    my_self_ref.update_val_ptr(18u8);
    assert_eq!(my_self_ref.get_val(), 18);
}

#[test]
fn self_reference_update_before_put_ptr() {
    let mut my_self_ref = MySelfReference::new(3u8);
    my_self_ref.update_val(8u8);
    my_self_ref.put_ptr();
    assert_eq!(my_self_ref.get_val(), 8);
}

#[test]
fn self_reference_pinned_reads_through_pointer() {
    let mut my_self_ref = MySelfReferencePinned::new(3u8);
    my_self_ref.put_ptr();
    assert_eq!(3u8, my_self_ref.get_val());
    my_self_ref.update_val(10);
    assert_eq!(10, my_self_ref.get_val());
    my_self_ref.update_val_ptr(11);
    let (val, ptr) = my_self_ref.get_addresses();
    assert_eq!(val, ptr);
    assert_eq!(*val, 11);
}

#[test]
fn self_ref_state_put_ptr_links() {
    let my_ref = MySelfRefState::new(3u8);
    let mut my_pin = my_ref.put_ptr();
    let (_, val, ptr) = my_pin.get_addresses();
    assert_eq!(val, ptr);
    assert_eq!(my_pin.get_val_by_ptr(), 3);
    my_pin.update_val_by_ptr(42);
    assert_eq!(my_pin.get_val_by_ptr(), 42);
    let signed = MySelfRefState::new(-7i64).put_ptr();
    assert_eq!(signed.get_val_by_ptr(), -7);
}

#[test]
fn danger_pointer_same_place() {
    let mut mem = [33u16];
    assert_eq!(danger_pointer_val_inc(&mut mem, 0, 0), (33, 34));
    assert_eq!(danger_pointer_val_inc(&mut mem, 0, 0), (34, 35));
    assert_eq!(mem[0], 35);
}

#[test]
fn danger_pointer_different_places() {
    let mut mem = [33u16, 7];
    assert_eq!(danger_pointer_val_inc(&mut mem, 0, 1), (33, 33));
    assert_eq!(mem, [33, 8]);
}

#[test]
fn raw_vector_element_mutability() {
    assert_eq!(unsafe_raw_vector_element_mutability(vec![1usize, 2, 3]), (8208, 8209));
}

#[test]
fn mys_and_mys2() {
    let mut u = MyS::new(4u8);
    u.put_ptr();
    assert_eq!(u.get_val(), 4);
    u.update_val(7);
    assert_eq!(u.get_val(), 7);
    u.update_val_ptr(9);
    assert_eq!(u.get_val(), 9);
    let mut w = MyS2::new(4u8);
    w.put_ptr();
    w.update_val(44);
    w.update_val_ptr(48);
    assert_eq!(w.get_val(), 48);
}

#[test]
fn pinned_cast_methods_act_as_their_plain_forms() {
    let mut p = MySelfReferencePinned::new(3u8);
    assert!(!p.ptr_is_set());
    p.put_ptr_cast();
    assert!(p.ptr_is_set());
    assert_eq!(p.get_val(), 3);
    p.update_val_cast(7);
    assert_eq!(p.get_val(), 7);
    p.update_val_ptr_cast(10);
    assert_eq!(p.get_val(), 10);
    let (val, ptr) = p.get_addresses();
    assert_eq!(val, ptr);
}
