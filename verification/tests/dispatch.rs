use vtable::{AnimalVTable, Cat, Dog, HasStaticVTable, VBox, VRef, VRefMut, DOG_VTABLE_ADDR};

#[test]
fn box_downcast_returns_original_address() {
    let dog = Dog::new(0x100, 5);
    let mut boxed: VBox<AnimalVTable> = VBox::new(dog);

    let shared = boxed.borrow();
    assert_eq!(shared.downcast::<Dog>(), Some(0x100));
    assert_eq!(shared.downcast::<Cat>(), None);

    let mut exclusive = boxed.borrow_mut();
    assert_eq!(exclusive.downcast::<Dog>(), Some(0x100));
    assert_eq!(exclusive.downcast::<Cat>(), None);

    boxed.destroy();
}

#[test]
fn direct_ref_and_boxed_ref_agree() {
    let dog_direct = Dog::new(0x110, 1);
    let direct: VRef<AnimalVTable> = VRef::new(&dog_direct);

    let boxed: VBox<AnimalVTable> = VBox::new(Dog::new(0x120, 2));
    let borrowed = boxed.borrow();

    assert!(direct.downcast::<Dog>().is_some());
    assert!(borrowed.downcast::<Dog>().is_some());
    assert!(direct.downcast::<Cat>().is_none());
    assert!(borrowed.downcast::<Cat>().is_none());

    assert_eq!(
        <Dog as HasStaticVTable<AnimalVTable>>::static_vtable(),
        DOG_VTABLE_ADDR
    );

    boxed.destroy();
}

#[test]
fn destroy_once_after_repeated_borrows() {
    let mut boxed: VBox<AnimalVTable> = VBox::new(Dog::new(0x130, 0));
    {
        let first = boxed.borrow();
        let second = boxed.borrow();
        assert_eq!(first.downcast::<Dog>(), second.downcast::<Dog>());
    }
    {
        let mut exclusive = boxed.borrow_mut();
        assert_eq!(exclusive.downcast::<Dog>(), Some(0x130));
    }
    boxed.destroy();
}

#[test]
fn from_raw_adopts_pair() {
    let vt = <Dog as HasStaticVTable<AnimalVTable>>::static_vtable();
    let boxed: VBox<AnimalVTable> = VBox::from_raw(vt, 0x140);
    assert_eq!(boxed.borrow().downcast::<Dog>(), Some(0x140));
    boxed.destroy();

    let shared: VRef<AnimalVTable> = VRef::from_raw(vt, 0x150);
    assert_eq!(shared.downcast::<Dog>(), Some(0x150));

    let mut exclusive: VRefMut<AnimalVTable> = VRefMut::from_raw(vt, 0x160);
    assert_eq!(exclusive.downcast::<Dog>(), Some(0x160));
}

#[test]
fn into_ref_preserves_state_and_address() {
    let mut dog = Dog::new(0x200, 0);
    dog.set_barks(7);

    let exclusive: VRefMut<AnimalVTable> = VRefMut::new(&mut dog);
    let shared = exclusive.into_ref();
    assert_eq!(shared.downcast::<Dog>(), Some(0x200));

    assert_eq!(dog.barks(), 7);
}

#[test]
fn shared_shape_distinct_statics() {
    let cat = Cat::new(0x300, 9);
    let shared: VRef<AnimalVTable> = VRef::new(&cat);

    assert_eq!(shared.downcast::<Dog>(), None);
    assert_eq!(shared.downcast::<Cat>(), Some(0x300));
    assert_eq!(cat.naps(), 9);
}

#[test]
fn vref_is_freely_duplicable() {
    let dog = Dog::new(0x310, 4);
    let first: VRef<AnimalVTable> = VRef::new(&dog);
    let second = first;
    let third = first.clone();

    assert_eq!(first.downcast::<Dog>(), Some(0x310));
    assert_eq!(second.downcast::<Dog>(), Some(0x310));
    assert_eq!(third.downcast::<Dog>(), Some(0x310));
}

#[test]
fn reborrow_chain_narrower_scope() {
    let mut dog = Dog::new(0x320, 0);
    let mut outer: VRefMut<AnimalVTable> = VRefMut::new(&mut dog);
    {
        let mut inner = outer.borrow_mut();
        assert_eq!(inner.downcast::<Dog>(), Some(0x320));
    }
    // the outer exclusive reference is usable again only now that the
    // narrower one is gone
    assert_eq!(outer.downcast::<Dog>(), Some(0x320));

    let shared = outer.borrow();
    assert_eq!(shared.downcast::<Dog>(), Some(0x320));
}

#[test]
fn boxed_cat_keeps_its_own_identity() {
    let mut boxed: VBox<AnimalVTable> = VBox::new(Cat::new(0x170, 2));
    assert_eq!(boxed.borrow().downcast::<Cat>(), Some(0x170));
    let mut exclusive = boxed.borrow_mut();
    assert_eq!(exclusive.downcast::<Dog>(), None);
    boxed.destroy();
}
