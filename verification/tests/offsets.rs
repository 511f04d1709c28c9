use vtable::{AnimalVTable, Dog, Kennel, VOffset};

#[test]
fn apply_projects_field_address() {
    let dog = Dog::new(0x408, 3);
    let kennel = Kennel::new(0x400, dog);

    let off: VOffset<Kennel, AnimalVTable> = VOffset::from_byte_offset::<Dog>(8);
    let projected = off.apply(&kennel);
    assert_eq!(projected.downcast::<Dog>(), Some(0x408));
}

#[test]
fn apply_reflects_container_mutation() {
    let mut kennel = Kennel::new(0x400, Dog::new(0x408, 3));
    let off: VOffset<Kennel, AnimalVTable> = VOffset::from_byte_offset::<Dog>(8);

    let before = off.apply(&kennel).downcast::<Dog>();

    // mutate the embedded field through the direct container reference
    kennel.set_dog(Dog::new(0x408, 99));

    let after = off.apply(&kennel).downcast::<Dog>();
    assert_eq!(before, after);
    assert_eq!(after, Some(0x408));
    // the projection designated the same backing memory, where the new
    // state is observable
    assert_eq!(kennel.dog().barks(), 99);
}

#[test]
fn apply_mut_projects_exclusively() {
    let mut kennel = Kennel::new(0x500, Dog::new(0x510, 0));
    let off: VOffset<Kennel, AnimalVTable> = VOffset::from_byte_offset::<Dog>(16);

    let mut exclusive = off.apply_mut(&mut kennel);
    assert_eq!(exclusive.downcast::<Dog>(), Some(0x510));
}

#[test]
fn voffset_is_copied_whole() {
    let kennel = Kennel::new(0x600, Dog::new(0x608, 1));
    let off: VOffset<Kennel, AnimalVTable> = VOffset::from_byte_offset::<Dog>(8);
    let copy = off;
    let clone = off.clone();

    assert_eq!(off.apply(&kennel).downcast::<Dog>(), Some(0x608));
    assert_eq!(copy.apply(&kennel).downcast::<Dog>(), Some(0x608));
    assert_eq!(clone.apply(&kennel).downcast::<Dog>(), Some(0x608));
}

#[test]
fn zero_offset_projects_container_address() {
    let kennel = Kennel::new(0x700, Dog::new(0x700, 0));
    let off: VOffset<Kennel, AnimalVTable> = VOffset::from_byte_offset::<Dog>(0);
    assert_eq!(off.apply(&kennel).downcast::<Dog>(), Some(0x700));
}
