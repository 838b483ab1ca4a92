use rose::slotmap::{Slot, SlotMap};

fn one() -> (Slot, SlotMap<u32>) {
    let mut sm = SlotMap::default();
    let s = sm.insert(1);

    (s, sm)
}

#[test]
fn insert_into_empty() {
    let (one, _) = one();
    assert_eq!(
        one,
        Slot {
            index: 0,
            generation: 0
        }
    );
}

#[test]
fn get() {
    let (s, sm) = one();
    assert_eq!(sm.get(s), Some(&1));
}

#[test]
fn get_mut() {
    let (s, mut sm) = one();
    assert_eq!(sm.get_mut(s), Some(&mut 1));
}

#[test]
fn mutate_and_get() {
    let (s, mut sm) = one();
    sm.get_mut(s).map(|v| *v = 2);

    assert_eq!(sm.get(s), Some(&2));
}

#[test]
fn delete() {
    let (s, mut sm) = one();
    assert_eq!(sm.delete(s), Some(1));
    assert_eq!(sm.free_len(), 1);
    assert_eq!(sm.generation_of(s.index), 1);
}

#[test]
fn double_delete() {
    let (s, mut sm) = one();
    sm.delete(s);

    assert_eq!(sm.delete(s), None);
}

#[test]
fn delete_get() {
    let (s, mut sm) = one();
    sm.delete(s);

    assert_eq!(sm.get(s), None);
}

#[test]
fn delete_insert() {
    let (s, mut sm) = one();
    sm.delete(s);
    let ns = sm.insert(2);
    assert_eq!(
        ns,
        Slot {
            index: 0,
            generation: 1
        }
    );
    assert_eq!(sm.free_len(), 0);
    assert_eq!(sm.get(ns), Some(&2));
}

#[test]
fn full_usage() {
    let mut sm = SlotMap::default();
    let one = sm.insert(1);

    // First we need to immutably retrieve `one`
    assert_eq!(sm.get(one), Some(&1));

    // Next we need to modify `one`
    {
        let val = sm.get_mut(one);
        assert_eq!(val, Some(&mut 1));
        val.map(|v| *v = 2);
    }

    // Need to retrieve the new value
    assert_eq!(sm.get(one), Some(&2));

    // Add another element!
    let three = sm.insert(3);
    assert_eq!(
        three,
        Slot {
            index: 1,
            generation: 0
        }
    );

    // Delete `one`, we don't need it anymore
    let one_value = sm.delete(one);
    assert_eq!(one_value, Some(2));

    // Insert another element!
    let four = sm.insert(4);
    assert_eq!(
        four,
        Slot {
            index: 0,
            generation: 1
        }
    );
}
