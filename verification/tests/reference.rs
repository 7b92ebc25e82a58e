use rolt::{Action, Handle, MutableCompoundShape, Ref, RefConst, RefTarget, Shape};

/// The engine's side: one counter for the object at each address.
fn count_after(actions: &[Action], object: Handle, mut count: i64) -> i64 {
    for action in actions {
        match action {
            Action::ShapeAddRef { shape } if *shape == object => count += 1,
            Action::ShapeRelease { shape } if *shape == object => count -= 1,
            _ => {}
        }
    }
    count
}

#[test]
fn a_clone_that_is_dropped_leaves_the_count_where_it_was() {
    let shape = Handle::new(0x51);
    let mut log = Vec::new();

    let (first, taken) = RefConst::<Shape>::from_active(shape);
    log.push(taken);
    let before = count_after(&log, shape, 0);
    assert_eq!(before, 1);

    let (second, cloned) = first.clone_ref();
    assert_eq!(cloned, Action::ShapeAddRef { shape });
    assert_eq!(second.as_raw(), shape);
    log.push(cloned);
    assert_eq!(count_after(&log, shape, 0), 2);

    let released = second.release();
    assert_eq!(released, Action::ShapeRelease { shape });
    log.push(released);
    assert_eq!(count_after(&log, shape, 0), before);

    log.push(first.release());
    assert_eq!(count_after(&log, shape, 0), 0);
}

#[test]
fn the_count_is_the_number_of_live_handles() {
    let shape = Handle::new(0x52);
    let other = Handle::new(0x53);
    let mut log = Vec::new();
    let mut live = Vec::new();

    let (first, taken) = Ref::<Shape>::from_active(shape);
    log.push(taken);
    live.push(first);
    for _ in 0..4 {
        let (next, cloned) = live[0].clone_ref();
        log.push(cloned);
        live.push(next);
        assert_eq!(count_after(&log, shape, 0), live.len() as i64);
    }
    while let Some(handle) = live.pop() {
        log.push(handle.release());
        assert_eq!(count_after(&log, shape, 0), live.len() as i64);
    }
    assert_eq!(count_after(&log, other, 0), 0);
}

#[test]
fn a_compound_shape_is_counted_as_the_shape_it_is() {
    let compound = Handle::new(0x54);
    assert_eq!(MutableCompoundShape::add_ref(compound), Action::ShapeAddRef { shape: compound });
    assert_eq!(MutableCompoundShape::release(compound), Action::ShapeRelease { shape: compound });
    assert_eq!(Shape::add_ref(compound), Action::ShapeAddRef { shape: compound });
    assert_eq!(Shape::release(compound), Action::ShapeRelease { shape: compound });

    let (handle, taken) = Ref::<MutableCompoundShape>::from_active(compound);
    assert_eq!(taken, Action::ShapeAddRef { shape: compound });
    assert_eq!(handle.as_raw(), compound);
    let (again, cloned) = handle.clone_ref();
    assert_eq!(cloned, Action::ShapeAddRef { shape: compound });
    assert_eq!(again.release(), Action::ShapeRelease { shape: compound });
    assert_eq!(handle.release(), Action::ShapeRelease { shape: compound });
}
