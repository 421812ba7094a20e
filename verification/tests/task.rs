use extend_mut::aborts::{abort_on_unwind, Violation};
use extend_mut::task::{ExtendMutTask, Polled, Resumed};
use extend_mut::witness::AddressWitness;

fn ready_value<R>(polled: Polled<R>) -> Option<R> {
    match polled {
        Polled::Ready(value) => Some(value),
        _ => None,
    }
}

#[test]
fn new_task_has_not_completed() {
    let task = ExtendMutTask::new(0x1000);
    assert_eq!(task.addr(), 0x1000);
    assert!(!task.is_ready());
    assert_eq!(task.on_drop(), Some(Violation::DroppedBeforeReady));
}

#[test]
fn suspended_computation_leaves_task_pending() {
    let mut task = ExtendMutTask::new(0x1000);
    assert!(matches!(task.poll(Resumed::<u8>::Suspended), Polled::Pending));
    assert!(!task.is_ready());
    assert_eq!(task.on_drop(), Some(Violation::DroppedBeforeReady));
}

#[test]
fn finished_computation_reports_its_value_once() {
    let mut task = ExtendMutTask::new(0x1000);
    let first = task.poll(Resumed::Finished { returned: 0x1000, payload: 8 });
    assert_eq!(ready_value(first), Some(8));
    assert!(task.is_ready());
    assert_eq!(task.on_drop(), None);
    let again = task.poll(Resumed::Finished { returned: 0x1000, payload: 9 });
    assert!(matches!(again, Polled::Pending));
    assert!(matches!(task.poll(Resumed::<i32>::Suspended), Polled::Pending));
    assert!(task.is_ready());
    assert_eq!(task.addr(), 0x1000);
}

#[test]
fn reference_from_elsewhere_is_a_violation() {
    let mut task = ExtendMutTask::new(0x1000);
    let polled = task.poll(Resumed::Finished { returned: 0x1008, payload: 8 });
    assert!(matches!(polled, Polled::Violated(Violation::PointerChanged)));
    assert!(!task.is_ready());
    assert_eq!(task.on_drop(), Some(Violation::DroppedBeforeReady));
}

#[test]
fn task_for_zero_sized_value_is_refused() {
    let unit = ();
    assert!(matches!(ExtendMutTask::begin(&unit), Err(Violation::ZeroSized)));
    let x = 5;
    let task = ExtendMutTask::begin(&x).unwrap();
    assert!(!task.is_ready());
    assert_eq!(task.addr(), AddressWitness::capture(&x).addr());
}

#[test]
fn test_extend_mut_async_immediate() {
    let mut x = 5;
    let lent = &mut x;
    let mut task = ExtendMutTask::begin(&*lent).unwrap();
    assert_eq!(*lent, 5);
    let resumed = Resumed::Finished { returned: AddressWitness::capture(&*lent).addr(), payload: 8 };
    let ret = match task.poll(resumed) {
        Polled::Ready(ret) => ret,
        _ => panic!(),
    };
    assert_eq!(ret, 8);
    assert_eq!(task.on_drop(), None);
}

#[test]
fn test_extend_mut_async_yielding() {
    let mut x = 5;
    let lent = &mut x;
    let mut task = ExtendMutTask::begin(&*lent).unwrap();
    let mut held = Some(lent);
    let mut i = 0;
    let mut resume = move || {
        let x = held.as_mut().unwrap();
        **x += 1;
        if i == 20 {
            let back = held.take().unwrap();
            Resumed::Finished { returned: AddressWitness::capture(&*back).addr(), payload: () }
        } else {
            i += 1;
            Resumed::Suspended
        }
    };
    let mut resumptions = 0;
    loop {
        assert!(!task.is_ready());
        resumptions += 1;
        match task.poll(resume()) {
            Polled::Ready(()) => break,
            Polled::Pending => continue,
            Polled::Violated(violation) => panic!("{}", violation.message()),
        }
    }
    assert_eq!(resumptions, 21);
    assert!(task.is_ready());
    assert_eq!(task.on_drop(), None);
    assert_eq!(x, 26);
}

#[test]
fn witness_admits_only_its_own_address() {
    let witness = AddressWitness::new(64);
    assert_eq!(witness.addr(), 64);
    assert!(witness.admits(64));
    assert!(!witness.admits(65));
    assert_eq!(witness.release(64, "kept"), Ok("kept"));
    assert_eq!(witness.release(72, "lost"), Err(Violation::PointerChanged));
}

#[test]
fn captured_address_tells_storage_apart() {
    let pair = (1u32, 1u32);
    let first = AddressWitness::capture(&pair.0);
    assert!(first.admits(AddressWitness::capture(&pair.0).addr()));
    assert!(!first.admits(AddressWitness::capture(&pair.1).addr()));
    assert_ne!(first.addr(), 0);
}

#[test]
fn every_violation_has_its_message() {
    assert_eq!(Violation::PointerChanged.message(), "ExtendMut: Pointer changed");
    assert_eq!(Violation::Unwound.message(), "ExtendMut: Function cannot unwind");
    assert_eq!(
        Violation::DroppedBeforeReady.message(),
        "Cannot drop ExtendMutFuture before it yields Poll::Ready"
    );
    assert_eq!(Violation::ZeroSized.message(), "ExtendMut: Cannot extend a zero-sized value");
}

#[test]
fn guarded_call_returns_what_the_callback_returns() {
    let text = String::from("kept");
    assert_eq!(abort_on_unwind(move || text.len() + 1), 5);
    assert_eq!(abort_on_unwind(|| "done"), "done");
}

#[test]
fn member_in_place_passes_on_what_the_rest_came_to() {
    let witness = AddressWitness::new(64);
    assert_eq!(witness.release_if(64, Ok("kept")), Ok("kept"));
    assert_eq!(
        witness.release_if(64, Err::<u8, Violation>(Violation::PointerChanged)),
        Err(Violation::PointerChanged)
    );
}

#[test]
fn member_elsewhere_fails_whatever_the_rest_came_to() {
    let witness = AddressWitness::new(64);
    assert_eq!(witness.release_if(72, Ok("lost")), Err(Violation::PointerChanged));
    assert_eq!(
        witness.release_if(72, Err::<u8, Violation>(Violation::PointerChanged)),
        Err(Violation::PointerChanged)
    );
}

#[test]
fn group_is_released_member_by_member() {
    let first = AddressWitness::new(8);
    let second = AddressWitness::new(16);
    let third = AddressWitness::new(24);
    let all = |a: usize, b: usize, c: usize| {
        first.release_if(a, second.release_if(b, third.release(c, "all")))
    };
    assert_eq!(all(8, 16, 24), Ok("all"));
    assert_eq!(all(9, 16, 24), Err(Violation::PointerChanged));
    assert_eq!(all(8, 17, 24), Err(Violation::PointerChanged));
    assert_eq!(all(8, 16, 25), Err(Violation::PointerChanged));
    assert_eq!(all(16, 8, 24), Err(Violation::PointerChanged));
    assert_eq!(all(24, 24, 24), Err(Violation::PointerChanged));
}

#[test]
fn completed_task_does_not_resume_again() {
    let mut task = ExtendMutTask::new(0x1000);
    let mut resumptions = 0;
    let polled = task.poll_with(|| {
        resumptions += 1;
        Resumed::<u8>::Suspended
    });
    assert_eq!(polled, Polled::Pending);
    let polled = task.poll_with(|| {
        resumptions += 1;
        Resumed::Finished { returned: 0x1000, payload: 8u8 }
    });
    assert_eq!(polled, Polled::Ready(8));
    assert!(task.is_ready());
    let polled = task.poll_with(|| {
        resumptions += 1;
        Resumed::Finished { returned: 0x1000, payload: 9u8 }
    });
    assert_eq!(polled, Polled::Pending);
    assert_eq!(resumptions, 2);
}

#[test]
fn resumption_with_reference_from_elsewhere_is_a_violation() {
    let mut task = ExtendMutTask::new(0x1000);
    let polled = task.poll_with(|| Resumed::Finished { returned: 0x2000, payload: 8u8 });
    assert_eq!(polled, Polled::Violated(Violation::PointerChanged));
    assert!(!task.is_ready());
}
