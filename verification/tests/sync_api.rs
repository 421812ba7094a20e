use extend_mut::aborts::Violation;
use extend_mut::{extend_mut, extend_mut_proof_for_smaller, ExtendMut};

fn bump_twice(x: &mut i32) -> &mut i32 {
    *x += 1;
    *x += 1;
    x
}

fn elsewhere<'x>(_lent: &'x mut i32) -> &'x mut i32 {
    Box::leak(Box::new(0))
}

#[test]
fn test_sync_api() {
    let (mut t1, mut t2, mut t3, mut t4) = (1, 2, 3, 4);

    let Ok(()) = extend_mut(&mut t1, |t1: &mut u8| t1) else { panic!() };
    let Ok("hi") = extend_mut(&mut t1, |t1| (t1, "hi")) else { panic!() };
    let Ok(()) = extend_mut(&mut t1, |t1| (t1, ())) else { panic!() };

    let Ok(()) = t1.extend_mut(|t1| t1) else { panic!() };
    let Ok(()) = (&mut t1).extend_mut(|t1: &mut u8| t1) else { panic!() };
    let Ok("hi") = t1.extend_mut(|t1| (t1, "hi")) else { panic!() };
    let Ok("hi") = (&mut t1).extend_mut(|t1| (t1, "hi")) else { panic!() };

    let Ok(()) = (t1, t2).extend_mut(|it: &mut (u8, u8)| it) else { panic!() };
    let Ok(()) = (&mut t1, &mut t2).extend_mut(|it: (&mut u8, &mut u8)| it) else { panic!() };
    let Ok(()) = (&mut (t1, t2)).extend_mut(|it: &mut (u8, u8)| it) else { panic!() };
    let Ok("hi") = (t1, t2).extend_mut(|it| (it, "hi")) else { panic!() };
    let Ok("hi") = (&mut t1, &mut t2).extend_mut(|it| (it, "hi")) else { panic!() };
    let Ok("hi") = (&mut (t1, t2)).extend_mut(|it| (it, "hi")) else { panic!() };

    let Ok(()) = (t1, t2, t3).extend_mut(|it: &mut (u8, u8, u8)| it) else { panic!() };
    let Ok(()) = (&mut t1, &mut t2, &mut t3).extend_mut(|it: (&mut u8, &mut u8, &mut u8)| it) else { panic!() };
    let Ok("hi") = (t1, t2, t3).extend_mut(|it| (it, "hi")) else { panic!() };
    let Ok("hi") = (&mut t1, &mut t2, &mut t3).extend_mut(|it| (it, "hi")) else { panic!() };

    let Ok(()) = (t1, t2, t3, t4).extend_mut(|it: &mut (u8, u8, u8, u8)| it) else { panic!() };
    let Ok(()) = (&mut t1, &mut t2, &mut t3, &mut t4).extend_mut(|it: (&mut u8, &mut u8, &mut u8, &mut u8)| it) else { panic!() };
    let Ok("hi") = (t1, t2, t3, t4).extend_mut(|it| (it, "hi")) else { panic!() };
    let Ok("hi") = (&mut t1, &mut t2, &mut t3, &mut t4).extend_mut(|it| (it, "hi")) else { panic!() };

    let Ok(()) = <_>::extend_mut(&mut (t1, t2, t3, t4), |it: &mut (u8, u8, u8, u8)| it) else { panic!() };
    let Ok(()) = <_>::extend_mut((&mut t1, &mut t2, &mut t3, &mut t4), |it| it) else { panic!() };
}

#[test]
fn test_extend_mut() {
    let mut x = 5;

    assert_eq!(extend_mut(&mut x, |x| bump_twice(x)), Ok(()));
    assert_eq!(x, 7);
    let hi = x.extend_mut(|x| (bump_twice(x), "hi"));
    assert_eq!(hi, Ok("hi"));
    assert_eq!(x, 9);
    assert_eq!(x.extend_mut(bump_twice), Ok(()));
    assert_eq!(x, 11);

    let mut y = 7;
    let mut z = 7;
    let hi = <_>::extend_mut((&mut x, &mut y, &mut z), |(x, y, z)| {
        ((bump_twice(x), y, z), "hi")
    });
    assert_eq!(hi, Ok("hi"));
    assert_eq!((x, y, z), (13, 7, 7));
}

#[test]
fn payload_passes_through_and_value_is_mutated() {
    let mut x = 5;
    let got = extend_mut(&mut x, |r| {
        *r += 2;
        (r, "hi")
    });
    assert_eq!(got, Ok("hi"));
    assert_eq!(x, 7);
}

#[test]
fn tag_is_returned_and_value_kept() {
    let mut v = vec![1u8, 2, 3];
    let got = extend_mut(&mut v, |r| (r, "tag"));
    assert_eq!(got, Ok("tag"));
    assert_eq!(v, vec![1u8, 2, 3]);
}

#[test]
fn same_reference_behaves_as_direct_call() {
    let mut direct = 40;
    bump_twice(&mut direct);
    let mut lent = 40;
    assert_eq!(extend_mut(&mut lent, bump_twice), Ok(()));
    assert_eq!(lent, direct);
}

#[test]
fn other_reference_is_a_changed_pointer() {
    let mut x = 5;
    assert_eq!(extend_mut(&mut x, elsewhere), Err(Violation::PointerChanged));
    assert_eq!(x.extend_mut(|lent| (elsewhere(lent), "hi")), Err(Violation::PointerChanged));
    assert_eq!(x, 5);
}

#[test]
fn swapped_members_are_a_changed_pointer() {
    let (mut a, mut b) = (1u8, 2u8);
    let got = (&mut a, &mut b).extend_mut(|(a, b)| ((b, a), "hi"));
    assert_eq!(got, Err(Violation::PointerChanged));
    let (mut a, mut b, mut c) = (1u8, 2u8, 3u8);
    let got = (&mut a, &mut b, &mut c).extend_mut(|(a, b, c)| (a, c, b));
    assert_eq!(got, Err(Violation::PointerChanged));
}

#[test]
fn zero_sized_value_is_refused_before_the_callback_runs() {
    let mut unit = ();
    let mut ran = false;
    let got = extend_mut(&mut unit, |lent| {
        ran = true;
        lent
    });
    assert_eq!(got, Err(Violation::ZeroSized));
    assert!(!ran);
}

#[test]
fn group_with_zero_sized_member_is_refused() {
    let mut x = 1u8;
    let mut unit = ();
    let mut ran = false;
    let got = (&mut x, &mut unit).extend_mut(|group| {
        ran = true;
        (group, 3)
    });
    assert_eq!(got, Err(Violation::ZeroSized));
    assert!(!ran);
    assert_eq!(x, 1);
}

#[test]
fn identity_leaves_groups_unchanged() {
    let (mut t1, mut t2, mut t3, mut t4) = (1u8, 2u16, 3u32, 4u64);
    assert_eq!((&mut t1,).extend_mut(|g| g), Ok(()));
    assert_eq!((&mut t1, &mut t2).extend_mut(|g| g), Ok(()));
    assert_eq!((&mut t1, &mut t2, &mut t3).extend_mut(|g| g), Ok(()));
    assert_eq!((&mut t1, &mut t2, &mut t3, &mut t4).extend_mut(|g| g), Ok(()));
    assert_eq!((t1, t2, t3, t4), (1, 2, 3, 4));
}

#[test]
fn group_members_are_mutated_in_place() {
    let (mut a, mut b) = (10u32, String::from("x"));
    let got = (&mut a, &mut b).extend_mut(|(a, b)| {
        *a += 1;
        b.push('y');
        ((a, b), 21u8)
    });
    assert_eq!(got, Ok(21));
    assert_eq!(a, 11);
    assert_eq!(b, "xy");
}

#[test]
fn largest_group_is_lent_whole() {
    let mut v = [0u8; 13];
    let [m1, m2, m3, m4, m5, m6, m7, m8, m9, m10, m11, m12, m13] = &mut v;
    let got = (m1, m2, m3, m4, m5, m6, m7, m8, m9, m10, m11, m12, m13).extend_mut(|group| {
        *group.0 = 1;
        *group.12 = 13;
        (group, "all")
    });
    assert_eq!(got, Ok("all"));
    assert_eq!(v, [1, 0, 0, 0, 0, 0, 0, 0, 0, 0, 0, 0, 13]);
}

#[test]
fn empty_group_only_runs_the_callback() {
    assert_eq!(().extend_mut(|()| ((), 5)), Ok(5));
    assert_eq!(().extend_mut(|()| ()), Ok(()));
}

#[test]
fn loan_within_the_lifetime_needs_no_check() {
    let mut x = 5;
    let got = extend_mut_proof_for_smaller(&mut x, |r| {
        *r *= 3;
        (r, 'k')
    });
    assert_eq!(got, 'k');
    assert_eq!(x, 15);
    let got = extend_mut_proof_for_smaller(&mut x, |lent| (elsewhere(lent), 1u8));
    assert_eq!(got, 1);
    assert_eq!(x, 15);
}

#[test]
fn one_member_out_of_place_is_a_changed_pointer() {
    let (mut a, mut b, mut c, mut d) = (1i32, 2i32, 3i32, 4i32);
    let got = (&mut a, &mut b, &mut c, &mut d).extend_mut(|(a, b, c, d)| ((a, b, c, elsewhere(d)), "hi"));
    assert_eq!(got, Err(Violation::PointerChanged));
    let got = (&mut a, &mut b, &mut c, &mut d).extend_mut(|(a, b, c, d)| ((elsewhere(a), b, c, d), "hi"));
    assert_eq!(got, Err(Violation::PointerChanged));
    let got = (&mut a, &mut b, &mut c, &mut d).extend_mut(|(a, b, c, d)| ((a, elsewhere(b), c, d), "hi"));
    assert_eq!(got, Err(Violation::PointerChanged));
    let got = (&mut a, &mut b, &mut c, &mut d).extend_mut(|group| (group, "hi"));
    assert_eq!(got, Ok("hi"));
    assert_eq!((a, b, c, d), (1, 2, 3, 4));
}
