use sfml::ffi::system::sfStdStringVectorIter;

#[test]
fn a_walk_hands_out_each_index_once_and_in_order() {
    let mut walk = sfStdStringVectorIter::new(3);
    assert_eq!(walk.next(), Some(0));
    assert_eq!(walk.next(), Some(1));
    assert_eq!(walk.next(), Some(2));
    assert_eq!(walk.next(), None);
}

#[test]
fn a_walk_that_is_over_stays_over() {
    let mut walk = sfStdStringVectorIter::new(1);
    assert_eq!(walk.next(), Some(0));
    for _ in 0..5 {
        assert_eq!(walk.next(), None);
    }
}

#[test]
fn a_walk_through_nothing_hands_out_nothing() {
    let mut walk = sfStdStringVectorIter::new(0);
    assert_eq!(walk.next(), None);
    assert_eq!(walk.next(), None);
}

#[test]
fn a_walk_through_the_longest_vector_ends() {
    let mut walk = sfStdStringVectorIter::new(usize::MAX);
    assert_eq!(walk.next(), Some(0));
    assert_eq!(walk.next(), Some(1));
}

#[test]
fn a_copy_of_a_walk_goes_its_own_way() {
    let mut walk = sfStdStringVectorIter::new(2);
    assert_eq!(walk.next(), Some(0));
    let mut copy = walk;
    assert_eq!(walk.next(), Some(1));
    assert_eq!(copy.next(), Some(1));
    assert_eq!(copy.next(), None);
}
