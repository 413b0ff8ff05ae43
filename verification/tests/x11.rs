use slint_webview::x11::{
    ContainerClimb, WindowTree, WindowTreeWalk, focus_needs_restore, normalize_window_ids,
    pick_container, restores_focus_unasked, window_in_trees, x11_window_id,
};

#[test]
fn window_ids_must_be_nonzero_and_fit_in_32_bits() {
    assert_eq!(x11_window_id(0), None);
    assert_eq!(x11_window_id(0x1234), Some(0x1234));
    assert_eq!(x11_window_id(0xffff_ffff), Some(0xffff_ffff));
    assert_eq!(x11_window_id(0x1_0000_0000), None);
}

#[test]
fn window_ids_are_sorted_without_repeats() {
    assert_eq!(normalize_window_ids(vec![9, 3, 9, 1, 3]), vec![1, 3, 9]);
    assert_eq!(normalize_window_ids(vec![]), Vec::<u32>::new());
    assert_eq!(normalize_window_ids(vec![7, 7]), vec![7]);
}

#[test]
fn tree_walk_goes_depth_first() {
    // 1 has children 2 and 3; 3 has child 4.
    let mut walk = WindowTreeWalk::new(1);
    assert_eq!(walk.next_window(), Some(1));
    walk.record_children(&[2, 3]);
    assert_eq!(walk.next_window(), Some(3));
    walk.record_children(&[4]);
    assert_eq!(walk.next_window(), Some(4));
    walk.record_children(&[]);
    assert_eq!(walk.next_window(), Some(2));
    walk.record_children(&[]);
    assert_eq!(walk.next_window(), None);
    assert_eq!(
        walk.into_tree(),
        WindowTree {
            root: 1,
            descendants: vec![2, 3, 4],
        }
    );
}

fn tree(root: u32, descendants: &[u32]) -> WindowTree {
    WindowTree {
        root,
        descendants: descendants.to_vec(),
    }
}

#[test]
fn focus_returns_to_host_only_from_webview_windows() {
    let trees = [tree(10, &[11, 12]), tree(20, &[])];
    assert!(window_in_trees(12, &trees));
    assert!(window_in_trees(20, &trees));
    assert!(!window_in_trees(30, &trees));
    assert!(focus_needs_restore(1, 11, &trees));
    assert!(!focus_needs_restore(1, 30, &trees));
    assert!(!focus_needs_restore(10, 10, &trees));
}

#[test]
fn climb_finds_the_host_child_above_the_webview() {
    // host 1 > container 5 > 7 > webview root 9
    let mut climb = ContainerClimb::new(1, 9);
    assert_eq!(climb.next_query(), Some(9));
    assert_eq!(climb.record_parent(Some(7)), None);
    assert_eq!(climb.next_query(), Some(7));
    assert_eq!(climb.record_parent(Some(5)), None);
    assert_eq!(climb.next_query(), Some(5));
    assert_eq!(climb.record_parent(Some(1)), Some(5));
    assert_eq!(climb.next_query(), None);
}

#[test]
fn climb_gives_up_on_failed_or_looping_queries() {
    let mut climb = ContainerClimb::new(1, 9);
    assert_eq!(climb.record_parent(None), None);
    assert_eq!(climb.next_query(), None);

    let mut climb = ContainerClimb::new(1, 9);
    assert_eq!(climb.record_parent(Some(9)), None);
    assert_eq!(climb.next_query(), None);

    let mut climb = ContainerClimb::new(1, 9);
    assert_eq!(climb.record_parent(Some(0)), None);
    assert_eq!(climb.next_query(), None);

    let climb = ContainerClimb::new(1, 1);
    assert_eq!(climb.next_query(), None);
}

#[test]
fn climb_stops_after_its_step_budget() {
    let mut climb = ContainerClimb::new(1, 1000);
    let mut queries = 0;
    while let Some(window) = climb.next_query() {
        queries += 1;
        assert_eq!(climb.record_parent(Some(window + 1)), None);
    }
    assert_eq!(queries, 32);
}

#[test]
fn container_is_the_first_child_holding_the_webview() {
    let roots = [9];
    let children = [tree(4, &[40]), tree(5, &[7, 9]), tree(6, &[9])];
    assert_eq!(pick_container(&children, &roots), Some(5));
    let children = [tree(4, &[]), tree(9, &[])];
    assert_eq!(pick_container(&children, &roots), Some(9));
    let children = [tree(4, &[]), tree(6, &[])];
    assert_eq!(pick_container(&children, &roots), Some(4));
    assert_eq!(pick_container(&[], &roots), None);
}

#[test]
fn focus_returns_to_host_unasked_when_no_webview_window_is_known() {
    assert!(restores_focus_unasked(&[]));
    assert!(!restores_focus_unasked(&[7]));
}
