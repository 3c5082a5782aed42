use zoomosc_lite::walk::{MenuWalk, TreeWalk};

#[test]
fn walk_visits_in_document_order() {
    // 0 has children 1, 2; 1 has child 3.
    let mut walk = TreeWalk::new(0, 100, 30);
    let mut order = Vec::new();
    while let Some((id, depth)) = walk.next() {
        order.push((id, depth));
        let children: Vec<usize> = match id {
            0 => vec![1, 2],
            1 => vec![3],
            _ => vec![],
        };
        walk.expand(depth, &children);
    }
    assert_eq!(order, vec![(0, 0), (1, 1), (3, 2), (2, 1)]);
}

#[test]
fn walk_stops_at_visit_budget() {
    let mut walk = TreeWalk::new(0, 3, 30);
    let mut visits = 0;
    let mut next_id = 1;
    while let Some((_, depth)) = walk.next() {
        visits += 1;
        let children = vec![next_id, next_id + 1];
        next_id += 2;
        walk.expand(depth, &children);
    }
    assert_eq!(visits, 3);
    assert!(walk.next().is_none());
}

#[test]
fn walk_does_not_descend_past_depth_limit() {
    let mut walk = TreeWalk::new(0, 100, 1);
    let mut seen = Vec::new();
    while let Some((id, depth)) = walk.next() {
        seen.push((id, depth));
        assert!(depth <= 1);
        assert_eq!(walk.descends_from(depth), depth < 1);
        walk.expand(depth, &vec![id * 10 + 1]);
    }
    assert_eq!(seen, vec![(0, 0), (1, 1)]);
}

#[test]
fn zero_budget_visits_nothing() {
    let mut walk = TreeWalk::new(7, 0, 30);
    assert_eq!(walk.next(), None);
}

#[test]
fn menu_walk_takes_last_child_first() {
    let mut walk = MenuWalk::new(&vec![1, 2], None);
    let mut order = Vec::new();
    while let Some(id) = walk.next() {
        order.push(id);
        let children: Vec<usize> = match id {
            2 => vec![3, 4],
            _ => vec![],
        };
        walk.expand(&children);
    }
    assert_eq!(order, vec![2, 4, 3, 1]);
}

#[test]
fn menu_walk_stops_adding_children_at_limit() {
    let mut walk = MenuWalk::new(&vec![1], Some(2));
    let mut order = Vec::new();
    while let Some(id) = walk.next() {
        order.push(id);
        walk.expand(&vec![id + 1]);
    }
    // The first visit adds a child; the second reaches the limit.
    assert_eq!(order, vec![1, 2]);
}
