use embedded_list::{DrawCall, Items, List, ListError, ListItem, ListSource, Viewport};

struct Heights(Vec<i32>);

impl ListSource for Heights {
    fn total_count(&self) -> u8 {
        self.0.len() as u8
    }

    fn height_for_index(&self, index: u8) -> i32 {
        self.0[index as usize]
    }
}

struct Label {
    lines: i32,
}

impl ListItem for Label {
    fn height(&self) -> i32 {
        self.lines * 8
    }
}

fn calls<S: ListSource>(list: &List<S>) -> Vec<DrawCall> {
    let mut pass = list.draw_pass();
    let mut calls = Vec::new();
    while let Some(call) = pass.next_call() {
        calls.push(call);
    }
    assert_eq!(pass.next_call(), None);
    calls
}

fn call(index: u8, is_active: bool, x: i32, y: i32) -> DrawCall {
    DrawCall { index, is_active, x, y }
}

#[test]
fn draws_items_that_overlap_viewport() {
    let source = Heights(vec![20; 5]);
    let list = List::new(Viewport::new(0, 0, 100, 50).unwrap(), &source);
    assert_eq!(
        calls(&list),
        vec![call(0, true, 0, 0), call(1, false, 0, 20), call(2, false, 0, 40)]
    );
}

#[test]
fn draws_scrolled_items_at_their_rows() {
    let source = Heights(vec![20; 5]);
    let mut list = List::new(Viewport::new(7, 16, 100, 50).unwrap(), &source);
    list.set_current(4);
    assert_eq!(list.scroll_offset(), 50);
    assert_eq!(
        calls(&list),
        vec![call(2, false, 7, 6), call(3, false, 7, 26), call(4, true, 7, 46)]
    );
    list.set_current(3);
    assert_eq!(
        calls(&list),
        vec![call(2, false, 7, 6), call(3, true, 7, 26), call(4, false, 7, 46)]
    );
}

#[test]
fn draws_each_visible_item_once_and_no_other() {
    let heights = vec![7, 50, 1, 0, 33, 49, 12, 50, 3, 120, 5];
    let source = Heights(heights.clone());
    let viewport = Viewport::new(4, 30, 64, 50).unwrap();
    let mut list = List::new(viewport, &source);
    for index in 0u8..11 {
        list.set_current(index);
        let drawn = calls(&list);
        let mut expected = Vec::new();
        let mut row = 30 - list.scroll_offset();
        for (i, height) in heights.iter().enumerate() {
            let end = row + *height as i64;
            if end > 30 && row < 80 {
                expected.push(call(i as u8, i as u8 == index, 4, row as i32));
            }
            row = end;
        }
        assert_eq!(drawn, expected);
        let active = drawn.iter().filter(|c| c.is_active).count();
        assert_eq!(active, if heights[index as usize] > 0 { 1 } else { 0 });
    }
}

#[test]
fn item_beginning_in_last_row_is_drawn() {
    // The last row of the viewport is row 49.
    let source = Heights(vec![48, 1, 10, 10]);
    let list = List::new(Viewport::new(0, 0, 100, 50).unwrap(), &source);
    assert_eq!(
        calls(&list),
        vec![call(0, true, 0, 0), call(1, false, 0, 48), call(2, false, 0, 49)]
    );
}

#[test]
fn item_beginning_below_last_row_is_not_drawn() {
    let source = Heights(vec![49, 1, 10]);
    let list = List::new(Viewport::new(0, 0, 100, 50).unwrap(), &source);
    assert_eq!(calls(&list), vec![call(0, true, 0, 0), call(1, false, 0, 49)]);
}

#[test]
fn current_item_in_last_row_is_drawn() {
    let source = Heights(vec![50, 1, 10]);
    let mut list = List::new(Viewport::new(0, 0, 100, 50).unwrap(), &source);
    list.set_current(1);
    assert_eq!(list.scroll_offset(), 1);
    assert_eq!(calls(&list), vec![call(0, false, 0, -1), call(1, true, 0, 49)]);
}

#[test]
fn item_ending_in_top_row_is_not_drawn() {
    let source = Heights(vec![10, 10, 40, 10]);
    let mut list = List::new(Viewport::new(0, 5, 100, 50).unwrap(), &source);
    list.set_current(3);
    assert_eq!(list.scroll_offset(), 20);
    // Item 1 lies in rows -5 up to 5 of the display and ends where the
    // viewport begins.
    assert_eq!(calls(&list), vec![call(2, false, 0, 5), call(3, true, 0, 45)]);
}

#[test]
fn empty_item_inside_viewport_is_drawn() {
    let source = Heights(vec![10, 0, 10]);
    let list = List::new(Viewport::new(0, 0, 100, 50).unwrap(), &source);
    assert_eq!(
        calls(&list),
        vec![call(0, true, 0, 0), call(1, false, 0, 10), call(2, false, 0, 10)]
    );
}

#[test]
fn empty_source_draws_nothing() {
    let source = Heights(vec![]);
    let mut list = List::new(Viewport::new(0, 0, 100, 50).unwrap(), &source);
    assert_eq!(calls(&list), vec![]);
    list.set_current(3);
    assert_eq!(calls(&list), vec![]);
    assert_eq!(list.draw_pass().next_call(), None);
}

#[test]
fn viewport_without_width_draws_by_rows() {
    let source = Heights(vec![20; 3]);
    let list = List::new(Viewport::new(0, 0, 0, 50).unwrap(), &source);
    assert_eq!(
        calls(&list),
        vec![call(0, true, 0, 0), call(1, false, 0, 20), call(2, false, 0, 40)]
    );
    let source = Heights(vec![10, 200, 10]);
    let mut list = List::new(Viewport::new(3, 0, 0, 50).unwrap(), &source);
    list.set_current(2);
    assert_eq!(list.scroll_offset(), 170);
    assert_eq!(calls(&list), vec![call(1, false, 3, -160), call(2, true, 3, 40)]);
}

#[test]
fn viewport_without_height_draws_nothing() {
    let source = Heights(vec![20; 3]);
    let list = List::new(Viewport::new(0, 30, 100, 0).unwrap(), &source);
    assert_eq!(calls(&list), vec![]);
    let mut list = List::new(Viewport::new(0, 0, 100, 0).unwrap(), &source);
    list.set_current(1);
    assert_eq!(list.scroll_offset(), 20);
    assert_eq!(calls(&list), vec![]);
    list.set_current(0);
    assert_eq!(list.scroll_offset(), 0);
    assert_eq!(calls(&list), vec![]);
}

#[test]
fn oversized_current_item_is_drawn_from_its_top() {
    let source = Heights(vec![10, 200, 10]);
    let mut list = List::new(Viewport::new(0, 5, 100, 50).unwrap(), &source);
    list.set_current(1);
    assert_eq!(list.scroll_offset(), 10);
    assert_eq!(calls(&list), vec![call(1, true, 0, 5)]);
}

#[test]
fn row_above_coordinates_is_drawn_at_nearest() {
    let source = Heights(vec![i32::MAX, 10]);
    let mut list = List::new(Viewport::new(0, -100, 10, 50).unwrap(), &source);
    list.set_current(1);
    assert_eq!(list.scroll_offset(), i32::MAX as i64 - 40);
    // The first item begins at row -100 - (i32::MAX - 40), which is no
    // coordinate, and ends at row -60.
    assert_eq!(calls(&list), vec![call(0, false, 0, i32::MIN), call(1, true, 0, -60)]);
}

#[test]
fn row_below_coordinates_is_drawn_at_nearest() {
    // Without width the viewport may reach below the last coordinate.
    let source = Heights(vec![i32::MAX, i32::MAX, 5]);
    let list = List::new(Viewport::new(0, 0, 0, u32::MAX).unwrap(), &source);
    assert_eq!(
        calls(&list),
        vec![call(0, true, 0, 0), call(1, false, 0, i32::MAX), call(2, false, 0, i32::MAX)]
    );
}

#[test]
fn items_are_a_source() {
    let labels = vec![Label { lines: 1 }, Label { lines: 3 }, Label { lines: 2 }];
    let source = Items::new(&labels).unwrap();
    assert_eq!(source.total_count(), 3);
    assert_eq!(source.height_for_index(0), 8);
    assert_eq!(source.height_for_index(1), 24);
    assert_eq!(source.height_for_index(2), 16);
    assert_eq!(source.items().len(), 3);
    let mut list = List::new(Viewport::new(0, 0, 100, 30).unwrap(), &source);
    list.set_current(2);
    assert_eq!(list.scroll_offset(), 18);
    assert_eq!(calls(&list), vec![call(1, false, 0, -10), call(2, true, 0, 14)]);
}

#[test]
fn plain_heights_are_items() {
    let rows = [10, 200, 10];
    assert_eq!(rows[1].height(), 200);
    let source = Items::new(&rows).unwrap();
    assert_eq!(source.total_count(), 3);
    assert_eq!(source.height_for_index(1), 200);
    let mut list = List::new(Viewport::new(0, 0, 100, 50).unwrap(), &source);
    list.set_current(1);
    assert_eq!(list.scroll_offset(), 10);
    assert_eq!(calls(&list), vec![call(1, true, 0, 0)]);
    list.set_current(2);
    assert_eq!(list.scroll_offset(), 170);
    assert_eq!(calls(&list), vec![call(1, false, 0, -160), call(2, true, 0, 40)]);
}

#[test]
fn items_take_no_more_than_a_list_can_count() {
    let many: Vec<Label> = (0..256).map(|_| Label { lines: 1 }).collect();
    assert!(matches!(Items::new(&many), Err(ListError::OutOfBounds)));
    let source = Items::new(&many[..255]).unwrap();
    assert_eq!(source.total_count(), 255);
    let mut list = List::new(Viewport::new(0, 0, 100, 16).unwrap(), &source);
    list.set_current(254);
    assert_eq!(list.current(), 254);
    assert_eq!(list.scroll_offset(), 255 * 8 - 16);
    assert_eq!(calls(&list), vec![call(253, false, 0, 0), call(254, true, 0, 8)]);
    let none: Vec<Label> = Vec::new();
    assert_eq!(Items::new(&none).unwrap().total_count(), 0);
}
