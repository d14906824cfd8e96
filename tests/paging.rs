use botshop::component::{ComponentEvent, ComponentKind};
use botshop::paginator::{Page, PageError};
use botshop::transactions::Transactions;
use botshop::user::User;

fn click(id: &str) -> ComponentEvent {
    ComponentEvent { kind: ComponentKind::Button, custom_id: id.to_owned(), values: Vec::new(), user_id: 1 }
}

fn numbers(n: u32) -> Vec<u32> {
    (1..=n).collect()
}

#[test]
fn twenty_five_items_in_pages_of_ten() {
    let mut page = Page::new(numbers(25), 10).unwrap();
    assert_eq!(page.total_pages(), 3);
    assert_eq!(page.page_items(0), &numbers(10)[..]);
    assert_eq!(page.page_items(1), &(11..=20).collect::<Vec<u32>>()[..]);
    assert_eq!(page.page_items(2), &[21, 22, 23, 24, 25][..]);

    assert_eq!(page.handle_event(&click("right_page_select")), Ok(true));
    assert_eq!(page.handle_event(&click("right_page_select")), Ok(true));
    assert_eq!(page.index(), 2);
    assert_eq!(page.handle_event(&click("right_page_select")), Ok(false));
    assert_eq!(page.index(), 2);
    let (items, controls) = page.render();
    assert_eq!(items, &[21, 22, 23, 24, 25][..]);
    assert!(!controls.previous_disabled);
    assert!(controls.next_disabled);
    assert_eq!(controls.page_number, 3);
    assert_eq!(controls.total_pages, 3);
}

#[test]
fn pages_join_back_to_the_items() {
    for chunk in 1..=30usize {
        let items = numbers(25);
        let page = Page::new(items.clone(), chunk).unwrap();
        let total = page.total_pages();
        assert_eq!(total, (25 + chunk - 1) / chunk);
        let mut joined = Vec::new();
        for i in 0..total {
            joined.extend_from_slice(page.page_items(i));
        }
        assert_eq!(joined, items);
    }
}

#[test]
fn zero_chunk_size_is_refused() {
    assert_eq!(Page::new(numbers(3), 0).err(), Some(PageError::ConfigError));
}

#[test]
fn empty_items_have_one_empty_page() {
    let page: Page<u32> = Page::new(Vec::new(), 5).unwrap();
    assert_eq!(page.total_pages(), 1);
    let (items, controls) = page.render();
    assert!(items.is_empty());
    assert!(controls.previous_disabled);
    assert!(controls.next_disabled);
    assert_eq!(controls.page_number, 1);
}

#[test]
fn previous_on_first_page_is_a_no_op() {
    let mut page = Page::new(numbers(25), 10).unwrap();
    assert_eq!(page.handle_event(&click("left_page_select")), Ok(false));
    assert_eq!(page.index(), 0);
    assert_eq!(page.handle_event(&click("right_page_select")), Ok(true));
    assert_eq!(page.handle_event(&click("left_page_select")), Ok(true));
    assert_eq!(page.index(), 0);
}

#[test]
fn other_events_are_rejected() {
    let mut page = Page::new(numbers(25), 10).unwrap();
    assert_eq!(page.handle_event(&click("page_display")), Err(PageError::UnexpectedEventKind));
    let menu = ComponentEvent {
        kind: ComponentKind::SelectMenu,
        custom_id: "right_page_select".to_owned(),
        values: vec!["x".to_owned()],
        user_id: 1,
    };
    assert_eq!(page.handle_event(&menu), Err(PageError::UnexpectedEventKind));
    assert_eq!(page.index(), 0);
}

#[test]
fn rendering_twice_gives_the_same_page() {
    let mut page = Page::new(numbers(25), 10).unwrap();
    page.handle_event(&click("right_page_select")).unwrap();
    let first = page.render();
    let first = (first.0.to_vec(), first.1);
    let second = page.render();
    assert_eq!(first.0, second.0.to_vec());
    assert_eq!(first.1, second.1);
}

#[test]
fn push_keeps_the_current_page() {
    let mut page = Page::new(numbers(10), 10).unwrap();
    assert_eq!(page.total_pages(), 1);
    page.push(11);
    assert_eq!(page.total_pages(), 2);
    assert_eq!(page.index(), 0);
    assert_eq!(page.page_items(1), &[11][..]);
}

#[test]
fn transactions_are_paged_by_ten() {
    let mut user = User::new(4);
    for i in 0..12i64 {
        user.transactions.push(format!("t{}", i), i, Some(1000 + i));
    }
    let mut history = Transactions::new(user);
    let (items, controls) = history.render();
    assert_eq!(items.len(), 10);
    assert_eq!(controls.total_pages, 2);
    assert_eq!(history.handle_event(&click("right_page_select")), Ok(true));
    let (items, _) = history.render();
    assert_eq!(items.len(), 2);
    assert_eq!(items[0].0, "t10");
}
